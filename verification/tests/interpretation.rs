use toonify::Toonify;
use toonify::ToonifyError;
use toonify::request::auth_header;
use toonify::response::fraction_runs_ok;
use toonify::request::endpoint;
use toonify::request::image_field;
use toonify::response::text_error;
use toonify::response::text_field;

#[test]
fn wire_constants() {
    assert_eq!(endpoint(), "https://api.deepai.org/api/toonify".to_string());
    assert_eq!(auth_header(), "api-key".to_string());
    assert_eq!(image_field(), "image".to_string());
}

#[test]
fn error_precedence_on_body_text() {
    assert_eq!(text_error("{\"err\":\"X\",\"status\":\"Y\"}"), Some("X".to_string()));
    assert_eq!(text_error("{\"status\":\"Y\"}"), Some("Y".to_string()));
    assert_eq!(text_error("{\"output_url\":\"http://x\"}"), None);
    assert_eq!(text_error("not json"), None);
}

#[test]
fn field_lookup_on_body_text() {
    assert_eq!(text_field("{\"id\":\"42\"}", "id"), Some("42".to_string()));
    assert_eq!(text_field("{\"id\":\"42\"}", "output_url"), None);
    assert_eq!(text_field("[1,2]", "id"), None);
    assert_eq!(text_field("not json", "id"), None);
}

#[test]
fn null_valued_field_renders_as_null_text() {
    let t = Toonify::new(Some("{\"id\":null}".to_string()));
    assert_eq!(t.id(), Ok("null".to_string()));
}

#[test]
fn boolean_field_rendered_as_text() {
    assert_eq!(text_field("{\"id\":true}", "id"), Some("true".to_string()));
}

#[test]
fn fraction_run_screen_boundary() {
    assert!(fraction_runs_ok("{\"id\":\"42\"}"));
    assert!(fraction_runs_ok(&format!("0.{}", "7".repeat(32768))));
    assert!(!fraction_runs_ok(&format!("0.{}", "7".repeat(32769))));
}

#[test]
fn fraction_run_screen_tracks_string_literals() {
    assert!(fraction_runs_ok(&"7".repeat(40000)));
    assert!(fraction_runs_ok(&format!("\".{}\"", "7".repeat(40000))));
    assert!(fraction_runs_ok(&format!("\"\\\".{}\"", "7".repeat(40000))));
    assert!(!fraction_runs_ok(&format!("\"x\".{}", "7".repeat(40000))));
}

#[test]
fn fraction_run_at_bound_still_parses() {
    let body = format!("{{\"err\":\"X\",\"n\":0.{}}}", "0".repeat(32767));
    let t = Toonify::new(Some(body));
    assert_eq!(t.image(), Err(ToonifyError::Error("X".to_string())));
}

#[test]
fn overlong_fraction_run_is_unparseable() {
    let body = format!("{{\"err\":\"X\",\"n\":0.{}}}", "0".repeat(40000));
    let t = Toonify::new(Some(body));
    assert_eq!(t.image(), Err(ToonifyError::Null("null".to_string())));
    assert_eq!(t.id(), Err(ToonifyError::Null("null".to_string())));
}

#[test]
fn long_digit_run_in_string_value_still_parses() {
    let body = format!("{{\"err\":\"X\",\"id\":\"{}\"}}", "7".repeat(33000));
    let t = Toonify::new(Some(body));
    assert_eq!(t.image(), Err(ToonifyError::Error("X".to_string())));
    let digits = "7".repeat(33000);
    let u = Toonify::new(Some(format!("{{\"id\":\"{}\"}}", digits)));
    assert_eq!(u.id(), Ok(digits));
}

#[test]
fn long_integer_runs_are_left_to_the_parser() {
    let small = Toonify::new(Some(format!("{{\"err\":\"X\",\"n\":{}}}", "9".repeat(100))));
    assert_eq!(small.image(), Err(ToonifyError::Error("X".to_string())));
    let big = Toonify::new(Some(format!("{{\"err\":\"X\",\"n\":{}}}", "9".repeat(40000))));
    assert_eq!(big.image(), Err(ToonifyError::Null("null".to_string())));
}
