use toonify::ToonifyError;
use toonify::ToonifyFile;
use toonify::ToonifyFileInternal;
use toonify::toonify_file::local_failure;

#[test]
fn file_err_field_reported_by_both_accessors() {
    let t = ToonifyFile::new(Ok("{\"err\":\"X\"}".to_string()));
    assert_eq!(t.image(), Err(ToonifyError::Error("X".to_string())));
    assert_eq!(t.id(), Err(ToonifyError::Error("X".to_string())));
}

#[test]
fn file_status_field_reported_when_err_absent() {
    let t = ToonifyFile::new(Ok("{\"status\":\"Y\"}".to_string()));
    assert_eq!(t.image(), Err(ToonifyError::Error("Y".to_string())));
    assert_eq!(t.id(), Err(ToonifyError::Error("Y".to_string())));
}

#[test]
fn file_output_url_extracted_and_id_null() {
    let t = ToonifyFile::new(Ok("{\"output_url\":\"http://x\"}".to_string()));
    assert_eq!(t.image(), Ok("http://x".to_string()));
    assert_eq!(t.id(), Err(ToonifyError::Null("null".to_string())));
}

#[test]
fn file_id_extracted_and_image_null() {
    let t = ToonifyFile::new(Ok("{\"id\":\"42\"}".to_string()));
    assert_eq!(t.id(), Ok("42".to_string()));
    assert_eq!(t.image(), Err(ToonifyError::Null("null".to_string())));
}

#[test]
fn file_unparseable_body_yields_null() {
    let t = ToonifyFile::new(Ok("not json".to_string()));
    assert_eq!(t.image(), Err(ToonifyError::Null("null".to_string())));
    assert_eq!(t.id(), Err(ToonifyError::Null("null".to_string())));
}

#[test]
fn empty_marker_yields_null() {
    let t = ToonifyFile::new(Err(String::new()));
    assert_eq!(t.image(), Err(ToonifyError::Null("null".to_string())));
    assert_eq!(t.id(), Err(ToonifyError::Null("null".to_string())));
}

#[test]
fn missing_file_text_surfaces_verbatim() {
    let text = "No such file or directory (os error 2)";
    let t = ToonifyFile::new(Err(text.to_string()));
    assert_eq!(t.image(), Err(ToonifyError::Error(text.to_string())));
    assert_eq!(t.id(), Err(ToonifyError::Error(text.to_string())));
}

#[test]
fn file_repeated_calls_agree() {
    let t = ToonifyFile::new(Ok("{\"id\":\"42\"}".to_string()));
    assert_eq!(t.image(), t.image());
    assert_eq!(t.id(), t.id());
    let u = ToonifyFile::new(Err("gone".to_string()));
    assert_eq!(u.image(), u.image());
    assert_eq!(u.id(), u.id());
}

#[test]
fn descriptor_holds_credential_and_path() {
    let d = ToonifyFileInternal::new("photo.png", "k");
    assert_eq!(d.api_key, "k".to_string());
    assert_eq!(d.image_file, "photo.png".to_string());
}

#[test]
fn only_missing_file_keeps_its_text() {
    assert_eq!(local_failure(true, "No such file or directory (os error 2)"),
        "No such file or directory (os error 2)".to_string());
    assert_eq!(local_failure(false, "permission denied"), String::new());
}
