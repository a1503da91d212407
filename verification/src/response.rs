use vstd::prelude::*;
use vstd::std_specs::iter::IteratorSpec;
use crate::error::ToonifyError;

verus! {

/// Declares `json::JsonValue`, the parsed value of the `json` crate, so that
/// the wrappers below can pass one through; what it holds is read only
/// through `json_fields`.
#[verifier::external_type_specification]
#[verifier::external_body]
pub struct ExJsonValue(json::JsonValue);

/// The top-level fields of a parsed value: for an object, a map from each key
/// to the display text of the value under it; the empty map for any other
/// kind of value.
pub uninterp spec fn json_fields(v: json::JsonValue) -> Map<Seq<char>, Seq<char>>;

/// The top-level fields that parsing a text yields, or nothing where the
/// text is not well-formed.
pub uninterp spec fn parsed_fields(s: Seq<char>) -> Option<Map<Seq<char>, Seq<char>>>;

/// The longest run of digits the parser's fraction scanner may read at
/// once: it counts one step per fraction digit over the range of a 16-bit
/// integer, so longer runs are kept away from it.
pub const FRACTION_RUN_LIMIT: usize = 32768;

/// A decimal digit, as the number scanner reads them.
pub open spec fn spec_digit(c: char) -> bool {
    0x30 <= c as u32 && c as u32 <= 0x39
}

/// Which side of a string literal a position of the text lies on.
#[derive(PartialEq, Eq, Structural, Clone, Copy, Debug)]
pub enum LexState {
    /// Outside every string literal.
    Outside,
    /// Inside a string literal.
    InString,
    /// Inside a string literal, right after a backslash.
    Escaped,
}

/// The string-literal state after reading `j` characters of the text, as
/// the parser reads them: a quote opens a literal, an unescaped quote
/// closes it, and a backslash escapes the character after it.
pub open spec fn lex_state_at(s: Seq<char>, j: int) -> LexState
    decreases j,
{
    if j <= 0 {
        LexState::Outside
    } else {
        let c = s[j - 1];
        match lex_state_at(s, j - 1) {
            LexState::Outside => if c == '"' {
                LexState::InString
            } else {
                LexState::Outside
            },
            LexState::InString => if c == '\\' {
                LexState::Escaped
            } else if c == '"' {
                LexState::Outside
            } else {
                LexState::InString
            },
            LexState::Escaped => LexState::InString,
        }
    }
}

/// The length of the digit run that follows the latest unquoted decimal
/// point, after reading `j` characters: a decimal point read outside a
/// string literal opens a run of length zero, each digit extends the open
/// run, and any other character closes it (a negative length).
pub open spec fn fraction_run_at(s: Seq<char>, j: int) -> int
    decreases j,
{
    if j <= 0 {
        -1
    } else {
        let c = s[j - 1];
        if lex_state_at(s, j - 1) == LexState::Outside && c == '.' {
            0
        } else if fraction_run_at(s, j - 1) >= 0 && spec_digit(c) {
            fraction_run_at(s, j - 1) + 1
        } else {
            -1
        }
    }
}

/// No unquoted decimal point in the text is followed by more digits than
/// the fraction scanner's exponent range admits. Digit runs inside string
/// literals, and runs that follow no decimal point, never reach that
/// scanner and are not constrained.
pub open spec fn fraction_runs_bounded(s: Seq<char>) -> bool {
    forall|j: int| 0 <= j <= s.len() ==> fraction_run_at(s, j) <= FRACTION_RUN_LIMIT
}

/// Whether a body text stays inside the fraction scanner's digit-run
/// bound: the screen that `text_error` and `text_field` apply before
/// parsing. A text it refuses never parses anyway: an unquoted decimal
/// point can stand only in number position, where so long a run drives
/// the scanner out of range.
pub fn fraction_runs_ok(text: &str) -> (r: bool)
    ensures
        r == fraction_runs_bounded(text@),
{
    let mut it = text.chars();
    let ghost mut i: int = 0;
    let mut lex: LexState = LexState::Outside;
    let mut run: i64 = -1;
    loop
        invariant
            0 <= i <= text@.len(),
            it.remaining() =~= text@.skip(i),
            lex == lex_state_at(text@, i),
            run as int == fraction_run_at(text@, i),
            run <= FRACTION_RUN_LIMIT as i64,
            forall|j: int| 0 <= j <= i ==> fraction_run_at(text@, j) <= FRACTION_RUN_LIMIT,
        decreases text@.len() - i,
    {
        match it.next() {
            Some(c) => {
                proof {
                    assert(c == text@[i]);
                }
                let is_digit: bool = {
                    let u: u32 = c as u32;
                    0x30 <= u && u <= 0x39
                };
                let new_run: i64 = if lex == LexState::Outside && c == '.' {
                    0
                } else if run >= 0 && is_digit {
                    run + 1
                } else {
                    -1
                };
                proof {
                    assert(fraction_run_at(text@, i + 1) == new_run as int);
                }
                if new_run > FRACTION_RUN_LIMIT as i64 {
                    return false;
                }
                lex = if lex == LexState::Outside {
                    if c == '"' {
                        LexState::InString
                    } else {
                        LexState::Outside
                    }
                } else if lex == LexState::Escaped {
                    LexState::InString
                } else {
                    if c == '\\' {
                        LexState::Escaped
                    } else if c == '"' {
                        LexState::Outside
                    } else {
                        LexState::InString
                    }
                };
                run = new_run;
                proof {
                    assert(text@.skip(i).drop_first() =~= text@.skip(i + 1));
                    assert(lex == lex_state_at(text@, i + 1));
                    i = i + 1;
                }
            },
            None => {
                return true;
            },
        }
    }
}

/// The fields one stored body yields: nothing where the text falls outside
/// the fraction scanner's digit-run bound, or does not parse.
pub open spec fn spec_parsed_body(s: Seq<char>) -> Option<Map<Seq<char>, Seq<char>>> {
    if fraction_runs_bounded(s) {
        parsed_fields(s)
    } else {
        None
    }
}

/// Relies on `json::parse`: whether a text parses, and the fields of the
/// value it yields, depend on the text alone. Only texts within the
/// fraction-run bound are admitted: inside it the fraction scanner's
/// exponent arithmetic stays in range, and the parser returns on every
/// input (its nesting is capped, and every other count it keeps is
/// checked or saturating).
#[verifier::external_body]
fn parse_json(s: &str) -> (r: Option<json::JsonValue>)
    requires
        fraction_runs_bounded(s@),
    ensures
        r is Some <==> parsed_fields(s@) is Some,
        r matches Some(v) ==> parsed_fields(s@) == Some(json_fields(v)),
{
    json::parse(s).ok()
}

/// Relies on `json::JsonValue::has_key`: true exactly when the value is an
/// object holding the key.
#[verifier::external_body]
fn has_field(v: &json::JsonValue, key: &str) -> (r: bool)
    ensures
        r == json_fields(*v).contains_key(key@),
{
    v.has_key(key)
}

/// Relies on `Index<&str>` and `Display` for `json::JsonValue`: the display
/// text of the field under the key.
#[verifier::external_body]
fn field_text(v: &json::JsonValue, key: &str) -> (r: String)
    requires
        json_fields(*v).contains_key(key@),
    ensures
        r@ == json_fields(*v)[key@],
{
    v[key].to_string()
}

/// The failure a parsed response reports: the `err` field takes precedence,
/// the `status` field stands in where `err` is absent.
pub open spec fn spec_error_field(fields: Map<Seq<char>, Seq<char>>) -> Option<Seq<char>> {
    if fields.contains_key("err"@) {
        Some(fields["err"@])
    } else if fields.contains_key("status"@) {
        Some(fields["status"@])
    } else {
        None
    }
}

/// The failure a stored body reports: nothing where the body is missing,
/// does not parse, or parses without an error field.
pub open spec fn spec_body_error(body: Option<Seq<char>>) -> Option<Seq<char>> {
    match body {
        Some(s) => match spec_parsed_body(s) {
            Some(fields) => spec_error_field(fields),
            None => None,
        },
        None => None,
    }
}

/// The text a stored body holds under a key: nothing where the body is
/// missing, does not parse, or lacks the key.
pub open spec fn spec_body_field(body: Option<Seq<char>>, key: Seq<char>) -> Option<Seq<char>> {
    match body {
        Some(s) => match spec_parsed_body(s) {
            Some(fields) => if fields.contains_key(key) {
                Some(fields[key])
            } else {
                None
            },
            None => None,
        },
        None => None,
    }
}

/// What an accessor hands back, given the failure and the field it derived
/// from the stored state: the reported failure first, else the field's text,
/// else the null marker.
pub open spec fn spec_outcome(
    err: Option<Seq<char>>,
    field: Option<Seq<char>>,
    r: Result<String, ToonifyError>,
) -> bool {
    match err {
        Some(msg) => r matches Err(ToonifyError::Error(m)) && m@ == msg,
        None => match field {
            Some(text) => r matches Ok(s) && s@ == text,
            None => r matches Err(ToonifyError::Null(m)) && m@ == "null"@,
        },
    }
}

/// Two accessor results carry the same outcome: the same variant with the
/// same text.
pub open spec fn same_outcome(
    r1: Result<String, ToonifyError>,
    r2: Result<String, ToonifyError>,
) -> bool {
    match (r1, r2) {
        (Ok(a), Ok(b)) => a@ == b@,
        (Err(ToonifyError::Error(a)), Err(ToonifyError::Error(b))) => a@ == b@,
        (Err(ToonifyError::Null(a)), Err(ToonifyError::Null(b))) => a@ == b@,
        _ => false,
    }
}

/// Accessor outcomes are pure projections of the stored state: the outcome
/// relation admits one outcome per stored failure, field and key, so any two
/// results it admits — in particular those of repeated calls on the same
/// object — agree.
pub proof fn lemma_outcome_deterministic(
    err: Option<Seq<char>>,
    field: Option<Seq<char>>,
    r1: Result<String, ToonifyError>,
    r2: Result<String, ToonifyError>,
)
    requires
        spec_outcome(err, field, r1),
        spec_outcome(err, field, r2),
    ensures
        same_outcome(r1, r2),
{
}

/// A body whose parsed fields hold `err` makes every accessor report that
/// text as the service failure, whatever field was asked for.
pub proof fn lemma_err_field_dominates(
    s: Seq<char>,
    fields: Map<Seq<char>, Seq<char>>,
    field: Option<Seq<char>>,
    r: Result<String, ToonifyError>,
)
    requires
        spec_parsed_body(s) == Some(fields),
        fields.contains_key("err"@),
        spec_outcome(spec_body_error(Some(s)), field, r),
    ensures
        r matches Err(ToonifyError::Error(m)) && m@ == fields["err"@],
{
}

/// A body whose parsed fields hold `status` but no `err` makes every
/// accessor report the `status` text as the service failure.
pub proof fn lemma_status_field_reported(
    s: Seq<char>,
    fields: Map<Seq<char>, Seq<char>>,
    field: Option<Seq<char>>,
    r: Result<String, ToonifyError>,
)
    requires
        spec_parsed_body(s) == Some(fields),
        !fields.contains_key("err"@),
        fields.contains_key("status"@),
        spec_outcome(spec_body_error(Some(s)), field, r),
    ensures
        r matches Err(ToonifyError::Error(m)) && m@ == fields["status"@],
{
}

/// A body without error fields hands back exactly the requested field: its
/// text where the key is present, the null marker where it is absent.
pub proof fn lemma_clean_body_projects(
    s: Seq<char>,
    fields: Map<Seq<char>, Seq<char>>,
    key: Seq<char>,
    r: Result<String, ToonifyError>,
)
    requires
        spec_parsed_body(s) == Some(fields),
        !fields.contains_key("err"@),
        !fields.contains_key("status"@),
        spec_outcome(spec_body_error(Some(s)), spec_body_field(Some(s), key), r),
    ensures
        fields.contains_key(key) ==> (r matches Ok(t) && t@ == fields[key]),
        !fields.contains_key(key) ==> (r matches Err(ToonifyError::Null(m)) && m@ == "null"@),
{
}

/// A body that yields no fields — missing, unparseable, or outside the
/// fraction-run bound — synthesizes no failure: every accessor falls through
/// to the null marker.
pub proof fn lemma_no_body_yields_null(
    body: Option<Seq<char>>,
    key: Seq<char>,
    r: Result<String, ToonifyError>,
)
    requires
        body matches Some(s) ==> spec_parsed_body(s) is None,
        spec_outcome(spec_body_error(body), spec_body_field(body, key), r),
    ensures
        r matches Err(ToonifyError::Null(m)) && m@ == "null"@,
{
}

/// The failure reported inside one body text, by the precedence rule.
pub fn text_error(text: &str) -> (r: Option<String>)
    ensures
        r.deep_view() == spec_body_error(Some(text@)),
{
    if !fraction_runs_ok(text) {
        return None;
    }
    match parse_json(text) {
        Some(v) => if has_field(&v, "err") {
            Some(field_text(&v, "err"))
        } else if has_field(&v, "status") {
            Some(field_text(&v, "status"))
        } else {
            None
        },
        None => None,
    }
}

/// The text one body holds under a key.
pub fn text_field(text: &str, key: &str) -> (r: Option<String>)
    ensures
        r.deep_view() == spec_body_field(Some(text@), key@),
{
    if !fraction_runs_ok(text) {
        return None;
    }
    match parse_json(text) {
        Some(v) => if has_field(&v, key) {
            Some(field_text(&v, key))
        } else {
            None
        },
        None => None,
    }
}

} // verus!
