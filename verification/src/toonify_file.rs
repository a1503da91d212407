use vstd::prelude::*;
use crate::error::ToonifyError;
use crate::response::spec_body_error;
use crate::response::spec_body_field;
use crate::response::spec_outcome;
use crate::response::text_error;
use crate::response::text_field;

verus! {

/// The outcome of one exchange made by file upload: the body text read from
/// the service, or the stored failure marker. A missing local file keeps its
/// reported text as the marker; every other failure leaves the marker empty.
pub struct ToonifyFile {
    response: Result<String, String>,
}

/// The request descriptor for a submission by file upload: the caller's
/// credential and the path of the file to attach.
pub struct ToonifyFileInternal {
    pub api_key: String,
    pub image_file: String,
}

impl View for ToonifyFile {
    type V = Result<Seq<char>, Seq<char>>;

    closed spec fn view(&self) -> Result<Seq<char>, Seq<char>> {
        match self.response {
            Ok(ref s) => Ok(s@),
            Err(ref e) => Err(e@),
        }
    }
}

/// The failure one stored state reports: a non-empty failure marker stands
/// as it is; a body is read by the precedence rule.
pub open spec fn spec_stored_error(stored: Result<Seq<char>, Seq<char>>) -> Option<Seq<char>> {
    match stored {
        Ok(s) => spec_body_error(Some(s)),
        Err(e) => if e.len() == 0 {
            None
        } else {
            Some(e)
        },
    }
}

/// The text one stored state holds under a key: nothing where no body was
/// obtained.
pub open spec fn spec_stored_field(stored: Result<Seq<char>, Seq<char>>, key: Seq<char>) -> Option<
    Seq<char>,
> {
    match stored {
        Ok(s) => spec_body_field(Some(s), key),
        Err(_) => None,
    }
}

impl ToonifyFile {
    /// `response` Body text of the exchange already performed, or the stored
    /// failure marker where no body was obtained.
    pub fn new(response: Result<String, String>) -> (r: Self)
        ensures
            r@ == (match response {
                Ok(ref s) => Ok::<Seq<char>, Seq<char>>(s@),
                Err(ref e) => Err::<Seq<char>, Seq<char>>(e@),
            }),
    {
        Self { response }
    }

    fn is_error(&self) -> (r: Option<String>)
        ensures
            r.deep_view() == spec_stored_error(self@),
    {
        match &self.response {
            Ok(response) => text_error(response.as_str()),
            Err(err) => if err.as_str().is_empty() {
                None
            } else {
                Some(err.clone())
            },
        }
    }

    fn json(&self, key: &str) -> (r: Option<String>)
        ensures
            r.deep_view() == spec_stored_field(self@, key@),
    {
        match &self.response {
            Ok(response) => text_field(response.as_str(), key),
            Err(_) => None,
        }
    }

    /// Return image URI.
    pub fn image(&self) -> (r: Result<String, ToonifyError>)
        ensures
            spec_outcome(spec_stored_error(self@), spec_stored_field(self@, "output_url"@), r),
    {
        match self.is_error() {
            Some(error) => Err(ToonifyError::Error(error)),
            None => match self.json("output_url") {
                Some(image) => Ok(image),
                None => Err(ToonifyError::Null("null".to_owned())),
            },
        }
    }

    /// Return image id.
    pub fn id(&self) -> (r: Result<String, ToonifyError>)
        ensures
            spec_outcome(spec_stored_error(self@), spec_stored_field(self@, "id"@), r),
    {
        match self.is_error() {
            Some(error) => Err(ToonifyError::Error(error)),
            None => match self.json("id") {
                Some(id) => Ok(id),
                None => Err(ToonifyError::Null("null".to_owned())),
            },
        }
    }
}

impl ToonifyFileInternal {
    /// `image_file` Path of the image file to attach.
    ///
    /// `api_key` Credential for the service.
    pub fn new(image_file: &str, api_key: &str) -> (r: Self)
        ensures
            r.api_key@ == api_key@,
            r.image_file@ == image_file@,
    {
        Self { api_key: api_key.to_owned(), image_file: image_file.to_owned() }
    }
}

/// A preserved local failure text — a missing file's report — surfaces
/// verbatim as the service failure of every accessor, bypassing the body.
pub proof fn lemma_marker_surfaces(e: Seq<char>, key: Seq<char>, r: Result<String, ToonifyError>)
    requires
        e.len() > 0,
        spec_outcome(
            spec_stored_error(Err(e)),
            spec_stored_field(Err(e), key),
            r,
        ),
    ensures
        r matches Err(ToonifyError::Error(m)) && m@ == e,
{
}

/// An empty failure marker reports nothing: every accessor falls through to
/// the null marker, as for a missing body.
pub proof fn lemma_empty_marker_yields_null(key: Seq<char>, r: Result<String, ToonifyError>)
    requires
        spec_outcome(
            spec_stored_error(Err(Seq::<char>::empty())),
            spec_stored_field(Err(Seq::<char>::empty()), key),
            r,
        ),
    ensures
        r matches Err(ToonifyError::Null(m)) && m@ == "null"@,
{
}

/// The failure marker stored for a local file that could not be attached:
/// only a missing file keeps its reported text; every other local or
/// transport failure leaves the marker empty.
pub fn local_failure(not_found: bool, message: &str) -> (r: String)
    ensures
        not_found ==> r@ == message@,
        !not_found ==> r@ == Seq::<char>::empty(),
{
    if not_found {
        message.to_owned()
    } else {
        String::new()
    }
}

} // verus!
