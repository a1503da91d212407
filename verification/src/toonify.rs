use vstd::prelude::*;
use crate::error::ToonifyError;
use crate::request::spec_image_field;
use crate::response::spec_body_error;
use crate::response::spec_body_field;
use crate::response::spec_outcome;
use crate::response::text_error;
use crate::response::text_field;

verus! {

/// The outcome of one exchange made by locator: the body text read from the
/// service, or nothing where the call or the body read failed.
pub struct Toonify {
    response: Option<String>,
}

/// The request descriptor for a submission by locator: the caller's
/// credential and the form fields to post.
pub struct ToonifyInternal {
    pub api_key: String,
    pub params: Vec<(String, String)>,
}

impl View for Toonify {
    type V = Option<Seq<char>>;

    closed spec fn view(&self) -> Option<Seq<char>> {
        self.response.deep_view()
    }
}

impl Toonify {
    /// `response` Body text of the exchange already performed, or `None`
    /// where no response was obtained.
    pub fn new(response: Option<String>) -> (r: Self)
        ensures
            r@ == response.deep_view(),
    {
        Self { response }
    }

    fn is_error(&self) -> (r: Option<String>)
        ensures
            r.deep_view() == spec_body_error(self@),
    {
        match &self.response {
            Some(response) => text_error(response.as_str()),
            None => None,
        }
    }

    fn json(&self, key: &str) -> (r: Option<String>)
        ensures
            r.deep_view() == spec_body_field(self@, key@),
    {
        match &self.response {
            Some(response) => text_field(response.as_str(), key),
            None => None,
        }
    }

    /// Return image URI.
    pub fn image(&self) -> (r: Result<String, ToonifyError>)
        ensures
            spec_outcome(spec_body_error(self@), spec_body_field(self@, "output_url"@), r),
    {
        match self.is_error() {
            Some(error) => Err(ToonifyError::Error(error)),
            None => match self.json("output_url") {
                Some(image) => Ok(image),
                None => Err(ToonifyError::Null("null".to_owned())),
            },
        }
    }

    /// Return image id.
    pub fn id(&self) -> (r: Result<String, ToonifyError>)
        ensures
            spec_outcome(spec_body_error(self@), spec_body_field(self@, "id"@), r),
    {
        match self.is_error() {
            Some(error) => Err(ToonifyError::Error(error)),
            None => match self.json("id") {
                Some(id) => Ok(id),
                None => Err(ToonifyError::Null("null".to_owned())),
            },
        }
    }
}

impl ToonifyInternal {
    /// `image_uri` Image URI.
    ///
    /// `api_key` Credential for the service.
    pub fn new(image_uri: &str, api_key: &str) -> (r: Self)
        ensures
            r.api_key@ == api_key@,
            r.params@.len() == 1,
            r.params@[0].0@ == spec_image_field(),
            r.params@[0].1@ == image_uri@,
    {
        let mut params: Vec<(String, String)> = Vec::new();
        params.push((crate::request::image_field(), image_uri.to_owned()));
        Self { api_key: api_key.to_owned(), params }
    }
}

} // verus!
