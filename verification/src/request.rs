use vstd::prelude::*;

verus! {

/// The fixed address of the remote transformation endpoint.
pub open spec fn spec_endpoint() -> Seq<char> {
    "https://api.deepai.org/api/toonify"@
}

/// The name of the request header that carries the caller's credential.
pub open spec fn spec_auth_header() -> Seq<char> {
    "api-key"@
}

/// The name of the form field that carries the submitted image.
pub open spec fn spec_image_field() -> Seq<char> {
    "image"@
}

/// The endpoint address, as owned text for the transport layer.
pub fn endpoint() -> (r: String)
    ensures
        r@ == spec_endpoint(),
{
    "https://api.deepai.org/api/toonify".to_owned()
}

/// The credential header name, as owned text for the transport layer.
pub fn auth_header() -> (r: String)
    ensures
        r@ == spec_auth_header(),
{
    "api-key".to_owned()
}

/// The image field name, as owned text for the transport layer.
pub fn image_field() -> (r: String)
    ensures
        r@ == spec_image_field(),
{
    "image".to_owned()
}

} // verus!
