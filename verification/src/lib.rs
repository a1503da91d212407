//! Client-side logic for a remote image-transformation service.
//!
//! A photo is submitted either by locator or by uploading a local file; the
//! service answers with a flat JSON object. The types here build the request
//! descriptors and interpret the stored response text, exposing the computed
//! output locator or identifier through the `image` and `id` accessors.

pub mod error;
pub mod request;
pub mod response;
pub mod toonify;
pub mod toonify_file;

pub use crate::error::ToonifyError;
pub use crate::toonify::Toonify;
pub use crate::toonify::ToonifyInternal;
pub use crate::toonify_file::ToonifyFile;
pub use crate::toonify_file::ToonifyFileInternal;
