//! Records of the responses, as the API returns them.
use vstd::prelude::*;

pub mod channel;
pub mod game;
pub mod image;
pub mod root;
pub mod stream;

verus! {

/// A text holding a URL.
pub type UrlString = String;

/// A text holding an ISO 8601 date.
pub type DateString = String;

/// A text holding an ISO 639-1 language code.
pub type LocaleString = String;

} // verus!
