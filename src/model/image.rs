//! Image links used by other records.
use vstd::prelude::*;
use crate::model::UrlString;

verus! {

/// Links to one image in several sizes.
#[derive(Debug, Clone)]
pub struct ImageLinks {
    pub template: UrlString,
    pub small: UrlString,
    pub medium: UrlString,
    pub large: UrlString,
}

impl ImageLinks {
    /// The link with `{width}` and `{height}` placeholders.
    pub fn template(&self) -> (r: &UrlString)
        ensures
            *r == self.template,
    {
        &self.template
    }

    /// The small image.
    pub fn small(&self) -> (r: &UrlString)
        ensures
            *r == self.small,
    {
        &self.small
    }

    /// The medium image.
    pub fn medium(&self) -> (r: &UrlString)
        ensures
            *r == self.medium,
    {
        &self.medium
    }

    /// The large image.
    pub fn large(&self) -> (r: &UrlString)
        ensures
            *r == self.large,
    {
        &self.large
    }


}

} // verus!
