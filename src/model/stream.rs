//! Streams: live broadcasts of channels.
use vstd::prelude::*;

verus! {

/// A summary of the current streams.
#[derive(Debug, Clone)]
pub struct StreamsSummary {
    pub viewers: u32,
    pub channels: u32,
}

impl StreamsSummary {
    /// The number of viewers.
    pub fn viewers(&self) -> (r: u32)
        ensures
            r == self.viewers,
    {
        self.viewers
    }

    /// The number of live channels.
    pub fn channels(&self) -> (r: u32)
        ensures
            r == self.channels,
    {
        self.channels
    }


}

} // verus!
