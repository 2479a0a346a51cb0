//! The query string of the requests that read beacons.

use vstd::prelude::*;

verus! {

/// The query parameters of a beacon read.
#[derive(Copy, Clone, Debug)]
pub struct GetParams {
    /// Whether to join the map each beacon is on.
    pub prefetch: Option<bool>,
}

impl GetParams {
    /// Whether to join the maps; not by default.
    pub fn prefetch(&self) -> (r: bool)
        ensures
            r == match self.prefetch {
                Some(b) => b,
                None => false,
            },
    {
        match self.prefetch {
            Some(b) => b,
            None => false,
        }
    }
}

} // verus!
