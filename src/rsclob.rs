//! Slot for the venue's official client as a second backend.
use vstd::prelude::*;

verus! {

/// Handle of the official-client backend, which this library does not
/// carry.
pub struct RsClobClient {
    _private: (),
}

impl RsClobClient {
    /// A handle.
    pub fn new() -> (r: Self) {
        RsClobClient { _private: () }
    }

    /// Whether the official-client backend is built in; it is not.
    pub fn is_available() -> (r: bool)
        ensures
            !r,
    {
        false
    }
}

impl Default for RsClobClient {
    fn default() -> (r: Self) {
        Self::new()
    }
}

} // verus!
