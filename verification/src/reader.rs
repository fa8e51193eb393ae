//! The lag-reporting capability an autoscaler polls.

use vstd::prelude::*;

use crate::error::Error;

verus! {

/// The lag-reporting capability: how many records are pending at the source.
pub trait LagReader: Sized {
    /// The backlog count, if the source has one. `Ok(None)` means the lag is
    /// not knowable or not applicable — the caller must skip the cycle's
    /// scaling decision, never treat it as zero. `Err` is transient.
    fn pending(&mut self) -> Result<Option<usize>, Error>;
}

} // verus!
