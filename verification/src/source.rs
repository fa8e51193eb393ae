//! The read and acknowledge capabilities a concrete source implements.

use vstd::prelude::*;

use crate::error::Error;
use crate::message::Message;
use crate::message::Offset;

verus! {

/// The reading capability: pulls bounded batches of messages.
///
/// The driver samples its monotonic clock (in milliseconds) before each call
/// and passes the reading in; `read` decides from state and clock alone, so
/// suspension is the driver's job: `Ok(None)` means the quota of the current
/// window is exhausted and the driver must park until the next boundary.
pub trait SourceReader: Sized {
    /// Well-formedness the reader establishes at construction and keeps.
    spec fn inv(&self) -> bool;

    /// Is `now` an admissible clock sample: the clock must not have run
    /// backward past the state's current window.
    spec fn clock_fits(&self, now: u64) -> bool;

    /// Static identifier of the source kind.
    fn name(&self) -> &'static str;

    /// Pull the next batch of messages at clock reading `now`. A source
    /// whose stream ends returns `Err` — an unbounded live stream is
    /// assumed, so the driver treats that as fatal, never as an empty batch.
    fn read(&mut self, now: u64) -> (r: Result<Option<Vec<Message>>, Error>)
        requires
            old(self).inv(),
            old(self).clock_fits(now),
        ensures
            final(self).inv(),
            forall|later: u64| now <= later ==> final(self).clock_fits(later),
    ;

    /// The partition indices this instance serves.
    fn partitions(&self) -> Vec<u16>;
}

/// The acknowledging capability: confirms offsets fully processed.
///
/// Acks must be idempotent and commutative: duplicate or already-seen
/// offsets must not corrupt state.
pub trait SourceAcker: Sized {
    /// Confirm the given offsets processed. Transient failures are
    /// retryable.
    fn ack(&mut self, offsets: Vec<Offset>) -> Result<(), Error>;
}

} // verus!
