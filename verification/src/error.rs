//! Failures a source capability can surface.

use vstd::prelude::*;

verus! {

/// Failure of a source capability call. The synthetic generator never
/// produces one; broker-backed sources surface transient failures through
/// these variants so the driver can retry or skip a cycle.
#[derive(Debug, Clone, PartialEq)]
pub enum Error {
    /// The backing stream failed or ended while reading.
    Source(String),
    /// An acknowledgement could not be recorded.
    Ack(String),
    /// The backlog count could not be determined this cycle.
    Lag(String),
}

} // verus!
