//! A rate-limited generator source for a streaming pipeline.
//!
//! The heart of the crate is a windowed quota scheduler: per fixed time
//! window it hands out at most `rpu` payload copies, in batches, without
//! letting quota from idle windows pile up into a burst. Around it sit the
//! record-identity model (messages, offsets, message ids), the capability
//! traits a pipeline source implements (read / ack / report lag), and the
//! inter-step buffer routing configuration consumed by downstream writers.

pub mod clock;
pub mod decimal;
pub mod error;
pub mod generator;
pub mod isb;
pub mod message;
pub mod payload;
pub mod reader;
pub mod scheduler;
pub mod source;
