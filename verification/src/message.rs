//! The record identity model: messages, offsets and message ids.

use vstd::prelude::*;

use crate::decimal::decimal_of;
use crate::decimal::u64_to_decimal;

verus! {

/// A string offset: the record's identity string plus the partition it was
/// read from. For a synthetic source the identity strings within a partition
/// need not be ordered; broker-backed sources must emit them non-decreasing.
#[derive(Debug, Clone, PartialEq)]
pub struct StringOffset {
    /// The record's identity within the partition.
    pub value: String,
    /// The partition the record belongs to.
    pub partition: u16,
}

impl StringOffset {
    pub fn new(value: String, partition: u16) -> (r: Self)
        ensures
            r.value == value,
            r.partition == partition,
    {
        StringOffset { value, partition }
    }
}

/// A record's position at its source. The variant a generative source uses
/// is the string offset.
#[derive(Debug, Clone, PartialEq)]
pub enum Offset {
    /// An offset carried as a string identity.
    Str(StringOffset),
}

impl Offset {
    /// The stable string encoding of the offset: `<value>-<partition>`.
    pub open spec fn encoding(self) -> Seq<char> {
        match self {
            Offset::Str(so) => so.value@ + seq!['-'] + decimal_of(so.partition as nat),
        }
    }

    /// Render the offset's string encoding.
    pub fn encode(&self) -> (r: String)
        ensures
            r@ == self.encoding(),
    {
        match self {
            Offset::Str(so) => {
                let mut s = so.value.clone();
                s.append("-");
                s.append(u64_to_decimal(so.partition as u64).as_str());
                proof {
                    reveal_strlit("-");
                    assert(s@ =~= so.value@ + seq!['-'] + decimal_of(so.partition as nat));
                }
                s
            },
        }
    }
}

/// The downstream deduplication identity of one message: unique within a
/// pipeline run on a best-effort basis.
#[derive(Debug, Clone, PartialEq)]
pub struct MessageID {
    /// Name of the pipeline stage that produced the message.
    pub vertex_name: String,
    /// The string encoding of the message's offset.
    pub offset: String,
    /// Slot index of the message within its batch.
    pub index: i32,
}

/// One unit of data moving through the pipeline. Created once per delivered
/// payload and immutable afterwards.
#[derive(Debug, Clone, PartialEq)]
pub struct Message {
    /// Routing keys for the pipeline.
    pub keys: Vec<String>,
    /// The byte payload.
    pub value: Vec<u8>,
    /// Position of the record at its source, if it has one.
    pub offset: Option<Offset>,
    /// Event time in milliseconds since the Unix epoch; 0 when unknown.
    pub event_time: i64,
    /// Deduplication identity.
    pub id: MessageID,
    /// Header mapping, as key/value pairs; insertion order carries no meaning.
    pub headers: Vec<(String, String)>,
}

} // verus!
