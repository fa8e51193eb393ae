//! The generator source: a self-contained source producing copies of a fixed
//! payload under the scheduler's rate limit, together with its no-op
//! acknowledger and its "lag unknown" lag reader.

use vstd::math::min;
use vstd::prelude::*;

use crate::clock::now_timestamp_nanos;
use crate::decimal::decimal_of_int;
use crate::decimal::i64_to_decimal;
use crate::error::Error;
use crate::message::Message;
use crate::message::MessageID;
use crate::message::Offset;
use crate::message::StringOffset;
use crate::payload::byte_content;
use crate::payload::payload_to_vec;
use crate::reader::LagReader;
use crate::scheduler::boundary_step;
use crate::scheduler::mid_window_step;
use crate::scheduler::parked_step;
use crate::scheduler::same_config;
use crate::scheduler::StreamGenerator;
use crate::source::SourceAcker;
use crate::source::SourceReader;

verus! {

/// What the generator promises of every message it emits: no routing keys,
/// the payload template as value, event time unset, no headers, the stage's
/// name as vertex, and an offset that pairs a decimal clock reading with the
/// replica index and is re-encoded into the message id.
pub open spec fn is_generated_message(
    m: Message,
    content: Seq<u8>,
    vertex: Seq<char>,
    replica: u16,
) -> bool {
    &&& m.keys@.len() == 0
    &&& m.value@ == content
    &&& m.event_time == 0
    &&& m.headers@.len() == 0
    &&& m.id.index == 0
    &&& m.id.vertex_name@ == vertex
    &&& m.offset matches Some(off) && off matches Offset::Str(so) && so.partition == replica && (
    exists|t: int| so.value@ == decimal_of_int(t)) && m.id.offset@ == off.encoding()
}

/// The reading capability of the generator source: wraps each payload the
/// scheduler delivers into a `Message` with a fresh identity.
pub struct GeneratorRead {
    /// The rate-limiting scheduler owned by this instance.
    pub stream_generator: StreamGenerator,
    /// Name of the pipeline stage, stamped into every message id.
    pub vertex_name: String,
    /// Replica index of this instance; doubles as its partition.
    pub replica: u16,
}

impl GeneratorRead {
    /// A new generator reader producing copies of `content`: at most `rpu`
    /// per window of `unit` milliseconds, at most `batch` per call.
    pub fn new(
        content: bytes::Bytes,
        rpu: usize,
        batch: usize,
        unit: u64,
        vertex_name: String,
        replica: u16,
    ) -> (r: Self)
        requires
            1 <= rpu,
            1 <= batch,
            10 <= unit,
        ensures
            r.inv(),
            r.stream_generator.content == content,
            r.stream_generator.rpu == rpu,
            r.stream_generator.batch == min(batch as int, rpu as int),
            r.stream_generator.used == 0,
            r.stream_generator.unit == unit,
            r.stream_generator.window_start == 0,
            r.vertex_name == vertex_name,
            r.replica == replica,
    {
        let stream_generator = StreamGenerator::new(content, rpu, batch, unit);
        GeneratorRead { stream_generator, vertex_name, replica }
    }
}

impl SourceReader for GeneratorRead {
    open spec fn inv(&self) -> bool {
        self.stream_generator.wf()
    }

    open spec fn clock_fits(&self, now: u64) -> bool {
        self.stream_generator.window_start <= now
    }

    fn name(&self) -> (r: &'static str)
        ensures
            r@ == "generator"@,
    {
        "generator"
    }

    /// One pull at clock reading `now`: the scheduler's outcome, with each
    /// delivered payload wrapped into a generated message. `Ok(None)` parks
    /// the driver; the generator's stream never ends, so `Err` never comes.
    fn read(&mut self, now: u64) -> (r: Result<Option<Vec<Message>>, Error>)
        ensures
            final(self).vertex_name == old(self).vertex_name,
            final(self).replica == old(self).replica,
            same_config(old(self).stream_generator, final(self).stream_generator),
            r is Ok,
            (r matches Ok(b) && b is Some) == (old(self).stream_generator.boundary_passed(now)
                || old(self).stream_generator.used < old(self).stream_generator.rpu),
            r matches Ok(Some(msgs)) ==> {
                &&& 1 <= msgs@.len()
                &&& if old(self).stream_generator.boundary_passed(now) {
                    boundary_step(
                        old(self).stream_generator,
                        final(self).stream_generator,
                        msgs@.len() as int,
                        now,
                    )
                } else {
                    mid_window_step(
                        old(self).stream_generator,
                        final(self).stream_generator,
                        msgs@.len() as int,
                    )
                }
                &&& forall|i: int|
                    0 <= i < msgs@.len() ==> is_generated_message(
                        #[trigger] msgs@[i],
                        byte_content(old(self).stream_generator.content),
                        old(self).vertex_name@,
                        old(self).replica,
                    )
            },
            r matches Ok(None) ==> parked_step(
                old(self).stream_generator,
                final(self).stream_generator,
            ),
    {
        match self.stream_generator.poll_next(now) {
            None => Ok(None),
            Some(data) => {
                let ghost g = *self;
                let ghost cbytes = byte_content(g.stream_generator.content);
                let mut msgs: Vec<Message> = Vec::new();
                let mut i: usize = 0;
                while i < data.len()
                    invariant
                        *self == g,
                        i <= data@.len(),
                        msgs@.len() == i,
                        forall|k: int|
                            0 <= k < data@.len() ==> byte_content(#[trigger] data@[k]) == cbytes,
                        forall|j: int|
                            0 <= j < i ==> is_generated_message(
                                #[trigger] msgs@[j],
                                cbytes,
                                g.vertex_name@,
                                g.replica,
                            ),
                    decreases data@.len() - i,
                {
                    let ts = now_timestamp_nanos();
                    let id_str = i64_to_decimal(ts);
                    let offset = Offset::Str(StringOffset::new(id_str, self.replica));
                    let offset_str = offset.encode();
                    let value = payload_to_vec(&data[i]);
                    let m = Message {
                        keys: Vec::new(),
                        value,
                        offset: Some(offset),
                        event_time: 0,
                        id: MessageID {
                            vertex_name: self.vertex_name.clone(),
                            offset: offset_str,
                            index: 0,
                        },
                        headers: Vec::new(),
                    };
                    proof {
                        let so = (m.offset->0)->0;
                        assert(so.value@ == decimal_of_int(ts as int));
                        assert(is_generated_message(m, cbytes, g.vertex_name@, g.replica));
                    }
                    msgs.push(m);
                    i = i + 1;
                }
                Ok(Some(msgs))
            },
        }
    }

    /// The partitions this instance serves: exactly its replica index.
    fn partitions(&self) -> (r: Vec<u16>)
        ensures
            r@ =~= seq![self.replica],
    {
        let mut v: Vec<u16> = Vec::new();
        v.push(self.replica);
        v
    }
}

/// The acknowledging capability of the generator source. The generator keeps
/// no redelivery state, so acknowledging is a pure no-op.
pub struct GeneratorAck {}

impl GeneratorAck {
    pub fn new() -> (r: Self)
    {
        GeneratorAck {  }
    }
}

impl SourceAcker for GeneratorAck {
    /// Always succeeds and changes nothing: empty, duplicate and never-seen
    /// offset sets are all acknowledged alike.
    fn ack(&mut self, offsets: Vec<Offset>) -> (r: Result<(), Error>)
        ensures
            r is Ok,
            *final(self) == *old(self),
    {
        Ok(())
    }
}

/// The lag-reporting capability of the generator source. A generator has no
/// meaningful backlog, so it reports the lag as unknowable — never as zero.
#[derive(Clone)]
pub struct GeneratorLagReader {}

impl GeneratorLagReader {
    pub fn new() -> (r: Self)
    {
        GeneratorLagReader {  }
    }
}

impl LagReader for GeneratorLagReader {
    /// Always succeeds, always with no value.
    fn pending(&mut self) -> (r: Result<Option<usize>, Error>)
        ensures
            r == Result::<Option<usize>, Error>::Ok(None),
    {
        Ok(None)
    }
}

/// A new generator source: the reader, acknowledger and lag reader a
/// pipeline stage composes. The load generated is per replica.
pub fn new_generator(
    content: bytes::Bytes,
    rpu: usize,
    batch: usize,
    unit: u64,
    vertex_name: String,
    replica: u16,
) -> (r: Result<(GeneratorRead, GeneratorAck, GeneratorLagReader), Error>)
    requires
        1 <= rpu,
        1 <= batch,
        10 <= unit,
    ensures
        r is Ok,
        r matches Ok(t) ==> {
            &&& t.0.inv()
            &&& t.0.stream_generator.content == content
            &&& t.0.stream_generator.rpu == rpu
            &&& t.0.stream_generator.batch == min(batch as int, rpu as int)
            &&& t.0.stream_generator.used == 0
            &&& t.0.stream_generator.unit == unit
            &&& t.0.stream_generator.window_start == 0
            &&& t.0.vertex_name == vertex_name
            &&& t.0.replica == replica
        },
{
    let gen_read = GeneratorRead::new(content, rpu, batch, unit, vertex_name, replica);
    let gen_ack = GeneratorAck::new();
    let gen_lag_reader = GeneratorLagReader::new();

    Ok((gen_read, gen_ack, gen_lag_reader))
}

} // verus!
