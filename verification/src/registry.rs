//! The stream registry: the durable mapping from stream id to the
//! immutable [`Stream`] terms and the mutable [`StreamData`] ledger state.
//!
//! Ids are assigned by a monotonically increasing counter, one per
//! successful creation, starting at 0; the two tables therefore stay dense
//! and are held as parallel vectors indexed by id. The registry's
//! operations are plain keyed accesses with no derived computation: they
//! are the only mutators of persisted stream state.

use vstd::prelude::*;

use crate::errors::Error;
use crate::stream::Stream;
use crate::stream::StreamData;

verus! {

/// The registry's abstract state: the terms and the ledger record of every
/// registered stream, indexed by id.
pub ghost struct RegistryView {
    pub streams: Seq<Stream>,
    pub datas: Seq<StreamData>,
}

impl RegistryView {
    /// The ledger invariant, holding after every committed transition:
    /// every stream has its ledger record, every stream's terms are
    /// well-formed, and no record shows more withdrawn than the stream's
    /// amount.
    pub open spec fn wf(self) -> bool {
        &&& self.datas.len() == self.streams.len()
        &&& forall|i: int| 0 <= i < self.streams.len() ==> (#[trigger] self.streams[i]).wf()
        &&& forall|i: int|
            0 <= i < self.streams.len() ==> (#[trigger] self.datas[i]).a_withdraw
                <= self.streams[i].amount
    }
}

/// The registry itself; see the module documentation.
pub struct StreamRegistry {
    streams: Vec<Stream>,
    datas: Vec<StreamData>,
}

impl View for StreamRegistry {
    type V = RegistryView;

    closed spec fn view(&self) -> RegistryView {
        RegistryView { streams: self.streams@, datas: self.datas@ }
    }
}

impl StreamRegistry {
    /// An empty registry: no stream registered, the next id is 0.
    pub fn new() -> (r: StreamRegistry)
        ensures
            r@ == (RegistryView { streams: Seq::<Stream>::empty(), datas: Seq::<
                StreamData,
            >::empty() }),
    {
        StreamRegistry { streams: Vec::new(), datas: Vec::new() }
    }

    /// Assigns the next id and stores the stream together with a zeroed
    /// ledger record, atomically from the caller's point of view.
    pub fn create(&mut self, stream: Stream) -> (id: u64)
        ensures
            id as int == old(self)@.streams.len(),
            final(self)@.streams == old(self)@.streams.push(stream),
            final(self)@.datas == old(self)@.datas.push(
                StreamData { a_withdraw: 0, cancelled: false },
            ),
    {
        let id = self.streams.len() as u64;
        self.streams.push(stream);
        self.datas.push(StreamData { a_withdraw: 0, cancelled: false });
        id
    }

    /// Looks a stream up by id, with its ledger record.
    pub fn get(&self, stream_id: u64) -> (r: Result<(Stream, StreamData), Error>)
        requires
            self@.wf(),
        ensures
            stream_id < self@.streams.len() ==> r == Ok::<(Stream, StreamData), Error>(
                (self@.streams[stream_id as int], self@.datas[stream_id as int]),
            ),
            stream_id >= self@.streams.len() ==> r == Err::<(Stream, StreamData), Error>(
                Error::StreamNotExist,
            ),
    {
        if stream_id < self.streams.len() as u64 {
            let i = stream_id as usize;
            Ok((self.streams[i], self.datas[i]))
        } else {
            Err(Error::StreamNotExist)
        }
    }

    /// Overwrites the cumulative withdrawn total of a registered stream.
    pub fn update_withdrawn(&mut self, stream_id: u64, new_total: u64)
        requires
            stream_id < old(self)@.datas.len(),
        ensures
            final(self)@.streams == old(self)@.streams,
            final(self)@.datas == old(self)@.datas.update(
                stream_id as int,
                StreamData {
                    a_withdraw: new_total,
                    cancelled: old(self)@.datas[stream_id as int].cancelled,
                },
            ),
    {
        let n = self.datas.len();
        assert(stream_id < n);
        let i = stream_id as usize;
        self.datas[i].a_withdraw = new_total;
    }

    /// Marks a registered stream cancelled. The historical withdrawn total
    /// is kept: it records what the payee already received, and the refund
    /// of a cancellation is computed from it.
    pub fn mark_cancelled(&mut self, stream_id: u64)
        requires
            stream_id < old(self)@.datas.len(),
        ensures
            final(self)@.streams == old(self)@.streams,
            final(self)@.datas == old(self)@.datas.update(
                stream_id as int,
                StreamData {
                    a_withdraw: old(self)@.datas[stream_id as int].a_withdraw,
                    cancelled: true,
                },
            ),
    {
        let n = self.datas.len();
        assert(stream_id < n);
        let i = stream_id as usize;
        self.datas[i].cancelled = true;
    }
}

} // verus!
