//! The streaming side of printer discovery: a mailbox between the native
//! callback, which delivers handles as it finds them, and the consumer, which
//! pulls them in the same order.

use std::collections::VecDeque;
use vstd::prelude::*;
use crate::error::{CpdbError, ErrorModel};
use crate::printer::Printer;

verus! {

/// One discovered printer, by the address of its native object, or the
/// failure that stands in its place.
pub type ItemModel = Result<usize, ErrorModel>;

/// The item that a reported handle becomes: a null handle is an item that
/// fails, and fails alone.
pub open spec fn item_of(raw: usize) -> ItemModel {
    if raw == 0 {
        Err(ErrorModel::NullPointer)
    } else {
        Ok(raw)
    }
}

/// The mathematical value of a stream item.
pub open spec fn item_view(item: Result<Printer, CpdbError>) -> ItemModel {
    match item {
        Ok(printer) => Ok(printer@),
        Err(e) => Err(e@),
    }
}

/// The mathematical value of a [`DiscoveryStream`].
pub ghost struct StreamModel {
    /// What was delivered and not yet received, oldest first.
    pub queued: Seq<ItemModel>,
    /// Whether the consumer asked for discovery to stop.
    pub stopped: bool,
}

/// The stream after the native side reported `raw`: a stopped stream takes
/// nothing more, an open one queues the item behind all others.
pub open spec fn after_deliver(s: StreamModel, raw: usize) -> StreamModel {
    if s.stopped {
        s
    } else {
        StreamModel { queued: s.queued.push(item_of(raw)), stopped: false }
    }
}

/// The stream after the native side reported each of `raws` in turn.
pub open spec fn after_deliveries(s: StreamModel, raws: Seq<usize>) -> StreamModel
    decreases raws.len(),
{
    if raws.len() == 0 {
        s
    } else {
        after_deliver(after_deliveries(s, raws.drop_last()), raws.last())
    }
}

/// What the consumer receives next: the oldest queued item; where nothing is
/// queued, nothing yet from an open stream and the closing error from a
/// stopped one.
pub open spec fn next_item(s: StreamModel) -> Option<ItemModel> {
    if s.queued.len() > 0 {
        Some(s.queued[0])
    } else if s.stopped {
        Some(Err(ErrorModel::ChannelClosed))
    } else {
        None
    }
}

/// The stream after the consumer received once.
pub open spec fn after_recv(s: StreamModel) -> StreamModel {
    if s.queued.len() > 0 {
        StreamModel { queued: s.queued.drop_first(), stopped: s.stopped }
    } else {
        s
    }
}

/// The stream after the consumer received `n` times.
pub open spec fn after_recvs(s: StreamModel, n: nat) -> StreamModel
    decreases n,
{
    if n == 0 {
        s
    } else {
        after_recv(after_recvs(s, (n - 1) as nat))
    }
}

/// An ordered, unbounded mailbox of discovered printers.
pub struct DiscoveryStream {
    queue: VecDeque<Result<Printer, CpdbError>>,
    stopped: bool,
}

impl View for DiscoveryStream {
    type V = StreamModel;

    closed spec fn view(&self) -> StreamModel {
        StreamModel {
            queued: Seq::new(self.queue@.len(), |i: int| item_view(self.queue@[i])),
            stopped: self.stopped,
        }
    }
}

impl DiscoveryStream {
    /// An open stream that holds nothing.
    pub fn new() -> (stream: DiscoveryStream)
        ensures
            stream@ == (StreamModel { queued: Seq::empty(), stopped: false }),
    {
        let stream = DiscoveryStream { queue: VecDeque::new(), stopped: false };
        assert(stream@.queued =~= Seq::empty());
        stream
    }

    /// Takes one handle from the native callback. Returns whether it was
    /// queued: a stopped stream takes nothing more.
    pub fn deliver(&mut self, raw: usize) -> (queued: bool)
        ensures
            final(self)@ == after_deliver(old(self)@, raw),
            queued == !old(self)@.stopped,
    {
        if self.stopped {
            return false;
        }
        let item = Printer::from_raw(raw);
        self.queue.push_back(item);
        assert(self@.queued =~= old(self)@.queued.push(item_of(raw)));
        true
    }

    /// Asks for discovery to stop. What is queued stays queued.
    pub fn stop(&mut self)
        ensures
            final(self)@ == (StreamModel { queued: old(self)@.queued, stopped: true }),
    {
        self.stopped = true;
        assert(self@.queued =~= old(self)@.queued);
    }

    /// Whether the consumer asked for discovery to stop.
    pub fn is_stopped(&self) -> (stopped: bool)
        ensures
            stopped == self@.stopped,
    {
        self.stopped
    }

    /// How many items wait to be received.
    pub fn len(&self) -> (n: usize)
        ensures
            n == self@.queued.len(),
    {
        self.queue.len()
    }

    /// Whether a consumer has to wait: nothing is queued and the stream is
    /// still open, so that receiving now would yield nothing.
    pub fn would_wait(&self) -> (wait: bool)
        ensures
            wait == (next_item(self@) is None),
    {
        self.queue.len() == 0 && !self.stopped
    }

    /// Receives the next item without waiting.
    pub fn try_recv(&mut self) -> (r: Option<Result<Printer, CpdbError>>)
        ensures
            final(self)@ == after_recv(old(self)@),
            match r {
                Some(item) => next_item(old(self)@) == Some(item_view(item)),
                None => next_item(old(self)@) is None,
            },
    {
        match self.queue.pop_front() {
            Some(item) => {
                assert(self@.queued =~= old(self)@.queued.drop_first());
                assert(old(self)@.queued[0] == item_view(item));
                Some(item)
            },
            None => {
                assert(self@.queued =~= old(self)@.queued);
                if self.stopped {
                    Some(Err(CpdbError::ChannelClosed))
                } else {
                    None
                }
            },
        }
    }
}

/// Delivering to an open stream queues one item for each handle, behind what
/// was queued before and in the order of delivery.
pub proof fn lemma_deliveries_queue_in_order(s: StreamModel, raws: Seq<usize>)
    requires
        !s.stopped,
    ensures
        after_deliveries(s, raws) == (StreamModel {
            queued: s.queued + Seq::new(raws.len(), |i: int| item_of(raws[i])),
            stopped: false,
        }),
    decreases raws.len(),
{
    let items = Seq::new(raws.len(), |i: int| item_of(raws[i]));
    if raws.len() == 0 {
        assert(s.queued + items =~= s.queued);
    } else {
        let front = raws.drop_last();
        lemma_deliveries_queue_in_order(s, front);
        let front_items = Seq::new(front.len(), |i: int| item_of(front[i]));
        assert((s.queued + front_items).push(item_of(raws.last())) =~= s.queued + items);
    }
}

/// Receiving `n` times takes the `n` oldest items off the queue.
pub proof fn lemma_recvs_take_oldest(s: StreamModel, n: nat)
    requires
        n <= s.queued.len(),
    ensures
        after_recvs(s, n) == (StreamModel { queued: s.queued.skip(n as int), stopped: s.stopped }),
    decreases n,
{
    if n == 0 {
        assert(s.queued.skip(0) =~= s.queued);
    } else {
        lemma_recvs_take_oldest(s, (n - 1) as nat);
        assert(s.queued.skip(n - 1).drop_first() =~= s.queued.skip(n as int));
    }
}

/// The consumer of a fresh stream sees what the native side reported, item
/// for item and in the order of the reports: the `k`-th receive yields the
/// item of the `k`-th handle, a failure where that handle was null, and the
/// failure of one item keeps no other back.
pub proof fn lemma_stream_preserves_order(raws: Seq<usize>, k: nat)
    requires
        k < raws.len(),
    ensures
        next_item(
            after_recvs(
                after_deliveries(StreamModel { queued: Seq::empty(), stopped: false }, raws),
                k,
            ),
        ) == Some(item_of(raws[k as int])),
{
    let fresh = StreamModel { queued: Seq::empty(), stopped: false };
    lemma_deliveries_queue_in_order(fresh, raws);
    let filled = after_deliveries(fresh, raws);
    assert(filled.queued =~= Seq::new(raws.len(), |i: int| item_of(raws[i])));
    lemma_recvs_take_oldest(filled, k);
}

} // verus!
