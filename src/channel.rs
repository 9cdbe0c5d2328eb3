//! The bounded FIFO that carries readings from the acquisition tasks to the
//! aggregator: capacity 32, and a send on a full channel drops the new reading
//! instead of waiting.
//!
//! The queue itself is an `embassy_sync` channel; this module states what its
//! non-blocking operations do and builds the drop-on-full policy on them.
use vstd::prelude::*;
use embassy_sync::blocking_mutex::raw::CriticalSectionRawMutex;
use embassy_sync::channel::{Channel, TryReceiveError, TrySendError};
use crate::sensor::SensorReading;

verus! {

/// Readings the channel holds before a send is refused.
pub const CHANNEL_CAPACITY: usize = 32;

/// The `embassy_sync` channel that holds the readings. Verus does not take a
/// declaration of `Channel` itself (its mutex parameter is bound by an outside
/// trait), so it is held here, out of Verus's sight, and described by `queued`.
#[verifier::external_body]
pub struct ChannelCell {
    chan: Channel<CriticalSectionRawMutex, SensorReading, 32>,
}

/// The readings queued in a channel, oldest first.
pub uninterp spec fn queued(c: ChannelCell) -> Seq<SensorReading>;

/// Relies on `Channel::new`: a new channel is empty.
#[verifier::external_body]
fn channel_new() -> (r: ChannelCell)
    ensures
        queued(r) == Seq::<SensorReading>::empty(),
{
    ChannelCell { chan: Channel::new() }
}

/// Relies on `Channel::try_send`: the message is appended at the back when
/// fewer than 32 are queued, else it is handed back and nothing changes.
#[verifier::external_body]
fn channel_try_send(c: &mut ChannelCell, m: SensorReading) -> (r: Result<(), SensorReading>)
    ensures
        queued(*old(c)).len() < 32 ==> r is Ok && queued(*final(c)) == queued(*old(c)).push(m),
        queued(*old(c)).len() >= 32 ==> r is Err && r->Err_0 == m && queued(*final(c)) == queued(*old(c)),
        queued(*final(c)).len() <= 32,
{
    match c.chan.try_send(m) {
        Ok(()) => Ok(()),
        Err(TrySendError::Full(m)) => Err(m),
    }
}

/// Relies on `Channel::try_receive`: the oldest message is taken from the
/// front, or nothing when the channel is empty.
#[verifier::external_body]
fn channel_try_receive(c: &mut ChannelCell) -> (r: Option<SensorReading>)
    ensures
        queued(*old(c)).len() == 0 ==> r is None && queued(*final(c)) == queued(*old(c)),
        queued(*old(c)).len() > 0 ==> r == Some(queued(*old(c))[0]) && queued(*final(c)) == queued(*old(c)).drop_first(),
{
    match c.chan.try_receive() {
        Ok(m) => Some(m),
        Err(TryReceiveError::Empty) => None,
    }
}

/// Relies on `Channel::len`: the number of queued messages.
#[verifier::external_body]
fn channel_len(c: &ChannelCell) -> (r: usize)
    ensures
        r == queued(*c).len(),
{
    c.chan.len()
}

/// The queue after a send under the drop-on-full policy.
pub open spec fn after_send(q: Seq<SensorReading>, m: SensorReading) -> Seq<SensorReading> {
    if q.len() < CHANNEL_CAPACITY { q.push(m) } else { q }
}

/// The queue after sending every reading of `ms` in order.
pub open spec fn after_sends(q: Seq<SensorReading>, ms: Seq<SensorReading>) -> Seq<SensorReading>
    decreases ms.len(),
{
    if ms.len() == 0 { q } else { after_send(after_sends(q, ms.drop_last()), ms.last()) }
}

/// Sending readings one after another into an empty channel, with nothing
/// received in between, keeps the first 32 in the order sent and drops every
/// later one.
pub proof fn lemma_backpressure_keeps_first(ms: Seq<SensorReading>)
    ensures
        after_sends(Seq::empty(), ms) == ms.take(if ms.len() < 32 { ms.len() as int } else { 32 }),
    decreases ms.len(),
{
    if ms.len() > 0 {
        lemma_backpressure_keeps_first(ms.drop_last());
        let n = ms.len() - 1;
        let k = if n < 32 { n } else { 32 };
        assert(ms.drop_last().take(k) =~= ms.take(k));
        if n < 32 {
            assert(ms.take(k).push(ms.last()) =~= ms.take(k + 1));
        }
    }
}

/// The reading channel.
pub struct ReadingChannel {
    inner: ChannelCell,
}

impl View for ReadingChannel {
    type V = Seq<SensorReading>;

    closed spec fn view(&self) -> Seq<SensorReading> {
        queued(self.inner)
    }
}

impl ReadingChannel {
    #[verifier::type_invariant]
    spec fn inv(&self) -> bool {
        queued(self.inner).len() <= CHANNEL_CAPACITY
    }

    /// An empty channel.
    pub fn new() -> (r: ReadingChannel)
        ensures
            r@ == Seq::<SensorReading>::empty(),
    {
        ReadingChannel { inner: channel_new() }
    }

    /// Readings the channel holds before sends are refused.
    pub fn capacity(&self) -> (r: usize)
        ensures
            r == CHANNEL_CAPACITY,
    {
        CHANNEL_CAPACITY
    }

    /// Number of queued readings.
    pub fn len(&self) -> (r: usize)
        ensures
            r == self@.len(),
            r <= CHANNEL_CAPACITY,
    {
        proof {
            use_type_invariant(self);
        }
        channel_len(&self.inner)
    }

    /// Non-blocking send: the reading is queued at the back, or, when the
    /// channel is full, dropped. Returns whether it was queued.
    pub fn try_send(&mut self, m: SensorReading) -> (r: bool)
        ensures
            r == (old(self)@.len() < CHANNEL_CAPACITY),
            final(self)@ == after_send(old(self)@, m),
    {
        proof {
            use_type_invariant(&*self);
        }
        // The queue is moved out while it changes, so that the invariant is
        // checked once, on the queue put back.
        let mut inner = channel_new();
        std::mem::swap(&mut inner, &mut self.inner);
        let sent = channel_try_send(&mut inner, m);
        self.inner = inner;
        sent.is_ok()
    }

    /// Non-blocking receive of the oldest reading.
    pub fn try_receive(&mut self) -> (r: Option<SensorReading>)
        ensures
            old(self)@.len() == 0 ==> r is None && final(self)@ == old(self)@,
            old(self)@.len() > 0 ==> r == Some(old(self)@[0]) && final(self)@ == old(self)@.drop_first(),
    {
        proof {
            use_type_invariant(&*self);
        }
        // Moved out while it changes, as in `try_send`.
        let mut inner = channel_new();
        std::mem::swap(&mut inner, &mut self.inner);
        let got = channel_try_receive(&mut inner);
        self.inner = inner;
        got
    }
}

} // verus!
