//! The bounded hand-off queue between the sampler and the display.

use crate::sensor::SensorReading;
use embassy_sync::blocking_mutex::raw::NoopRawMutex;
use embassy_sync::channel::{Channel, TrySendError};
use vstd::prelude::*;

verus! {

/// Number of readings that the queue holds at most.
pub const CAPACITY: usize = 3;

/// An `embassy_sync::channel::Channel` for three readings. It keeps its
/// readings behind a lock and a cell, so the verifier is shown none of it;
/// what it holds is known by `pending` alone. The queue owns it and reaches
/// it through exclusive references only, so no call finds it borrowed and
/// none panics.
#[verifier::external_body]
pub struct ReadingChannel {
    inner: Channel<NoopRawMutex, SensorReading, 3>,
}

/// The readings that wait in a channel, oldest first.
pub uninterp spec fn pending(channel: ReadingChannel) -> Seq<SensorReading>;

/// `embassy_sync::channel::Channel::new`: a channel in which nothing waits.
#[verifier::external_body]
fn channel_new() -> (channel: ReadingChannel)
    ensures
        pending(channel) == Seq::<SensorReading>::empty(),
{
    ReadingChannel { inner: Channel::new() }
}

/// `embassy_sync::channel::Channel::try_send`: with fewer than three
/// readings waiting the message goes to the back; with three the channel
/// stays as it is and the message comes back.
#[verifier::external_body]
fn channel_try_send(channel: &mut ReadingChannel, message: SensorReading) -> (r: Result<
    (),
    SensorReading,
>)
    ensures
        r is Ok <==> pending(*old(channel)).len() < 3,
        r is Ok ==> pending(*final(channel)) == pending(*old(channel)).push(message),
        r matches Err(back) ==> back == message && pending(*final(channel)) == pending(
            *old(channel),
        ),
    no_unwind
{
    match channel.inner.try_send(message) {
        Ok(()) => Ok(()),
        Err(TrySendError::Full(message)) => Err(message),
    }
}

/// `embassy_sync::channel::Channel::try_receive`: the oldest waiting
/// reading leaves the channel and is returned; from an empty channel
/// nothing is.
#[verifier::external_body]
fn channel_try_receive(channel: &mut ReadingChannel) -> (r: Option<SensorReading>)
    ensures
        r is Some <==> pending(*old(channel)).len() > 0,
        r matches Some(message) ==> message == pending(*old(channel)).first() && pending(
            *final(channel),
        ) == pending(*old(channel)).drop_first(),
        r is None ==> pending(*final(channel)) == pending(*old(channel)),
    no_unwind
{
    match channel.inner.try_receive() {
        Ok(message) => Some(message),
        Err(_) => None,
    }
}

/// `embassy_sync::channel::Channel::len`: the number of waiting readings.
#[verifier::external_body]
fn channel_len(channel: &ReadingChannel) -> (len: usize)
    ensures
        len == pending(*channel).len(),
{
    channel.inner.len()
}

/// What waits after a reading was offered: the reading joins at the back
/// while there is room, and nothing changes when the queue is full.
pub open spec fn spec_send(waiting: Seq<SensorReading>, reading: SensorReading) -> Seq<
    SensorReading,
> {
    if waiting.len() < CAPACITY {
        waiting.push(reading)
    } else {
        waiting
    }
}

/// What waits after a reading was asked for: all but the oldest.
pub open spec fn spec_receive(waiting: Seq<SensorReading>) -> Seq<SensorReading> {
    if waiting.len() > 0 {
        waiting.drop_first()
    } else {
        waiting
    }
}

/// A queue of at most three readings that hands them on in the order in
/// which they came.
pub struct ReadingQueue {
    channel: ReadingChannel,
}

impl View for ReadingQueue {
    type V = Seq<SensorReading>;

    /// The readings that wait, oldest first.
    closed spec fn view(&self) -> Seq<SensorReading> {
        pending(self.channel)
    }
}

impl ReadingQueue {
    #[verifier::type_invariant]
    spec fn bounded(self) -> bool {
        pending(self.channel).len() <= CAPACITY
    }

    /// An empty queue.
    pub fn new() -> (queue: ReadingQueue)
        ensures
            queue@ == Seq::<SensorReading>::empty(),
    {
        ReadingQueue { channel: channel_new() }
    }

    /// The number of readings that the queue holds at most.
    pub fn capacity(&self) -> (capacity: usize)
        ensures
            capacity == CAPACITY,
    {
        CAPACITY
    }

    /// The number of readings that wait.
    pub fn len(&self) -> (len: usize)
        ensures
            len == self@.len(),
            len <= CAPACITY,
    {
        proof {
            use_type_invariant(self);
        }
        channel_len(&self.channel)
    }

    /// Whether no reading waits.
    pub fn is_empty(&self) -> (empty: bool)
        ensures
            empty == (self@.len() == 0),
    {
        self.len() == 0
    }

    /// Whether the queue has no room for another reading.
    pub fn is_full(&self) -> (full: bool)
        ensures
            full == (self@.len() == CAPACITY),
    {
        self.len() == CAPACITY
    }

    /// Offers a reading. While there is room it joins at the back. A full
    /// queue stays as it is and hands the reading back, for the sender to
    /// offer again once a reading has left.
    pub fn try_send(&mut self, reading: SensorReading) -> (r: Result<(), SensorReading>)
        ensures
            final(self)@ == spec_send(old(self)@, reading),
            r is Ok <==> old(self)@.len() < CAPACITY,
            r matches Err(back) ==> back == reading,
            final(self)@.len() <= CAPACITY,
    {
        proof {
            use_type_invariant(&*self);
        }
        channel_try_send(&mut self.channel, reading)
    }

    /// Asks for the oldest reading. It leaves the queue and is returned; an
    /// empty queue returns nothing, for the receiver to ask again once a
    /// reading has come.
    pub fn try_receive(&mut self) -> (r: Option<SensorReading>)
        ensures
            final(self)@ == spec_receive(old(self)@),
            r is Some <==> old(self)@.len() > 0,
            r matches Some(reading) ==> reading == old(self)@.first(),
            final(self)@.len() <= CAPACITY,
    {
        proof {
            use_type_invariant(&*self);
        }
        channel_try_receive(&mut self.channel)
    }
}

/// One use of the queue.
#[derive(Clone, Copy, Debug, PartialEq, Eq)]
pub enum QueueOp {
    /// A reading is offered.
    Send(SensorReading),
    /// A reading is asked for.
    Receive,
}

/// What has become of the readings that were offered to a queue.
pub struct HandOff {
    /// The readings that wait, oldest first.
    pub waiting: Seq<SensorReading>,
    /// The readings that the queue took in, in the order in which it took them.
    pub accepted: Seq<SensorReading>,
    /// The readings that the queue gave out, in the order in which it gave them.
    pub delivered: Seq<SensorReading>,
}

/// The books after one more use of the queue.
pub open spec fn spec_apply(before: HandOff, op: QueueOp) -> HandOff {
    match op {
        QueueOp::Send(reading) => HandOff {
            waiting: spec_send(before.waiting, reading),
            accepted: if before.waiting.len() < CAPACITY {
                before.accepted.push(reading)
            } else {
                before.accepted
            },
            delivered: before.delivered,
        },
        QueueOp::Receive => HandOff {
            waiting: spec_receive(before.waiting),
            accepted: before.accepted,
            delivered: if before.waiting.len() > 0 {
                before.delivered.push(before.waiting.first())
            } else {
                before.delivered
            },
        },
    }
}

/// The books after a new queue was used as `ops` say, in order.
pub open spec fn spec_hand_off(ops: Seq<QueueOp>) -> HandOff
    decreases ops.len(),
{
    if ops.len() == 0 {
        HandOff { waiting: Seq::empty(), accepted: Seq::empty(), delivered: Seq::empty() }
    } else {
        spec_apply(spec_hand_off(ops.drop_last()), ops.last())
    }
}

/// First in, first out: however sends and receives alternate, the readings
/// that came out followed by those that still wait are the readings that
/// went in, in the order in which they went in. None is lost, none comes
/// twice and none overtakes another.
pub proof fn lemma_first_in_first_out(ops: Seq<QueueOp>)
    ensures
        spec_hand_off(ops).accepted == spec_hand_off(ops).delivered + spec_hand_off(ops).waiting,
    decreases ops.len(),
{
    if ops.len() == 0 {
        assert(Seq::<SensorReading>::empty() + Seq::<SensorReading>::empty() =~= Seq::<
            SensorReading,
        >::empty());
    } else {
        lemma_first_in_first_out(ops.drop_last());
        let before = spec_hand_off(ops.drop_last());
        let after = spec_hand_off(ops);
        assert(after.accepted =~= after.delivered + after.waiting);
    }
}

/// The queue never holds more than its capacity, and a reading is taken in
/// only where fewer than that were waiting.
pub proof fn lemma_never_over_capacity(ops: Seq<QueueOp>)
    ensures
        spec_hand_off(ops).waiting.len() <= CAPACITY,
        ops.len() > 0 && spec_hand_off(ops).accepted.len() > spec_hand_off(
            ops.drop_last(),
        ).accepted.len() ==> spec_hand_off(ops.drop_last()).waiting.len() < CAPACITY,
    decreases ops.len(),
{
    if ops.len() > 0 {
        lemma_never_over_capacity(ops.drop_last());
    }
}

} // verus!
