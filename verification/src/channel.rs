//! Bounded single-producer single-consumer channels.
//!
//! A channel holds at most `capacity()` values, delivered in the order they
//! were sent. Sending to a full channel and receiving from an empty one do not
//! complete: the poll functions answer `Pending` and name the waker to
//! register; a successful operation names the waker of the other side, to be
//! woken.
use vstd::prelude::*;

use crate::queue::QueueStorage;

verus! {

/// The outcome of polling a future: done with a value, or not yet.
#[derive(Debug, PartialEq, Eq, Structural)]
pub enum Poll<T> {
    Ready(T),
    Pending,
}

/// What the caller must do with the channel's wakers after a poll.
#[derive(Clone, Copy, Debug, PartialEq, Eq, Structural)]
pub enum Wake {
    /// Nothing.
    Nothing,
    /// Wake the task waiting to receive: a value has arrived.
    WakeConsumer,
    /// Wake the task waiting to send: room has been made.
    WakeProducer,
    /// Remember the receiving task's waker: it waits for a value.
    RegisterConsumer,
    /// Remember the sending task's waker: it waits for room.
    RegisterProducer,
}

/// A bounded FIFO channel over the store `S`.
pub struct Channel<S: QueueStorage> {
    queue: S,
    limit: usize,
}

impl<S: QueueStorage> View for Channel<S> {
    type V = Seq<S::Item>;

    /// The values held, oldest first.
    closed spec fn view(&self) -> Seq<S::Item> {
        self.queue.items()
    }
}

impl<S: QueueStorage> Channel<S> {
    /// The number of values the channel holds at most.
    pub closed spec fn capacity(&self) -> nat {
        self.limit as nat
    }

    /// The channel's invariant: a positive capacity within the store's room,
    /// and no more values held than the capacity.
    pub closed spec fn wf(&self) -> bool {
        &&& 1 <= self.limit <= S::room()
        &&& self.queue.items().len() <= self.limit
    }

    /// A well-formed channel holds no more than its capacity, which is no
    /// more than its store's room.
    pub proof fn lemma_bounded(&self)
        requires
            self.wf(),
        ensures
            self@.len() <= self.capacity() <= S::room(),
    {
    }

    /// Whether a send would complete now.
    pub open spec fn has_room(&self) -> bool {
        self@.len() < self.capacity()
    }

    /// A new, empty channel with as much room as its store.
    pub fn new() -> (c: Self)
        ensures
            c.wf(),
            c@ == Seq::<S::Item>::empty(),
            c.capacity() == S::room(),
    {
        Channel { queue: S::empty(), limit: S::places() }
    }

    /// A new, empty channel holding at most `limit` values.
    pub fn with_capacity(limit: usize) -> (c: Self)
        requires
            1 <= limit <= S::room(),
        ensures
            c.wf(),
            c@ == Seq::<S::Item>::empty(),
            c.capacity() == limit,
    {
        Channel { queue: S::empty(), limit }
    }

    /// The number of values held.
    pub fn len(&self) -> (n: usize)
        requires
            self.wf(),
        ensures
            n == self@.len(),
    {
        self.queue.length()
    }

    /// The number of values the channel holds at most.
    pub fn max_len(&self) -> (n: usize)
        requires
            self.wf(),
        ensures
            n == self.capacity(),
    {
        self.limit
    }

    /// Whether a send would complete now (the producer's `ready`).
    pub fn ready(&self) -> (b: bool)
        requires
            self.wf(),
        ensures
            b == self.has_room(),
    {
        self.queue.length() < self.limit
    }

    /// Polls a send of the value in `element`.
    ///
    /// With room, the value is taken out of `element` and put at the back,
    /// and the receiver is to be woken. Without room nothing changes and the
    /// sender's waker is to be registered.
    pub fn poll_enqueue(&mut self, element: &mut Option<S::Item>) -> (r: (Poll<()>, Wake))
        requires
            old(self).wf(),
            old(self).has_room() ==> old(element).is_some(),
        ensures
            final(self).wf(),
            final(self).capacity() == old(self).capacity(),
            old(self).has_room() ==> r == (Poll::Ready(()), Wake::WakeConsumer),
            old(self).has_room() ==> final(element).is_none(),
            old(self).has_room() ==> final(self)@ == old(self)@.push(old(element).unwrap()),
            old(self).has_room() ==> sent_step(*old(self), old(element).unwrap(), *final(self)),
            !old(self).has_room() ==> r == (Poll::<()>::Pending, Wake::RegisterProducer),
            !old(self).has_room() ==> *final(element) == *old(element),
            !old(self).has_room() ==> final(self)@ == old(self)@,
    {
        if self.queue.length() < self.limit {
            let value = element.take().unwrap();
            self.queue.push(value);
            (Poll::Ready(()), Wake::WakeConsumer)
        } else {
            (Poll::Pending, Wake::RegisterProducer)
        }
    }

    /// Polls a receive: the oldest value, or `Pending` when the channel is
    /// empty (then the receiver's waker is to be registered). Taking a value
    /// makes room, so the sender is to be woken.
    pub fn poll_dequeue(&mut self) -> (r: (Poll<S::Item>, Wake))
        requires
            old(self).wf(),
        ensures
            final(self).wf(),
            final(self).capacity() == old(self).capacity(),
            old(self)@.len() > 0 ==> r == (Poll::Ready(old(self)@[0]), Wake::WakeProducer),
            old(self)@.len() > 0 ==> final(self)@ == old(self)@.drop_first(),
            old(self)@.len() > 0 ==> received_step(*old(self), old(self)@[0], *final(self)),
            old(self)@.len() == 0 ==> r == (Poll::<S::Item>::Pending, Wake::RegisterConsumer),
            old(self)@.len() == 0 ==> final(self)@ == old(self)@,
    {
        match self.queue.pop() {
            Some(value) => (Poll::Ready(value), Wake::WakeProducer),
            None => (Poll::Pending, Wake::RegisterConsumer),
        }
    }

    /// Polls a receive that does not wait: the oldest value, or `None` when
    /// the channel is empty. It is always ready.
    pub fn poll_try_dequeue(&mut self) -> (r: (Poll<Option<S::Item>>, Wake))
        requires
            old(self).wf(),
        ensures
            final(self).wf(),
            final(self).capacity() == old(self).capacity(),
            old(self)@.len() > 0 ==> r == (Poll::Ready(Some(old(self)@[0])), Wake::WakeProducer),
            old(self)@.len() > 0 ==> final(self)@ == old(self)@.drop_first(),
            old(self)@.len() > 0 ==> received_step(*old(self), old(self)@[0], *final(self)),
            old(self)@.len() == 0 ==> r == (Poll::Ready(None::<S::Item>), Wake::Nothing),
            old(self)@.len() == 0 ==> final(self)@ == old(self)@,
    {
        match self.queue.pop() {
            Some(value) => (Poll::Ready(Some(value)), Wake::WakeProducer),
            None => (Poll::Ready(None), Wake::Nothing),
        }
    }

    /// A pending send of `value`, to be polled with `ChannelSend::poll`.
    pub fn send(&self, value: S::Item) -> (s: ChannelSend<S>)
        ensures
            s.element() == Some(value),
    {
        ChannelSend { element: Some(value) }
    }

    /// A pending receive, to be polled with `ChannelReceive::poll`.
    pub fn receive(&self) -> (r: ChannelReceive) {
        ChannelReceive
    }

    /// A receive that does not wait, to be polled with `ChannelTryReceive::poll`.
    pub fn try_receive(&self) -> (r: ChannelTryReceive) {
        ChannelTryReceive
    }
}

/// A send in progress: it holds the value until the channel takes it.
pub struct ChannelSend<S: QueueStorage> {
    element: Option<S::Item>,
}

impl<S: QueueStorage> ChannelSend<S> {
    /// The value not yet taken by the channel; `None` once sent.
    pub closed spec fn element(&self) -> Option<S::Item> {
        self.element
    }

    /// A send of `value`.
    pub fn new(value: S::Item) -> (s: Self)
        ensures
            s.element() == Some(value),
    {
        ChannelSend { element: Some(value) }
    }

    /// Whether the channel has taken the value.
    pub fn is_sent(&self) -> (b: bool)
        ensures
            b == (self.element() is None),
    {
        self.element.is_none()
    }

    /// Polls the send on `channel`; see `Channel::poll_enqueue`.
    pub fn poll(&mut self, channel: &mut Channel<S>) -> (r: (Poll<()>, Wake))
        requires
            old(channel).wf(),
            old(channel).has_room() ==> old(self).element() is Some,
        ensures
            final(channel).wf(),
            final(channel).capacity() == old(channel).capacity(),
            old(channel).has_room() ==> r == (Poll::Ready(()), Wake::WakeConsumer),
            old(channel).has_room() ==> final(self).element() is None,
            old(channel).has_room() ==> sent_step(
                *old(channel),
                old(self).element().unwrap(),
                *final(channel),
            ),
            old(channel).has_room() ==> final(channel)@ == old(channel)@.push(
                old(self).element().unwrap(),
            ),
            !old(channel).has_room() ==> r == (Poll::<()>::Pending, Wake::RegisterProducer),
            !old(channel).has_room() ==> final(self).element() == old(self).element(),
            !old(channel).has_room() ==> final(channel)@ == old(channel)@,
    {
        channel.poll_enqueue(&mut self.element)
    }
}

/// A receive in progress.
pub struct ChannelReceive;

impl ChannelReceive {
    /// Polls the receive on `channel`; see `Channel::poll_dequeue`.
    pub fn poll<S: QueueStorage>(&self, channel: &mut Channel<S>) -> (r: (Poll<S::Item>, Wake))
        requires
            old(channel).wf(),
        ensures
            final(channel).wf(),
            final(channel).capacity() == old(channel).capacity(),
            old(channel)@.len() > 0 ==> r == (Poll::Ready(old(channel)@[0]), Wake::WakeProducer),
            old(channel)@.len() > 0 ==> final(channel)@ == old(channel)@.drop_first(),
            old(channel)@.len() > 0 ==> received_step(*old(channel), old(channel)@[0], *final(channel)),
            old(channel)@.len() == 0 ==> r == (Poll::<S::Item>::Pending, Wake::RegisterConsumer),
            old(channel)@.len() == 0 ==> final(channel)@ == old(channel)@,
    {
        channel.poll_dequeue()
    }
}

/// A receive that does not wait.
pub struct ChannelTryReceive;

impl ChannelTryReceive {
    /// Polls the receive on `channel`; see `Channel::poll_try_dequeue`.
    pub fn poll<S: QueueStorage>(&self, channel: &mut Channel<S>) -> (r: (
        Poll<Option<S::Item>>,
        Wake,
    ))
        requires
            old(channel).wf(),
        ensures
            final(channel).wf(),
            final(channel).capacity() == old(channel).capacity(),
            old(channel)@.len() > 0 ==> r == (Poll::Ready(Some(old(channel)@[0])), Wake::WakeProducer),
            old(channel)@.len() > 0 ==> final(channel)@ == old(channel)@.drop_first(),
            old(channel)@.len() > 0 ==> received_step(*old(channel), old(channel)@[0], *final(channel)),
            old(channel)@.len() == 0 ==> r == (Poll::Ready(None::<S::Item>), Wake::Nothing),
            old(channel)@.len() == 0 ==> final(channel)@ == old(channel)@,
    {
        channel.poll_try_dequeue()
    }
}

/// A channel whose two ends are set up by `initialize`; sending and receiving
/// need it set up.
pub struct MessageChannel<S: QueueStorage> {
    channel: Channel<S>,
    initialized: bool,
}

impl<S: QueueStorage> MessageChannel<S> {
    /// The underlying channel.
    pub closed spec fn inner(&self) -> Channel<S> {
        self.channel
    }

    /// Whether `initialize` has been called.
    pub closed spec fn is_initialized(&self) -> bool {
        self.initialized
    }

    /// A new channel holding at most `limit` values, not yet set up.
    pub fn new(limit: usize) -> (c: Self)
        requires
            1 <= limit <= S::room(),
        ensures
            c.inner().wf(),
            c.inner()@ == Seq::<S::Item>::empty(),
            c.inner().capacity() == limit,
            !c.is_initialized(),
    {
        MessageChannel { channel: Channel::with_capacity(limit), initialized: false }
    }

    /// Whether `initialize` has been called.
    pub fn initialized(&self) -> (b: bool)
        ensures
            b == self.is_initialized(),
    {
        self.initialized
    }

    /// Sets up the sending and receiving ends.
    pub fn initialize(&mut self)
        ensures
            final(self).inner() == old(self).inner(),
            final(self).is_initialized(),
    {
        self.initialized = true;
    }

    /// A send of `message`.
    pub fn send(&self, message: S::Item) -> (s: ChannelSend<S>)
        requires
            self.is_initialized(),
        ensures
            s.element() == Some(message),
    {
        ChannelSend::new(message)
    }

    /// A receive.
    pub fn receive(&self) -> (r: ChannelReceive)
        requires
            self.is_initialized(),
    {
        ChannelReceive
    }

    /// The underlying channel, for polling sends and receives.
    pub fn channel_mut(&mut self) -> (c: &mut Channel<S>)
        requires
            old(self).is_initialized(),
        ensures
            *c == old(self).inner(),
            final(self).inner() == *final(c),
            final(self).is_initialized() == old(self).is_initialized(),
    {
        &mut self.channel
    }

    /// The underlying channel.
    pub fn channel(&self) -> (c: &Channel<S>)
        ensures
            *c == self.inner(),
    {
        &self.channel
    }
}

// ---------------------------------------------------------------------------
// Laws
// ---------------------------------------------------------------------------

/// `after` is channel `before` once a send of `v` has been taken: there was
/// room, and `v` went to the back.
pub open spec fn sent_step<S: QueueStorage>(before: Channel<S>, v: S::Item, after: Channel<S>) -> bool {
    &&& before.has_room()
    &&& after@ == before@.push(v)
    &&& after.capacity() == before.capacity()
}

/// `after` is channel `before` once a receive has taken `v`: `v` was the
/// oldest value, and it is gone.
pub open spec fn received_step<S: QueueStorage>(
    before: Channel<S>,
    v: S::Item,
    after: Channel<S>,
) -> bool {
    &&& before@.len() > 0
    &&& v == before@[0]
    &&& after@ == before@.drop_first()
    &&& after.capacity() == before.capacity()
}

proof fn lemma_sends<S: QueueStorage>(cs: Seq<Channel<S>>, xs: Seq<S::Item>, i: int)
    requires
        0 <= i <= xs.len(),
        cs.len() > xs.len(),
        forall|j: int| 0 <= j < xs.len() ==> #[trigger] sent_step(cs[j], xs[j], cs[j + 1]),
    ensures
        cs[i]@ == cs[0]@ + xs.take(i),
    decreases i,
{
    if i == 0 {
        assert(cs[0]@ + xs.take(0) =~= cs[0]@);
    } else {
        lemma_sends(cs, xs, i - 1);
        let k = i - 1;
        assert(sent_step(cs[k], xs[k], cs[k + 1]));
        assert(k + 1 == i);
        assert((cs[0]@ + xs.take(i - 1)).push(xs[i - 1]) =~= cs[0]@ + xs.take(i));
    }
}

proof fn lemma_receives<S: QueueStorage>(
    cs: Seq<Channel<S>>,
    start: int,
    all: Seq<S::Item>,
    ys: Seq<S::Item>,
    j: int,
)
    requires
        0 <= j <= ys.len(),
        ys.len() == all.len(),
        0 <= start,
        cs.len() == start + all.len() + 1,
        cs[start]@ == all,
        forall|k: int|
            0 <= k < ys.len() ==> #[trigger] received_step(cs[start + k], ys[k], cs[start + k + 1]),
    ensures
        cs[start + j]@ == all.skip(j),
        forall|k: int| 0 <= k < j ==> ys[k] == all[k],
    decreases j,
{
    if j == 0 {
        assert(all.skip(0) =~= all);
    } else {
        lemma_receives(cs, start, all, ys, j - 1);
        let k = j - 1;
        assert(received_step(cs[start + k], ys[k], cs[start + k + 1]));
        assert(all.skip(j - 1).drop_first() =~= all.skip(j));
        assert(start + k + 1 == start + j);
    }
}

/// Values leave a channel in the order they entered it, over the channel's
/// own operations. From a channel `cs[0]` holding `q`, sends of `xs[0], ..,
/// xs[k-1]` taken one after another (`cs[i]` to `cs[i+1]`, as `poll_enqueue`
/// states), followed by as many receives as values held (`cs[k+j]` to
/// `cs[k+j+1]`, as `poll_dequeue` states), receive exactly `q` and then
/// `xs`, in order, and leave the channel empty, so that a receive that does
/// not wait then yields `None`. In particular a value sent comes out after
/// every value already in the channel, and no sooner.
pub proof fn law_channel_fifo<S: QueueStorage>(
    cs: Seq<Channel<S>>,
    xs: Seq<S::Item>,
    ys: Seq<S::Item>,
)
    requires
        ys.len() == cs[0]@.len() + xs.len(),
        cs.len() == xs.len() + ys.len() + 1,
        forall|i: int| 0 <= i < xs.len() ==> #[trigger] sent_step(cs[i], xs[i], cs[i + 1]),
        forall|j: int|
            0 <= j < ys.len() ==> #[trigger] received_step(
                cs[xs.len() + j],
                ys[j],
                cs[xs.len() + j + 1],
            ),
    ensures
        ys == cs[0]@ + xs,
        cs[(xs.len() + ys.len()) as int]@.len() == 0,
{
    let q = cs[0]@;
    lemma_sends(cs, xs, xs.len() as int);
    assert(xs.take(xs.len() as int) =~= xs);
    lemma_receives(cs, xs.len() as int, q + xs, ys, ys.len() as int);
    assert(ys =~= q + xs);
}

} // verus!
