//! The mailbox of an actor: its request queue, the payloads of the queued
//! entries, and the signal slots through which responses go back to the
//! senders.
//!
//! A request (`process`) holds a signal slot from the moment it is made until
//! its sender has taken the response; a notification (`notify`) holds none
//! and is done once queued. The actor's task takes entries in order with
//! `next_message` and answers requests with `reply`.
use vstd::prelude::*;

use crate::queue::RequestQueue;

use crate::channel::{MessageChannel, Poll, Wake};
use crate::signal::{
    after_wait,
    signal_wake,
    signaled,
    wait_outcome,
    wait_wake,
    SignalSlot,
    SignalState,
    SignalWake,
};

verus! {

/// An entry of an actor's request queue.
///
/// `Send(slot)` is a request whose response goes to signal slot `slot`;
/// `Notify` is a notification, which gets no response.
#[derive(Clone, Copy, Debug, PartialEq, Eq, Structural)]
pub enum ActorMessage {
    Send(usize),
    Notify,
}

impl ActorMessage {
    /// A request answered through signal slot `slot`.
    pub fn new_send(slot: usize) -> (m: Self)
        ensures
            m == ActorMessage::Send(slot),
    {
        ActorMessage::Send(slot)
    }

    /// A notification.
    pub fn new_notify() -> (m: Self)
        ensures
            m == ActorMessage::Notify,
    {
        ActorMessage::Notify
    }
}

/// The signal slot that answers entry `e`, if any.
pub open spec fn reply_slot(e: ActorMessage) -> Option<usize> {
    match e {
        ActorMessage::Send(s) => Some(s),
        ActorMessage::Notify => None,
    }
}

/// An actor: it owns its state and handles the messages sent to it.
pub trait Actor: Sized {
    /// What the actor is given when it is mounted.
    type Configuration;
    /// The messages it handles.
    type Message;
    /// What it answers a request with.
    type Response;

    /// Called once when the actor is mounted into the system: the actor as
    /// it is to run, given its configuration. By default it is unchanged.
    fn on_mount(self, config: Self::Configuration) -> Self {
        self
    }
}

/// The largest request queue an actor can have.
pub const MAX_QUEUE_SIZE: usize = 4;

/// The place of the `i`-th queued message in a ring of `MAX_QUEUE_SIZE`
/// places whose oldest message is at `head`.
pub open spec fn ring(head: int, i: int) -> int {
    (head + i) % (MAX_QUEUE_SIZE as int)
}

proof fn lemma_ring_distinct(h: int, i: int, j: int)
    requires
        0 <= h < 4,
        0 <= i < j < 4,
    ensures
        ring(h, i) != ring(h, j),
        0 <= ring(h, i) < 4,
        0 <= ring(h, j) < 4,
{
}

proof fn lemma_ring_next(h: int, i: int)
    requires
        0 <= h < 4,
        0 <= i < 4,
    ensures
        ring(ring(h, 1), i) == ring(h, i + 1),
{
}

/// The mailbox of an actor whose messages are `M` and responses `R`. It
/// holds everything in place: the messages of the queued entries in a ring
/// that follows the request queue, and the signal slots in an array, of
/// which the first `size` are in use.
pub struct ActorContext<M, R> {
    request_channel: MessageChannel<RequestQueue>,
    messages: [Option<M>; 4],
    head: usize,
    signals: [SignalSlot<R>; 4],
    size: usize,
}

impl<M, R> ActorContext<M, R> {
    /// The queued entries, oldest first.
    pub closed spec fn requests(&self) -> Seq<ActorMessage> {
        self.request_channel.inner()@
    }

    /// The queued messages with the slot that answers each (`None` for a
    /// notification), oldest first.
    pub closed spec fn inbox(&self) -> Seq<(M, Option<usize>)> {
        Seq::new(
            self.request_channel.inner()@.len(),
            |i: int|
                (
                    self.messages@[ring(self.head as int, i)].unwrap(),
                    reply_slot(self.request_channel.inner()@[i]),
                ),
        )
    }

    /// The signal slots.
    pub closed spec fn slots(&self) -> Seq<SignalSlot<R>> {
        self.signals@.take(self.size as int)
    }

    /// The number of entries the request queue holds at most; also the
    /// number of signal slots.
    pub open spec fn queue_size(&self) -> nat {
        self.slots().len()
    }

    /// Whether `mount` has set up the request queue.
    pub closed spec fn is_mounted(&self) -> bool {
        self.request_channel.is_initialized()
    }

    /// Whether a message would be queued now.
    pub open spec fn has_room(&self) -> bool {
        self.inbox().len() < self.queue_size()
    }

    /// Whether some signal slot is free.
    pub open spec fn has_free_slot(&self) -> bool {
        exists|i: int| 0 <= i < self.slots().len() && #[trigger] self.slots()[i].is_free()
    }

    /// The mailbox's invariant.
    pub closed spec fn wf(&self) -> bool {
        &&& 1 <= self.size <= MAX_QUEUE_SIZE
        &&& self.head < MAX_QUEUE_SIZE
        &&& self.request_channel.inner().wf()
        &&& self.request_channel.inner().capacity() == self.size
        &&& forall|i: int|
            0 <= i < self.request_channel.inner()@.len() ==> (#[trigger] self.messages@[ring(
                self.head as int,
                i,
            )]) is Some
        &&& forall|i: int|
            0 <= i < self.request_channel.inner()@.len() ==> match #[trigger] self.request_channel.inner()@[i] {
                ActorMessage::Send(s) => s < self.size,
                ActorMessage::Notify => true,
            }
    }

    /// A mailbox with a request queue of `queue_size` entries and as many free
    /// signal slots; nothing queued, not yet mounted.
    pub fn new(queue_size: usize) -> (ctx: Self)
        requires
            1 <= queue_size <= MAX_QUEUE_SIZE,
        ensures
            ctx.wf(),
            ctx.queue_size() == queue_size,
            ctx.inbox() == Seq::<(M, Option<usize>)>::empty(),
            forall|i: int| 0 <= i < queue_size ==> (#[trigger] ctx.slots()[i]).is_free(),
            forall|i: int|
                0 <= i < queue_size ==> (#[trigger] ctx.slots()[i]).state() == SignalState::<R>::Idle,
            !ctx.is_mounted(),
    {
        let signals: [SignalSlot<R>; 4] = [
            SignalSlot::new(),
            SignalSlot::new(),
            SignalSlot::new(),
            SignalSlot::new(),
        ];
        let ctx = ActorContext {
            request_channel: MessageChannel::new(queue_size),
            messages: [None, None, None, None],
            head: 0,
            signals,
            size: queue_size,
        };
        assert(ctx.inbox() =~= Seq::<(M, Option<usize>)>::empty());
        ctx
    }

    /// Mounts `actor`: calls its `on_mount` once with `config`, then sets up
    /// the request queue; answers the mounted actor.
    pub fn mount<A: Actor<Message = M, Response = R>>(&mut self, actor: A, config: A::Configuration) -> (mounted: A)
        requires
            old(self).wf(),
        ensures
            call_ensures(A::on_mount, (actor, config), mounted),
            final(self).wf(),
            final(self).is_mounted(),
            final(self).inbox() == old(self).inbox(),
            final(self).requests() == old(self).requests(),
            final(self).slots() == old(self).slots(),
    {
        let mounted = actor.on_mount(config);
        self.request_channel.initialize();
        mounted
    }

    /// Whether `mount` has set up the request queue.
    pub fn mounted(&self) -> (b: bool)
        ensures
            b == self.is_mounted(),
    {
        self.request_channel.initialized()
    }

    /// The number of signal slots (and of queue entries).
    pub fn queue_len(&self) -> (n: usize)
        requires
            self.wf(),
        ensures
            n == self.queue_size(),
    {
        self.size
    }

    /// Whether some signal slot is free, so that a request can be made.
    pub fn free_signal_available(&self) -> (b: bool)
        requires
            self.wf(),
        ensures
            b == self.has_free_slot(),
    {
        let mut i: usize = 0;
        while i < self.size
            invariant
                i <= self.size <= MAX_QUEUE_SIZE,
                self.signals@.len() == MAX_QUEUE_SIZE,
                forall|j: int| 0 <= j < i ==> !(#[trigger] self.signals@[j]).is_free(),
            decreases self.size - i,
        {
            if self.signals[i].free() {
                assert(self.slots()[i as int].is_free());
                return true;
            }
            i = i + 1;
        }
        false
    }

    /// Acquires the first free signal slot and answers its index.
    fn acquire_signal(&mut self) -> (slot: usize)
        requires
            old(self).wf(),
            old(self).has_free_slot(),
        ensures
            final(self).wf(),
            slot < old(self).queue_size(),
            old(self).slots()[slot as int].is_free(),
            forall|j: int| 0 <= j < slot ==> !(#[trigger] old(self).slots()[j]).is_free(),
            !final(self).slots()[slot as int].is_free(),
            final(self).slots()[slot as int].state() == SignalState::<R>::Idle,
            final(self).slots().len() == old(self).slots().len(),
            forall|j: int|
                0 <= j < old(self).slots().len() && j != slot ==> #[trigger] final(self).slots()[j]
                    == old(self).slots()[j],
            final(self).inbox() == old(self).inbox(),
            final(self).requests() == old(self).requests(),
            final(self).is_mounted() == old(self).is_mounted(),
    {
        let mut i: usize = 0;
        while i < self.size
            invariant
                i <= self.size <= MAX_QUEUE_SIZE,
                self.signals@.len() == MAX_QUEUE_SIZE,
                self.size == old(self).size,
                self.head == old(self).head,
                self.signals@ == old(self).signals@,
                self.messages@ == old(self).messages@,
                self.request_channel == old(self).request_channel,
                self.wf(),
                old(self).has_free_slot(),
                forall|j: int| 0 <= j < i ==> !(#[trigger] self.signals@[j]).is_free(),
            decreases self.size - i,
        {
            if self.signals[i].free() {
                let ghost before = self.signals@;
                let acquired = self.signals[i].acquire();
                assert(self.inbox() =~= old(self).inbox());
                assert(self.slots() =~= old(self).slots().update(i as int, self.signals@[i as int]));
                return i;
            }
            i = i + 1;
        }
        assert(false);
        0
    }

    /// Makes a request of `message`: acquires the first free signal slot and
    /// answers the future that queues the request and waits for its response.
    pub fn process(&mut self, message: M) -> (f: ProcessFuture<M>)
        requires
            old(self).wf(),
            old(self).is_mounted(),
            old(self).has_free_slot(),
        ensures
            final(self).wf(),
            final(self).is_mounted(),
            f.slot() < final(self).queue_size(),
            old(self).slots()[f.slot() as int].is_free(),
            forall|j: int| 0 <= j < f.slot() ==> !(#[trigger] old(self).slots()[j]).is_free(),
            !final(self).slots()[f.slot() as int].is_free(),
            final(self).slots()[f.slot() as int].state() == SignalState::<R>::Idle,
            final(self).slots().len() == old(self).slots().len(),
            forall|j: int|
                0 <= j < old(self).slots().len() && j != f.slot() ==> #[trigger] final(self).slots()[j] == old(self).slots()[j],
            final(self).inbox() == old(self).inbox(),
            f.waits_for_channel(),
            f.message() == Some(message),
            f.armed(),
    {
        let slot = self.acquire_signal();
        ProcessFuture::new(slot, message)
    }

    /// Makes a notification of `message`: answers the future that queues it.
    pub fn notify(&self, message: M) -> (f: NotifyFuture<M>)
        requires
            self.wf(),
            self.is_mounted(),
        ensures
            f.message() == Some(message),
            f.armed(),
    {
        NotifyFuture { element: Some(message), armed: true }
    }

    /// Queues `message` with entry `entry`, if there is room.
    fn poll_enqueue(&mut self, entry: ActorMessage, element: &mut Option<M>) -> (w: Wake)
        requires
            old(self).wf(),
            old(self).is_mounted(),
            old(self).has_room() ==> old(element).is_some(),
            reply_slot(entry) matches Some(s) ==> s < old(self).queue_size(),
        ensures
            final(self).wf(),
            final(self).is_mounted() == old(self).is_mounted(),
            final(self).slots() == old(self).slots(),
            old(self).has_room() ==> w == Wake::WakeConsumer && final(element).is_none()
                && final(self).inbox() == old(self).inbox().push(
                (old(element).unwrap(), reply_slot(entry)),
            ),
            !old(self).has_room() ==> w == Wake::RegisterProducer && *final(element) == *old(element) && final(self).inbox() == old(self).inbox(),
    {
        let ghost old_inbox = self.inbox();
        let ghost old_requests = self.requests();
        proof {
            self.request_channel.inner().lemma_bounded();
        }
        let channel = self.request_channel.channel_mut();
        if channel.ready() {
            let len = channel.len();
            let mut entry_slot = Some(entry);
            let (_, w) = channel.poll_enqueue(&mut entry_slot);
            let value = element.take().unwrap();
            let place = (self.head + len) % MAX_QUEUE_SIZE;
            let ghost before = self.messages@;
            self.messages.set(place, Some(value));
            assert(self.requests() == old_requests.push(entry));
            assert forall|i: int| 0 <= i < len implies self.messages@[ring(self.head as int, i)]
                == before[ring(self.head as int, i)] by {
                lemma_ring_distinct(self.head as int, i, len as int);
            }
            assert(self.inbox() =~= old_inbox.push((value, reply_slot(entry))));
            assert(self.wf()) by {
                assert forall|i: int| 0 <= i < self.requests().len() implies (
                #[trigger] self.messages@[ring(self.head as int, i)]) is Some by {
                    if i < len {
                        lemma_ring_distinct(self.head as int, i, len as int);
                    }
                }
                assert forall|i: int| 0 <= i < self.requests().len() implies match #[trigger] self.requests()[i] {
                    ActorMessage::Send(s) => s < self.size,
                    ActorMessage::Notify => true,
                } by {
                    if i < len {
                        assert(self.requests()[i] == old_requests[i]);
                    }
                }
            }
            w
        } else {
            Wake::RegisterProducer
        }
    }

    /// Takes the oldest queued message, with the slot that answers it; the
    /// step of the actor's task that waits for its next message.
    pub fn next_message(&mut self) -> (r: (Poll<(M, Option<usize>)>, Wake))
        requires
            old(self).wf(),
            old(self).is_mounted(),
        ensures
            final(self).wf(),
            final(self).is_mounted(),
            final(self).slots() == old(self).slots(),
            old(self).inbox().len() > 0 ==> r == (
                Poll::Ready(old(self).inbox()[0]),
                Wake::WakeProducer,
            ) && final(self).inbox() == old(self).inbox().drop_first(),
            old(self).inbox().len() == 0 ==> r == (
                Poll::<(M, Option<usize>)>::Pending,
                Wake::RegisterConsumer,
            ) && final(self).inbox() == old(self).inbox(),
            old(self).inbox().len() > 0 ==> (r.0 matches Poll::Ready((_, Some(s))) ==> s
                < final(self).queue_size()),
    {
        let ghost old_inbox = self.inbox();
        let ghost old_requests = self.requests();
        proof {
            self.request_channel.inner().lemma_bounded();
        }
        let receive = self.request_channel.receive();
        let channel = self.request_channel.channel_mut();
        let (p, w) = receive.poll(channel);
        match p {
            Poll::Ready(entry) => {
                let ghost before = self.messages@;
                let ghost old_head = self.head as int;
                let mut taken: Option<M> = None;
                core::mem::swap(&mut self.messages[self.head], &mut taken);
                self.head = (self.head + 1) % MAX_QUEUE_SIZE;
                assert(taken == before[ring(old_head, 0)]);
                let message = taken.unwrap();
                let reply = match entry {
                    ActorMessage::Send(s) => Some(s),
                    ActorMessage::Notify => None,
                };
                assert(old_requests[0] == entry);
                assert(self.requests() == old_requests.drop_first());
                assert forall|i: int| 0 <= i < self.requests().len() implies #[trigger] self.messages@[ring(
                    self.head as int,
                    i,
                )] == before[ring(old_head, i + 1)] by {
                    lemma_ring_next(old_head, i);
                    lemma_ring_distinct(old_head, 0, i + 1);
                }
                assert(self.inbox() =~= old_inbox.drop_first());
                assert(self.wf()) by {
                    assert forall|i: int| 0 <= i < self.requests().len() implies match #[trigger] self.requests()[i] {
                        ActorMessage::Send(s) => s < self.size,
                        ActorMessage::Notify => true,
                    } by {
                        assert(self.requests()[i] == old_requests[i + 1]);
                    }
                }
                (Poll::Ready((message, reply)), w)
            },
            Poll::Pending => {
                assert(self.inbox() =~= old_inbox);
                (Poll::Pending, w)
            },
        }
    }

    /// Answers the request held by slot `slot` with `value`.
    pub fn reply(&mut self, slot: usize, value: R) -> (w: SignalWake)
        requires
            old(self).wf(),
            slot < old(self).queue_size(),
        ensures
            final(self).wf(),
            final(self).is_mounted() == old(self).is_mounted(),
            final(self).inbox() == old(self).inbox(),
            final(self).slots().len() == old(self).slots().len(),
            final(self).slots()[slot as int].is_free() == old(self).slots()[slot as int].is_free(),
            final(self).slots()[slot as int].state() == signaled(
                old(self).slots()[slot as int].state(),
                value,
            ),
            w == signal_wake(old(self).slots()[slot as int].state()),
            forall|j: int|
                0 <= j < old(self).slots().len() && j != slot ==> #[trigger] final(self).slots()[j]
                    == old(self).slots()[j],
    {
        let w = self.signals[slot].signal(value);
        assert(self.inbox() =~= old(self).inbox());
        assert(self.slots() =~= old(self).slots().update(slot as int, self.signals@[slot as int]));
        w
    }

    /// Waits on slot `slot`: its response if there is one, which frees the slot.
    fn wait_reply(&mut self, slot: usize) -> (r: (Poll<R>, SignalWake))
        requires
            old(self).wf(),
            slot < old(self).queue_size(),
        ensures
            final(self).wf(),
            final(self).is_mounted() == old(self).is_mounted(),
            final(self).inbox() == old(self).inbox(),
            final(self).slots().len() == old(self).slots().len(),
            r.0 == wait_outcome(old(self).slots()[slot as int].state()),
            r.1 == wait_wake(old(self).slots()[slot as int].state()),
            final(self).slots()[slot as int].state() == after_wait(
                old(self).slots()[slot as int].state(),
            ),
            final(self).slots()[slot as int].is_free() == (old(self).slots()[slot as int].is_free()
                || r.0 is Ready),
            forall|j: int|
                0 <= j < old(self).slots().len() && j != slot ==> #[trigger] final(self).slots()[j]
                    == old(self).slots()[j],
    {
        let r = self.signals[slot].poll_wait();
        if let Poll::Ready(_) = r.0 {
            self.signals[slot].release();
        }
        assert(self.inbox() =~= old(self).inbox());
        assert(self.slots() =~= old(self).slots().update(slot as int, self.signals@[slot as int]));
        r
    }
}

/// Where an actor's task stands.
#[derive(Clone, Copy, Debug, PartialEq, Eq, Structural)]
pub enum TaskPhase {
    /// The actor's `on_start` has not completed.
    Starting,
    /// Waiting for the next message.
    Idle,
    /// Handling a message; the slot that answers it, for a request.
    Handling(Option<usize>),
}

/// The moves of an actor's task: from starting only to idle; from idle to
/// handling a message (or idle again); from handling only back to idle.
pub open spec fn task_step(before: TaskPhase, after: TaskPhase) -> bool {
    match before {
        TaskPhase::Starting => after == TaskPhase::Starting || after == TaskPhase::Idle,
        TaskPhase::Idle => after == TaskPhase::Idle || after is Handling,
        TaskPhase::Handling(_) => after == TaskPhase::Idle,
    }
}

/// The task of an actor: it starts the actor, then takes its messages one at
/// a time, in queue order, and answers every request with the actor's
/// response before it takes the next message.
pub struct ActorTask {
    phase: TaskPhase,
}

impl ActorTask {
    /// Where the task stands.
    pub closed spec fn phase(&self) -> TaskPhase {
        self.phase
    }

    /// A task whose actor has not started.
    pub fn new() -> (t: Self)
        ensures
            t.phase() == TaskPhase::Starting,
    {
        ActorTask { phase: TaskPhase::Starting }
    }

    /// The slot that answers the message being handled, if it is a request.
    pub fn reply_slot(&self) -> (s: Option<usize>)
        ensures
            self.phase() matches TaskPhase::Handling(x) ==> s == x,
            !(self.phase() is Handling) ==> s is None,
    {
        match self.phase {
            TaskPhase::Handling(x) => x,
            _ => None,
        }
    }

    /// The actor's `on_start` has completed: messages may be taken.
    pub fn started(&mut self)
        requires
            old(self).phase() == TaskPhase::Starting,
        ensures
            final(self).phase() == TaskPhase::Idle,
            task_step(old(self).phase(), final(self).phase()),
    {
        self.phase = TaskPhase::Idle;
    }

    /// Takes the oldest message of `ctx`, to be handled by the actor; the
    /// task then handles it until `handled`. Without a message the task
    /// stays idle.
    pub fn next_message<M, R>(&mut self, ctx: &mut ActorContext<M, R>) -> (r: (Poll<M>, Wake))
        requires
            old(self).phase() == TaskPhase::Idle,
            old(ctx).wf(),
            old(ctx).is_mounted(),
        ensures
            final(ctx).wf(),
            final(ctx).is_mounted(),
            final(ctx).slots() == old(ctx).slots(),
            task_step(old(self).phase(), final(self).phase()),
            old(ctx).inbox().len() > 0 ==> r == (Poll::Ready(old(ctx).inbox()[0].0), Wake::WakeProducer)
                && final(ctx).inbox() == old(ctx).inbox().drop_first() && final(self).phase()
                == TaskPhase::Handling(old(ctx).inbox()[0].1),
            old(ctx).inbox().len() == 0 ==> r == (Poll::<M>::Pending, Wake::RegisterConsumer)
                && final(ctx).inbox() == old(ctx).inbox() && final(self).phase()
                == TaskPhase::Idle,
            final(self).phase() matches TaskPhase::Handling(Some(s)) ==> s < final(ctx).queue_size(),
    {
        let (p, w) = ctx.next_message();
        match p {
            Poll::Ready((message, reply)) => {
                self.phase = TaskPhase::Handling(reply);
                (Poll::Ready(message), w)
            },
            Poll::Pending => (Poll::Pending, w),
        }
    }

    /// The actor has handled the message with `response`: a request is
    /// answered with it through its slot; the task is idle again.
    pub fn handled<M, R>(&mut self, ctx: &mut ActorContext<M, R>, response: R) -> (w: SignalWake)
        requires
            old(self).phase() is Handling,
            old(self).phase() matches TaskPhase::Handling(Some(s)) ==> s < old(ctx).queue_size(),
            old(ctx).wf(),
        ensures
            final(self).phase() == TaskPhase::Idle,
            task_step(old(self).phase(), final(self).phase()),
            final(ctx).wf(),
            final(ctx).is_mounted() == old(ctx).is_mounted(),
            final(ctx).inbox() == old(ctx).inbox(),
            final(ctx).slots().len() == old(ctx).slots().len(),
            old(self).phase() matches TaskPhase::Handling(Some(s)) ==> final(ctx).slots()[s as int].state()
                == signaled(old(ctx).slots()[s as int].state(), response) && final(ctx).slots()[s as int].is_free()
                == old(ctx).slots()[s as int].is_free() && w == signal_wake(old(ctx).slots()[s as int].state())
                && forall|j: int|
                0 <= j < old(ctx).slots().len() && j != s ==> #[trigger] final(ctx).slots()[j]
                    == old(ctx).slots()[j],
            old(self).phase() == TaskPhase::Handling(None) ==> *final(ctx) == *old(ctx) && w
                == SignalWake::Nothing,
    {
        let phase = self.phase;
        self.phase = TaskPhase::Idle;
        match phase {
            TaskPhase::Handling(Some(slot)) => ctx.reply(slot, response),
            _ => SignalWake::Nothing,
        }
    }
}

/// The mailbox of a kernel actor: requests answered with no value, and
/// notifications, as an `ActorContext` makes them.
pub type ActorState<M> = ActorContext<M, ()>;

/// Where a request's future stands.
#[derive(Clone, Copy, Debug, PartialEq, Eq, Structural)]
pub enum ProcessState {
    /// Waiting for room in the request queue.
    WaitChannel,
    /// Queued; waiting for the response.
    WaitSignal,
}

/// A request in progress: it queues the message, then waits for the response
/// in its signal slot. It must be driven to completion: `armed` stays true
/// until then.
pub struct ProcessFuture<M> {
    slot: usize,
    element: Option<M>,
    state: ProcessState,
    armed: bool,
}

impl<M> ProcessFuture<M> {
    /// The signal slot that the response comes through.
    pub closed spec fn slot(&self) -> usize {
        self.slot
    }

    /// The message, until it is queued.
    pub closed spec fn message(&self) -> Option<M> {
        self.element
    }

    /// Whether the request still waits for room in the queue.
    pub closed spec fn waits_for_channel(&self) -> bool {
        self.state == ProcessState::WaitChannel
    }

    /// Whether the request has yet to complete.
    pub closed spec fn armed(&self) -> bool {
        self.armed
    }

    /// A request of `message` answered through slot `slot`, yet to be queued.
    pub fn new(slot: usize, message: M) -> (f: Self)
        ensures
            f.slot() == slot,
            f.message() == Some(message),
            f.waits_for_channel(),
            f.armed(),
    {
        ProcessFuture { slot, element: Some(message), state: ProcessState::WaitChannel, armed: true }
    }

    /// The signal slot that the response comes through.
    pub fn signal_slot(&self) -> (s: usize)
        ensures
            s == self.slot(),
    {
        self.slot
    }

    /// Whether the request has yet to complete; dropping it before then is
    /// an error of the caller.
    pub fn is_armed(&self) -> (b: bool)
        ensures
            b == self.armed(),
    {
        self.armed
    }

    /// Polls the request on its actor's mailbox.
    ///
    /// While waiting for room: with room the message is queued with its slot,
    /// and the wait for the response begins in the same poll; without room
    /// nothing changes. While waiting for the response: the response if it
    /// has come (which frees the slot and completes the request), otherwise
    /// `Pending`.
    pub fn poll<R>(&mut self, ctx: &mut ActorContext<M, R>) -> (r: (Poll<R>, Wake, SignalWake))
        requires
            old(ctx).wf(),
            old(ctx).is_mounted(),
            old(self).slot() < old(ctx).queue_size(),
            old(self).waits_for_channel() && old(ctx).has_room() ==> old(self).message().is_some(),
        ensures
            process_step(*old(self), *final(self)),
            r.0 is Ready ==> !final(self).waits_for_channel() && !final(self).armed(),
            final(ctx).wf(),
            final(ctx).is_mounted() == old(ctx).is_mounted(),
            final(self).slot() == old(self).slot(),
            final(ctx).slots().len() == old(ctx).slots().len(),
            forall|j: int|
                0 <= j < old(ctx).slots().len() && j != old(self).slot() ==> #[trigger] final(ctx).slots()[j] == old(ctx).slots()[j],
            // still no room: nothing changes
            old(self).waits_for_channel() && !old(ctx).has_room() ==> r == (
                Poll::<R>::Pending,
                Wake::RegisterProducer,
                SignalWake::Nothing,
            ) && *final(self) == *old(self) && final(ctx).inbox() == old(ctx).inbox()
                && final(ctx).slots() == old(ctx).slots(),
            // room: queued, then the wait
            old(self).waits_for_channel() && old(ctx).has_room() ==> r.1 == Wake::WakeConsumer
                && final(ctx).inbox() == old(ctx).inbox().push(
                (old(self).message().unwrap(), Some(old(self).slot())),
            ) && final(self).message().is_none() && r.0 == wait_outcome(
                old(ctx).slots()[old(self).slot() as int].state(),
            ) && r.2 == wait_wake(old(ctx).slots()[old(self).slot() as int].state()),
            // waiting for the response
            !old(self).waits_for_channel() ==> r.1 == Wake::Nothing && final(ctx).inbox() == old(ctx).inbox() && final(self).message() == old(self).message() && r.0 == wait_outcome(
                old(ctx).slots()[old(self).slot() as int].state(),
            ) && r.2 == wait_wake(old(ctx).slots()[old(self).slot() as int].state()),
            // the wait, whenever it happens
            !(old(self).waits_for_channel() && !old(ctx).has_room()) ==> !final(self).waits_for_channel() && final(ctx).slots()[old(self).slot() as int].state()
                == after_wait(old(ctx).slots()[old(self).slot() as int].state()) && final(ctx).slots()[old(self).slot() as int].is_free() == (old(ctx).slots()[old(self).slot() as int].is_free() || r.0 is Ready) && final(self).armed()
                == (old(self).armed() && !(r.0 is Ready)),
    {
        let mut channel_wake = Wake::Nothing;
        if self.state == ProcessState::WaitChannel {
            let w = ctx.poll_enqueue(ActorMessage::Send(self.slot), &mut self.element);
            if w == Wake::RegisterProducer {
                return (Poll::Pending, Wake::RegisterProducer, SignalWake::Nothing);
            }
            channel_wake = w;
            self.state = ProcessState::WaitSignal;
        }
        let (p, sw) = ctx.wait_reply(self.slot);
        if let Poll::Ready(_) = p {
            self.armed = false;
        }
        (p, channel_wake, sw)
    }
}

/// How a poll may move a request: the slot stays; once queued it never
/// waits for room again; once complete it stays complete.
pub open spec fn process_step<M>(before: ProcessFuture<M>, after: ProcessFuture<M>) -> bool {
    &&& after.slot() == before.slot()
    &&& !before.waits_for_channel() ==> !after.waits_for_channel()
    &&& !before.armed() ==> !after.armed()
}

/// A notification in progress: done once the message is queued. It must be
/// driven to completion: `armed` stays true until then.
pub struct NotifyFuture<M> {
    element: Option<M>,
    armed: bool,
}

impl<M> NotifyFuture<M> {
    /// The message, until it is queued.
    pub closed spec fn message(&self) -> Option<M> {
        self.element
    }

    /// Whether the notification has yet to complete.
    pub closed spec fn armed(&self) -> bool {
        self.armed
    }

    /// A notification of `message`, to be polled on its actor's mailbox.
    pub fn new(message: M) -> (f: Self)
        ensures
            f.message() == Some(message),
            f.armed(),
    {
        NotifyFuture { element: Some(message), armed: true }
    }

    /// Whether the notification has yet to complete; dropping it before then
    /// is an error of the caller.
    pub fn is_armed(&self) -> (b: bool)
        ensures
            b == self.armed(),
    {
        self.armed
    }

    /// Polls the notification: with room the message is queued and the
    /// notification completes; without room nothing changes.
    pub fn poll<R>(&mut self, ctx: &mut ActorContext<M, R>) -> (r: (Poll<()>, Wake))
        requires
            old(ctx).wf(),
            old(ctx).is_mounted(),
            old(ctx).has_room() ==> old(self).message().is_some(),
        ensures
            final(ctx).wf(),
            final(ctx).is_mounted() == old(ctx).is_mounted(),
            final(ctx).slots() == old(ctx).slots(),
            old(ctx).has_room() ==> r == (Poll::Ready(()), Wake::WakeConsumer) && final(ctx).inbox() == old(ctx).inbox().push((old(self).message().unwrap(), None))
                && final(self).message().is_none() && !final(self).armed(),
            !old(ctx).has_room() ==> r == (Poll::<()>::Pending, Wake::RegisterProducer) && *final(self) == *old(self) && final(ctx).inbox() == old(ctx).inbox(),
    {
        let w = ctx.poll_enqueue(ActorMessage::Notify, &mut self.element);
        if w == Wake::WakeConsumer {
            self.armed = false;
            (Poll::Ready(()), w)
        } else {
            (Poll::Pending, w)
        }
    }
}

// ---------------------------------------------------------------------------
// Laws
// ---------------------------------------------------------------------------

/// A request waiting on its slot completes with the reply the actor gave it:
/// once `reply(slot, value)` has taken the mailbox from `before` to `after`,
/// the request's next wait yields `value` and frees the slot.
pub proof fn law_reply_completes_request<M, R>(
    before: ActorContext<M, R>,
    after: ActorContext<M, R>,
    slot: usize,
    value: R,
)
    requires
        slot < before.queue_size(),
        after.slots()[slot as int].state() == signaled(before.slots()[slot as int].state(), value),
    ensures
        wait_outcome(after.slots()[slot as int].state()) == Poll::Ready(value),
        after_wait(after.slots()[slot as int].state()) == SignalState::<R>::Idle,
{
}

/// A request does not complete before its reply: waiting on a slot whose
/// signal is idle (as `process` leaves it) or already waited on yields
/// `Pending` and registers the waiter.
pub proof fn law_no_reply_no_completion<R>(s: SignalState<R>)
    requires
        !(s is Signaled),
    ensures
        wait_outcome(s) == Poll::<R>::Pending,
        wait_wake(s) == SignalWake::RegisterWaiter,
        after_wait(s) == SignalState::<R>::Waiting,
{
}

/// Outstanding requests never share a slot: with `after` and `slot` as
/// `process` leaves them from `before` (a slot free in `before`, now held,
/// every other slot unchanged), a slot `held` by a request in `before` is not
/// `slot` and is still held in `after`.
pub proof fn law_requests_get_distinct_slots<M, R>(
    before: ActorContext<M, R>,
    after: ActorContext<M, R>,
    slot: usize,
    held: int,
)
    requires
        slot < before.queue_size(),
        before.slots()[slot as int].is_free(),
        !after.slots()[slot as int].is_free(),
        after.slots().len() == before.slots().len(),
        forall|j: int|
            0 <= j < before.slots().len() && j != slot ==> #[trigger] after.slots()[j]
                == before.slots()[j],
        0 <= held < before.slots().len(),
        !before.slots()[held].is_free(),
    ensures
        held != slot,
        !after.slots()[held].is_free(),
{
    assert(after.slots()[held] == before.slots()[held]);
}

/// Across any run of polls of one request (`fs[k]` to `fs[k+1]`, each as
/// `ProcessFuture::poll` states), the request keeps its slot, moves only from
/// waiting for room to waiting for its response and never back, and once
/// complete stays complete.
pub proof fn law_process_states_only_advance<M>(fs: Seq<ProcessFuture<M>>, i: int, j: int)
    requires
        0 <= i <= j < fs.len(),
        forall|k: int| 0 <= k < fs.len() - 1 ==> #[trigger] process_step(fs[k], fs[k + 1]),
    ensures
        fs[j].slot() == fs[i].slot(),
        !fs[i].waits_for_channel() ==> !fs[j].waits_for_channel(),
        !fs[i].armed() ==> !fs[j].armed(),
    decreases j - i,
{
    if i < j {
        law_process_states_only_advance(fs, i, j - 1);
        let k = j - 1;
        assert(process_step(fs[k], fs[k + 1]));
        assert(k + 1 == j);
    }
}

/// An actor's task handles one message at a time, and only once started:
/// across any run of its phases (`ps[k]` to `ps[k+1]`, each as the task's
/// operations state), a message is only taken when the task is idle, and
/// between taking one message and the next the task has finished the first
/// (it is idle at the step right after), so two messages are never handled
/// at once; once started, it never starts again.
pub proof fn law_actor_task_order(ps: Seq<TaskPhase>, i: int, j: int)
    requires
        0 <= i < j < ps.len(),
        forall|k: int| 0 <= k < ps.len() - 1 ==> #[trigger] task_step(ps[k], ps[k + 1]),
    ensures
        ps[j] is Handling ==> ps[j - 1] == TaskPhase::Idle,
        ps[i] is Handling && ps[j] is Handling ==> ps[i + 1] == TaskPhase::Idle && i + 1 < j,
        ps[i] != TaskPhase::Starting ==> ps[j] != TaskPhase::Starting,
    decreases j - i,
{
    let k = j - 1;
    assert(task_step(ps[k], ps[k + 1]));
    assert(k + 1 == j);
    assert(task_step(ps[i], ps[i + 1]));
    if i + 1 < j {
        law_actor_task_order(ps, i + 1, j);
    }
}

} // verus!
