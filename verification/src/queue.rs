//! Bounded first-in first-out storage for the channels of the kernel.
//!
//! The storage is `heapless::spsc::Queue`. Its contents are opaque to the
//! verifier, so each instantiation that the kernel uses gets a name for the
//! sequence of items it holds (front first), and a wrapper for each method
//! that the kernel calls, whose contract speaks of that name.
//!
//! `QueueStorage` lets the channel logic be written (and verified) once for
//! every instantiation.
use vstd::prelude::*;

use heapless::spsc::Queue;

use crate::actor::ActorMessage;
use crate::protocol::AtResponse;

verus! {

/// `heapless::spsc::Queue<T, N>`: a queue with room for `N - 1` items.
#[verifier::external_type_specification]
#[verifier::external_body]
#[verifier::reject_recursive_types(T)]
pub struct ExQueue<T, const N: usize>(Queue<T, N>);

/// The request queue of an actor: room for 4 entries.
pub type RequestQueue = Queue<ActorMessage, 5>;

/// A queue of modem responses: room for 2.
pub type ResponseQueue = Queue<AtResponse, 3>;

/// A bounded FIFO store with a fixed number of places.
pub trait QueueStorage: Sized {
    type Item;

    /// The items held, front first.
    spec fn items(&self) -> Seq<Self::Item>;

    /// How many items the store has room for.
    spec fn room() -> nat;

    /// The number of places, as an executable value.
    fn places() -> (n: usize)
        ensures
            n == Self::room(),
            n >= 1,
    ;

    fn empty() -> (q: Self)
        ensures
            q.items() == Seq::<Self::Item>::empty(),
    ;

    fn length(&self) -> (n: usize)
        ensures
            n == self.items().len(),
    ;

    fn push(&mut self, v: Self::Item)
        requires
            old(self).items().len() < Self::room(),
        ensures
            final(self).items() == old(self).items().push(v),
    ;

    fn pop(&mut self) -> (r: Option<Self::Item>)
        ensures
            old(self).items().len() == 0 ==> r is None && final(self).items() == old(self).items(),
            old(self).items().len() > 0 ==> r == Some(old(self).items()[0]) && final(self).items()
                == old(self).items().drop_first(),
    ;
}

// ---------------------------------------------------------------------------
// The request queue of an actor: `Queue<ActorMessage, 5>`, room for 4 items.
// ---------------------------------------------------------------------------

/// The items held by an actor's request queue, front first.
pub uninterp spec fn request_items(q: Queue<ActorMessage, 5>) -> Seq<ActorMessage>;

/// `Queue::new`: the new queue holds nothing.
#[verifier::external_body]
fn request_queue_new() -> (q: Queue<ActorMessage, 5>)
    ensures
        request_items(q) == Seq::<ActorMessage>::empty(),
{
    Queue::new()
}

/// `Queue::len`: the number of items held.
#[verifier::external_body]
fn request_queue_len(q: &Queue<ActorMessage, 5>) -> (n: usize)
    ensures
        n == request_items(*q).len(),
{
    q.len()
}

/// `Queue::enqueue`: with fewer than 4 items the value goes to the back and
/// `Ok` comes back (here `None`); with 4 (or more) the queue is unchanged and
/// the value comes back in `Err` (here `Some`).
#[verifier::external_body]
fn request_queue_enqueue(q: &mut Queue<ActorMessage, 5>, v: ActorMessage) -> (rejected: Option<ActorMessage>)
    ensures
        request_items(*old(q)).len() < 4 ==> rejected is None,
        request_items(*old(q)).len() < 4 ==> request_items(*final(q)) == request_items(*old(q)).push(v),
        request_items(*old(q)).len() >= 4 ==> rejected == Some(v),
        request_items(*old(q)).len() >= 4 ==> request_items(*final(q)) == request_items(*old(q)),
{
    q.enqueue(v).err()
}

/// `Queue::dequeue`: the front item comes out, or `None` when the queue is
/// empty, which leaves it unchanged.
#[verifier::external_body]
fn request_queue_dequeue(q: &mut Queue<ActorMessage, 5>) -> (r: Option<ActorMessage>)
    ensures
        request_items(*old(q)).len() == 0 ==> r is None,
        request_items(*old(q)).len() == 0 ==> request_items(*final(q)) == request_items(*old(q)),
        request_items(*old(q)).len() > 0 ==> r == Some(request_items(*old(q))[0]),
        request_items(*old(q)).len() > 0 ==> request_items(*final(q)) == request_items(*old(q)).drop_first(),
{
    q.dequeue()
}

impl QueueStorage for Queue<ActorMessage, 5> {
    type Item = ActorMessage;

    open spec fn items(&self) -> Seq<ActorMessage> {
        request_items(*self)
    }

    open spec fn room() -> nat {
        4
    }

    fn places() -> (n: usize) {
        4
    }

    fn empty() -> (q: Self) {
        request_queue_new()
    }

    fn length(&self) -> (n: usize) {
        request_queue_len(self)
    }

    fn push(&mut self, v: ActorMessage) {
        let r = request_queue_enqueue(self, v);
    }

    fn pop(&mut self) -> (r: Option<ActorMessage>) {
        request_queue_dequeue(self)
    }
}

// ---------------------------------------------------------------------------
// The queues between the ESP8266 modem and its controller:
// `Queue<AtResponse, 3>`, room for 2 items.
// ---------------------------------------------------------------------------

/// The items held by a modem response queue, front first.
pub uninterp spec fn response_items(q: Queue<AtResponse, 3>) -> Seq<AtResponse>;

/// `Queue::new`: the new queue holds nothing.
#[verifier::external_body]
fn response_queue_new() -> (q: Queue<AtResponse, 3>)
    ensures
        response_items(q) == Seq::<AtResponse>::empty(),
{
    Queue::new()
}

/// `Queue::len`: the number of items held.
#[verifier::external_body]
fn response_queue_len(q: &Queue<AtResponse, 3>) -> (n: usize)
    ensures
        n == response_items(*q).len(),
{
    q.len()
}

/// `Queue::enqueue`: with fewer than 2 items the value goes to the back and
/// `Ok` comes back (here `None`); with 2 (or more) the queue is unchanged and
/// the value comes back in `Err` (here `Some`).
#[verifier::external_body]
fn response_queue_enqueue(q: &mut Queue<AtResponse, 3>, v: AtResponse) -> (rejected: Option<AtResponse>)
    ensures
        response_items(*old(q)).len() < 2 ==> rejected is None,
        response_items(*old(q)).len() < 2 ==> response_items(*final(q)) == response_items(*old(q)).push(v),
        response_items(*old(q)).len() >= 2 ==> rejected == Some(v),
        response_items(*old(q)).len() >= 2 ==> response_items(*final(q)) == response_items(*old(q)),
{
    q.enqueue(v).err()
}

/// `Queue::dequeue`: the front item comes out, or `None` when the queue is
/// empty, which leaves it unchanged.
#[verifier::external_body]
fn response_queue_dequeue(q: &mut Queue<AtResponse, 3>) -> (r: Option<AtResponse>)
    ensures
        response_items(*old(q)).len() == 0 ==> r is None,
        response_items(*old(q)).len() == 0 ==> response_items(*final(q)) == response_items(*old(q)),
        response_items(*old(q)).len() > 0 ==> r == Some(response_items(*old(q))[0]),
        response_items(*old(q)).len() > 0 ==> response_items(*final(q)) == response_items(*old(q)).drop_first(),
{
    q.dequeue()
}

impl QueueStorage for Queue<AtResponse, 3> {
    type Item = AtResponse;

    open spec fn items(&self) -> Seq<AtResponse> {
        response_items(*self)
    }

    open spec fn room() -> nat {
        2
    }

    fn places() -> (n: usize) {
        2
    }

    fn empty() -> (q: Self) {
        response_queue_new()
    }

    fn length(&self) -> (n: usize) {
        response_queue_len(self)
    }

    fn push(&mut self, v: AtResponse) {
        let r = response_queue_enqueue(self, v);
    }

    fn pop(&mut self) -> (r: Option<AtResponse>) {
        response_queue_dequeue(self)
    }
}

} // verus!
