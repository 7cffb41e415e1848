//! Signals: one-shot hand-over of a value from one task to another, and
//! signal slots, a pool entry that is acquired, signalled, awaited and
//! released.
use vstd::prelude::*;

use crate::channel::Poll;

verus! {

/// The state of a signal.
#[derive(Debug, PartialEq, Eq, Structural)]
pub enum SignalState<T> {
    /// Nothing signalled, nobody waiting.
    Idle,
    /// A task waits for the value.
    Waiting,
    /// A value is there to be taken.
    Signaled(T),
}

/// What the caller must do with the signal's waker after an operation.
#[derive(Clone, Copy, Debug, PartialEq, Eq, Structural)]
pub enum SignalWake {
    /// Nothing.
    Nothing,
    /// Remember the waiting task's waker.
    RegisterWaiter,
    /// Wake the waiting task: its value has come.
    WakeWaiter,
}

/// The state after signalling `v`.
pub open spec fn signaled<T>(s: SignalState<T>, v: T) -> SignalState<T> {
    SignalState::Signaled(v)
}

/// The outcome of a wait on state `s`: the value if there is one.
pub open spec fn wait_outcome<T>(s: SignalState<T>) -> Poll<T> {
    match s {
        SignalState::Signaled(v) => Poll::Ready(v),
        _ => Poll::Pending,
    }
}

/// The state after a wait on state `s`: a taken value leaves the signal idle,
/// otherwise the caller is waiting.
pub open spec fn after_wait<T>(s: SignalState<T>) -> SignalState<T> {
    match s {
        SignalState::Signaled(_) => SignalState::Idle,
        _ => SignalState::Waiting,
    }
}

/// The waker action of a wait on state `s`.
pub open spec fn wait_wake<T>(s: SignalState<T>) -> SignalWake {
    match s {
        SignalState::Signaled(_) => SignalWake::Nothing,
        _ => SignalWake::RegisterWaiter,
    }
}

/// The waker action of signalling in state `s`: a waiting task is woken.
pub open spec fn signal_wake<T>(s: SignalState<T>) -> SignalWake {
    match s {
        SignalState::Waiting => SignalWake::WakeWaiter,
        _ => SignalWake::Nothing,
    }
}

fn signal_state<T>(state: &mut SignalState<T>, value: T) -> (w: SignalWake)
    ensures
        *final(state) == signaled(*old(state), value),
        w == signal_wake(*old(state)),
{
    let w = match state {
        SignalState::Waiting => SignalWake::WakeWaiter,
        _ => SignalWake::Nothing,
    };
    *state = SignalState::Signaled(value);
    w
}

fn wait_state<T>(state: &mut SignalState<T>) -> (r: (Poll<T>, SignalWake))
    ensures
        r.0 == wait_outcome(*old(state)),
        r.1 == wait_wake(*old(state)),
        *final(state) == after_wait(*old(state)),
{
    let mut old_state = SignalState::Waiting;
    core::mem::swap(state, &mut old_state);
    match old_state {
        SignalState::Signaled(v) => {
            *state = SignalState::Idle;
            (Poll::Ready(v), SignalWake::Nothing)
        },
        _ => (Poll::Pending, SignalWake::RegisterWaiter),
    }
}

/// A signal on its own: a future that completes with the value signalled.
pub struct SignalFuture<T> {
    state: SignalState<T>,
}

impl<T> SignalFuture<T> {
    /// The signal's state.
    pub closed spec fn state(&self) -> SignalState<T> {
        self.state
    }

    /// A signal with nothing signalled.
    pub fn new() -> (s: Self)
        ensures
            s.state() == SignalState::<T>::Idle,
    {
        SignalFuture { state: SignalState::Idle }
    }

    /// Hands `value` over, replacing any value not yet taken.
    pub fn signal(&mut self, value: T) -> (w: SignalWake)
        ensures
            final(self).state() == signaled(old(self).state(), value),
            w == signal_wake(old(self).state()),
    {
        signal_state(&mut self.state, value)
    }

    /// Takes the signalled value, or waits for it.
    pub fn poll_wait(&mut self) -> (r: (Poll<T>, SignalWake))
        ensures
            r.0 == wait_outcome(old(self).state()),
            r.1 == wait_wake(old(self).state()),
            final(self).state() == after_wait(old(self).state()),
    {
        wait_state(&mut self.state)
    }
}

/// An entry of a pool of signals, free or held by one request.
pub struct SignalSlot<T> {
    free: bool,
    state: SignalState<T>,
}

impl<T> SignalSlot<T> {
    /// Whether the slot is free to be acquired.
    pub closed spec fn is_free(&self) -> bool {
        self.free
    }

    /// The state of the slot's signal.
    pub closed spec fn state(&self) -> SignalState<T> {
        self.state
    }

    /// A free slot with nothing signalled.
    pub fn new() -> (s: Self)
        ensures
            s.is_free(),
            s.state() == SignalState::<T>::Idle,
    {
        SignalSlot { free: true, state: SignalState::Idle }
    }

    /// Whether the slot is free.
    pub fn free(&self) -> (b: bool)
        ensures
            b == self.is_free(),
    {
        self.free
    }

    /// Takes the slot if it is free, clearing its signal; answers whether it
    /// was taken. A held slot is left as it is.
    pub fn acquire(&mut self) -> (acquired: bool)
        ensures
            acquired == old(self).is_free(),
            acquired ==> !final(self).is_free() && final(self).state() == SignalState::<T>::Idle,
            !acquired ==> *final(self) == *old(self),
    {
        if self.free {
            self.free = false;
            self.state = SignalState::Idle;
            true
        } else {
            false
        }
    }

    /// Hands `value` to the slot's waiter.
    pub fn signal(&mut self, value: T) -> (w: SignalWake)
        ensures
            final(self).is_free() == old(self).is_free(),
            final(self).state() == signaled(old(self).state(), value),
            w == signal_wake(old(self).state()),
    {
        signal_state(&mut self.state, value)
    }

    /// Takes the signalled value, or waits for it.
    pub fn poll_wait(&mut self) -> (r: (Poll<T>, SignalWake))
        ensures
            final(self).is_free() == old(self).is_free(),
            r.0 == wait_outcome(old(self).state()),
            r.1 == wait_wake(old(self).state()),
            final(self).state() == after_wait(old(self).state()),
    {
        wait_state(&mut self.state)
    }

    /// Gives the slot back to the pool.
    pub fn release(&mut self)
        ensures
            final(self).is_free(),
            final(self).state() == old(self).state(),
    {
        self.free = true;
    }
}

impl<T> Default for SignalSlot<T> {
    /// A free slot with nothing signalled.
    fn default() -> (s: Self)
        ensures
            s.is_free(),
            s.state() == SignalState::<T>::Idle,
    {
        SignalSlot::new()
    }
}

// ---------------------------------------------------------------------------
// Laws
// ---------------------------------------------------------------------------

/// A wait after a signal yields the value signalled, whatever came before,
/// and leaves the signal idle.
pub proof fn law_signal_then_wait<T>(s: SignalState<T>, v: T)
    ensures
        wait_outcome(signaled(s, v)) == Poll::Ready(v),
        after_wait(signaled(s, v)) == SignalState::<T>::Idle,
        wait_wake(signaled(s, v)) == SignalWake::Nothing,
{
}

/// A wait before any signal does not complete; the value signalled next wakes
/// the waiter, and the next wait yields it.
pub proof fn law_wait_then_signal<T>(v: T)
    ensures
        wait_outcome(SignalState::<T>::Idle) == Poll::<T>::Pending,
        after_wait(SignalState::<T>::Idle) == SignalState::<T>::Waiting,
        signal_wake(after_wait(SignalState::<T>::Idle)) == SignalWake::WakeWaiter,
        wait_outcome(signaled(after_wait(SignalState::<T>::Idle), v)) == Poll::Ready(v),
{
}

/// Of two signals before a wait, the wait yields the later value.
pub proof fn law_last_signal_wins<T>(s: SignalState<T>, v: T, w: T)
    ensures
        wait_outcome(signaled(signaled(s, v), w)) == Poll::Ready(w),
{
}

} // verus!
