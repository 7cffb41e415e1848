use drogue_device::channel::Poll;
use drogue_device::signal::{SignalFuture, SignalSlot, SignalWake};

#[test]
fn signal_then_wait_yields_value() {
    let mut s: SignalFuture<u32> = SignalFuture::new();
    assert_eq!(s.signal(5), SignalWake::Nothing);
    assert_eq!(s.poll_wait(), (Poll::Ready(5), SignalWake::Nothing));
    // taken: the next wait pends
    assert_eq!(s.poll_wait(), (Poll::Pending, SignalWake::RegisterWaiter));
}

#[test]
fn wait_then_signal_wakes_waiter() {
    let mut s: SignalFuture<u32> = SignalFuture::new();
    assert_eq!(s.poll_wait(), (Poll::Pending, SignalWake::RegisterWaiter));
    assert_eq!(s.signal(9), SignalWake::WakeWaiter);
    assert_eq!(s.poll_wait(), (Poll::Ready(9), SignalWake::Nothing));
}

#[test]
fn last_signal_wins() {
    let mut s: SignalFuture<&str> = SignalFuture::new();
    s.signal("first");
    s.signal("second");
    assert_eq!(s.poll_wait().0, Poll::Ready("second"));
}

#[test]
fn slot_acquire_release() {
    let mut slot: SignalSlot<u8> = SignalSlot::new();
    assert!(slot.free());
    assert!(slot.acquire());
    assert!(!slot.free());
    assert!(!slot.acquire());
    slot.release();
    assert!(slot.free());
    assert!(slot.acquire());
}

#[test]
fn slot_acquire_clears_old_value() {
    let mut slot: SignalSlot<u8> = SignalSlot::new();
    assert!(slot.acquire());
    slot.signal(3);
    slot.release();
    assert!(slot.acquire());
    assert_eq!(slot.poll_wait(), (Poll::Pending, SignalWake::RegisterWaiter));
    assert_eq!(slot.signal(4), SignalWake::WakeWaiter);
    assert_eq!(slot.poll_wait().0, Poll::Ready(4));
}

#[test]
fn slot_default_is_free() {
    let mut slot: SignalSlot<u8> = SignalSlot::default();
    assert!(slot.free());
    assert_eq!(slot.poll_wait(), (Poll::Pending, SignalWake::RegisterWaiter));
}
