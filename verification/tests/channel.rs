use drogue_device::actor::ActorMessage;
use drogue_device::channel::{Channel, ChannelSend, MessageChannel, Poll, Wake};
use drogue_device::protocol::AtResponse;
use drogue_device::queue::{RequestQueue, ResponseQueue};

#[test]
fn channel_delivers_in_order() {
    let mut c: Channel<RequestQueue> = Channel::new();
    for slot in 0..4usize {
        let mut e = Some(ActorMessage::Send(slot));
        assert_eq!(c.poll_enqueue(&mut e), (Poll::Ready(()), Wake::WakeConsumer));
        assert!(e.is_none());
    }
    assert_eq!(c.len(), 4);
    for slot in 0..4usize {
        assert_eq!(
            c.poll_dequeue(),
            (Poll::Ready(ActorMessage::Send(slot)), Wake::WakeProducer)
        );
    }
    assert_eq!(c.len(), 0);
    assert_eq!(c.try_receive().poll(&mut c), (Poll::Ready(None), Wake::Nothing));
}

#[test]
fn channel_new_has_store_room() {
    let c: Channel<RequestQueue> = Channel::new();
    assert_eq!(c.max_len(), 4);
    assert!(c.ready());
    let r: Channel<ResponseQueue> = Channel::new();
    assert_eq!(r.max_len(), 2);
}

#[test]
fn channel_full_send_pends_and_keeps_value() {
    let mut c: Channel<RequestQueue> = Channel::with_capacity(2);
    let mut a = Some(ActorMessage::Send(0));
    let mut b = Some(ActorMessage::Notify);
    c.poll_enqueue(&mut a);
    c.poll_enqueue(&mut b);
    assert!(!c.ready());
    let mut extra = Some(ActorMessage::Send(3));
    assert_eq!(c.poll_enqueue(&mut extra), (Poll::Pending, Wake::RegisterProducer));
    assert_eq!(extra, Some(ActorMessage::Send(3)));
    assert_eq!(c.len(), 2);
    // room again once a value is taken
    assert_eq!(c.poll_dequeue(), (Poll::Ready(ActorMessage::Send(0)), Wake::WakeProducer));
    assert_eq!(c.poll_enqueue(&mut extra), (Poll::Ready(()), Wake::WakeConsumer));
    assert_eq!(c.poll_dequeue().0, Poll::Ready(ActorMessage::Notify));
    assert_eq!(c.poll_dequeue().0, Poll::Ready(ActorMessage::Send(3)));
}

#[test]
fn channel_empty_receive_pends() {
    let mut c: Channel<RequestQueue> = Channel::new();
    assert_eq!(c.poll_dequeue(), (Poll::Pending, Wake::RegisterConsumer));
    assert_eq!(c.poll_try_dequeue(), (Poll::Ready(None), Wake::Nothing));
}

#[test]
fn channel_try_receive_takes_oldest() {
    let mut c: Channel<RequestQueue> = Channel::new();
    let mut a = Some(ActorMessage::Notify);
    let mut b = Some(ActorMessage::Send(1));
    c.poll_enqueue(&mut a);
    c.poll_enqueue(&mut b);
    let recv = c.try_receive();
    assert_eq!(recv.poll(&mut c), (Poll::Ready(Some(ActorMessage::Notify)), Wake::WakeProducer));
    assert_eq!(recv.poll(&mut c), (Poll::Ready(Some(ActorMessage::Send(1))), Wake::WakeProducer));
    assert_eq!(recv.poll(&mut c), (Poll::Ready(None), Wake::Nothing));
}

#[test]
fn channel_send_future_completes_once_room() {
    let mut c: Channel<ResponseQueue> = Channel::new();
    let mut first = c.send(AtResponse::Okay);
    let mut second = ChannelSend::new(AtResponse::SendOk);
    let mut third = ChannelSend::new(AtResponse::Error);
    assert_eq!(first.poll(&mut c), (Poll::Ready(()), Wake::WakeConsumer));
    assert!(first.is_sent());
    assert_eq!(second.poll(&mut c), (Poll::Ready(()), Wake::WakeConsumer));
    assert_eq!(third.poll(&mut c), (Poll::Pending, Wake::RegisterProducer));
    assert!(!third.is_sent());
    let recv = c.receive();
    assert_eq!(recv.poll(&mut c).0, Poll::Ready(AtResponse::Okay));
    assert_eq!(third.poll(&mut c), (Poll::Ready(()), Wake::WakeConsumer));
    assert_eq!(recv.poll(&mut c).0, Poll::Ready(AtResponse::SendOk));
    assert_eq!(recv.poll(&mut c).0, Poll::Ready(AtResponse::Error));
    assert_eq!(recv.poll(&mut c), (Poll::Pending, Wake::RegisterConsumer));
}

#[test]
fn message_channel_sends_after_initialize() {
    let mut m: MessageChannel<RequestQueue> = MessageChannel::new(1);
    m.initialize();
    let mut s = m.send(ActorMessage::Notify);
    let r = m.receive();
    assert_eq!(s.poll(m.channel_mut()).0, Poll::Ready(()));
    assert_eq!(m.channel().len(), 1);
    let mut again = m.send(ActorMessage::Send(0));
    assert_eq!(again.poll(m.channel_mut()).0, Poll::Pending);
    assert_eq!(r.poll(m.channel_mut()).0, Poll::Ready(ActorMessage::Notify));
}

#[test]
fn channel_value_sent_comes_after_those_held() {
    let mut c: Channel<RequestQueue> = Channel::new();
    let mut a = Some(ActorMessage::Send(1));
    c.poll_enqueue(&mut a);
    let mut b = Some(ActorMessage::Notify);
    c.poll_enqueue(&mut b);
    assert_eq!(c.poll_dequeue().0, Poll::Ready(ActorMessage::Send(1)));
    let mut d = Some(ActorMessage::Send(2));
    c.poll_enqueue(&mut d);
    assert_eq!(c.poll_dequeue().0, Poll::Ready(ActorMessage::Notify));
    assert_eq!(c.poll_dequeue().0, Poll::Ready(ActorMessage::Send(2)));
    assert_eq!(c.poll_try_dequeue(), (Poll::Ready(None), Wake::Nothing));
}
