use drogue_device::actor::{Actor, ActorContext, ActorMessage, ActorTask};
use drogue_device::channel::{Poll, Wake};
use drogue_device::signal::SignalWake;

struct Greeter {
    name: &'static str,
}

impl Actor for Greeter {
    type Configuration = &'static str;
    type Message = &'static str;
    type Response = u32;

    fn on_mount(self, config: &'static str) -> Self {
        Greeter { name: config }
    }
}

fn mounted(size: usize) -> ActorContext<&'static str, u32> {
    let mut ctx = ActorContext::new(size);
    let actor = ctx.mount(Greeter { name: "" }, "greeter");
    assert_eq!(actor.name, "greeter");
    ctx
}

#[test]
fn mount_calls_on_mount_with_configuration() {
    let mut ctx: ActorContext<&'static str, u32> = ActorContext::new(1);
    assert!(!ctx.mounted());
    let actor = ctx.mount(Greeter { name: "before" }, "after");
    assert_eq!(actor.name, "after");
    assert!(ctx.mounted());
}

#[test]
fn actor_task_handles_one_message_at_a_time_and_answers_requests() {
    let mut ctx = mounted(2);
    let mut task = ActorTask::new();
    let mut req = ctx.process("req");
    let mut note = ctx.notify("note");
    req.poll(&mut ctx);
    note.poll(&mut ctx);
    task.started();
    assert_eq!(task.next_message(&mut ctx), (Poll::Ready("req"), Wake::WakeProducer));
    assert_eq!(task.reply_slot(), Some(0));
    assert_eq!(task.handled(&mut ctx, 11), SignalWake::WakeWaiter);
    assert_eq!(task.reply_slot(), None);
    assert_eq!(req.poll(&mut ctx).0, Poll::Ready(11));
    assert_eq!(task.next_message(&mut ctx), (Poll::Ready("note"), Wake::WakeProducer));
    assert_eq!(task.reply_slot(), None);
    assert_eq!(task.handled(&mut ctx, 0), SignalWake::Nothing);
    assert_eq!(task.next_message(&mut ctx), (Poll::Pending, Wake::RegisterConsumer));
}

#[test]
fn request_gets_the_actors_reply() {
    let mut ctx = mounted(2);
    let mut f = ctx.process("hello");
    assert_eq!(f.signal_slot(), 0);
    assert!(f.is_armed());
    // queued, no reply yet
    assert_eq!(f.poll(&mut ctx), (Poll::Pending, Wake::WakeConsumer, SignalWake::RegisterWaiter));
    // the actor takes it, with the slot to answer
    assert_eq!(ctx.next_message(), (Poll::Ready(("hello", Some(0))), Wake::WakeProducer));
    assert_eq!(f.poll(&mut ctx), (Poll::Pending, Wake::Nothing, SignalWake::RegisterWaiter));
    assert_eq!(ctx.reply(0, 42), SignalWake::WakeWaiter);
    assert_eq!(f.poll(&mut ctx), (Poll::Ready(42), Wake::Nothing, SignalWake::Nothing));
    assert!(!f.is_armed());
    // the slot is free again
    assert!(ctx.free_signal_available());
    let g = ctx.process("again");
    assert_eq!(g.signal_slot(), 0);
}

#[test]
fn reply_before_wait_is_kept() {
    let mut ctx = mounted(1);
    let mut f = ctx.process("x");
    let (_, w, _) = f.poll(&mut ctx);
    assert_eq!(w, Wake::WakeConsumer);
    let (m, _) = ctx.next_message();
    assert_eq!(m, Poll::Ready(("x", Some(0))));
    assert_eq!(ctx.reply(0, 7), SignalWake::WakeWaiter);
    assert_eq!(f.poll(&mut ctx).0, Poll::Ready(7));
}

#[test]
fn requests_take_lowest_free_slot() {
    let mut ctx = mounted(3);
    let a = ctx.process("a");
    let b = ctx.process("b");
    let c = ctx.process("c");
    assert_eq!((a.signal_slot(), b.signal_slot(), c.signal_slot()), (0, 1, 2));
    assert!(!ctx.free_signal_available());
}

#[test]
fn notify_completes_when_queued() {
    let mut ctx = mounted(1);
    let mut n = ctx.notify("note");
    assert!(n.is_armed());
    assert_eq!(n.poll(&mut ctx), (Poll::Ready(()), Wake::WakeConsumer));
    assert!(!n.is_armed());
    // the queue of one is full now
    let mut m = ctx.notify("later");
    assert_eq!(m.poll(&mut ctx), (Poll::Pending, Wake::RegisterProducer));
    assert!(m.is_armed());
    assert_eq!(ctx.next_message(), (Poll::Ready(("note", None)), Wake::WakeProducer));
    assert_eq!(m.poll(&mut ctx), (Poll::Ready(()), Wake::WakeConsumer));
    assert_eq!(ctx.next_message().0, Poll::Ready(("later", None)));
    assert_eq!(ctx.next_message(), (Poll::Pending, Wake::RegisterConsumer));
}

#[test]
fn request_waits_for_room() {
    let mut ctx = mounted(2);
    let mut n1 = ctx.notify("n1");
    let mut n2 = ctx.notify("n2");
    n1.poll(&mut ctx);
    n2.poll(&mut ctx);
    let mut f = ctx.process("req");
    assert_eq!(f.poll(&mut ctx), (Poll::Pending, Wake::RegisterProducer, SignalWake::Nothing));
    assert_eq!(ctx.next_message().0, Poll::Ready(("n1", None)));
    assert_eq!(f.poll(&mut ctx).1, Wake::WakeConsumer);
    assert_eq!(ctx.next_message().0, Poll::Ready(("n2", None)));
    assert_eq!(ctx.next_message().0, Poll::Ready(("req", Some(0))));
}

#[test]
fn mailbox_keeps_order_of_requests_and_notifications() {
    let mut ctx = mounted(4);
    let mut a = ctx.process("a");
    let mut n = ctx.notify("n");
    let mut b = ctx.process("b");
    a.poll(&mut ctx);
    n.poll(&mut ctx);
    b.poll(&mut ctx);
    assert_eq!(ctx.next_message().0, Poll::Ready(("a", Some(0))));
    assert_eq!(ctx.next_message().0, Poll::Ready(("n", None)));
    assert_eq!(ctx.next_message().0, Poll::Ready(("b", Some(1))));
    ctx.reply(1, 2);
    ctx.reply(0, 1);
    assert_eq!(b.poll(&mut ctx).0, Poll::Ready(2));
    assert_eq!(a.poll(&mut ctx).0, Poll::Ready(1));
}

#[test]
fn actor_message_constructors() {
    assert_eq!(ActorMessage::new_send(3), ActorMessage::Send(3));
    assert_eq!(ActorMessage::new_notify(), ActorMessage::Notify);
}

#[test]
fn new_context_has_queue_size() {
    let ctx: ActorContext<u8, u8> = ActorContext::new(4);
    assert_eq!(ctx.queue_len(), 4);
    assert!(ctx.free_signal_available());
}
