use drogue_device::button::{event_for_level, Button, ButtonEvent, FromButtonEvent};
use drogue_device::device::{Device, DeviceContext};
use std::cell::Cell;

struct Counter;

#[derive(Debug, PartialEq)]
enum CounterMessage {
    Increment,
}

impl FromButtonEvent<CounterMessage> for Counter {
    fn from(event: ButtonEvent) -> Option<CounterMessage> {
        match event {
            ButtonEvent::Pressed => Some(CounterMessage::Increment),
            ButtonEvent::Released => None,
        }
    }
}

#[test]
fn level_to_event() {
    assert_eq!(event_for_level(true), ButtonEvent::Released);
    assert_eq!(event_for_level(false), ButtonEvent::Pressed);
}

#[test]
fn button_without_handler_sends_nothing() {
    let button: Button<u8, u32> = Button::new(14);
    assert!(button.notification::<Counter, CounterMessage>(false).is_none());
    assert!(button.on_edge(true).is_none());
    assert_eq!(button.addressed(Some(CounterMessage::Increment)), None);
}

#[test]
fn button_notifies_handler_on_press() {
    let mut button: Button<u8, u32> = Button::new(14);
    button.on_mount(7);
    assert_eq!(
        button.notification::<Counter, CounterMessage>(false),
        Some((7, CounterMessage::Increment))
    );
    assert_eq!(button.notification::<Counter, CounterMessage>(true), None);
    button.on_mount(8);
    assert_eq!(button.notification::<Counter, CounterMessage>(false).map(|(h, _)| h), Some(8));
    assert_eq!(*button.pin_mut(), 14);
    assert_eq!(button.on_edge(true), Some((8, ButtonEvent::Released)));
    assert_eq!(button.addressed(Some(CounterMessage::Increment)), Some((8, CounterMessage::Increment)));
    assert_eq!(button.addressed::<CounterMessage>(None), None);
    assert_eq!(button.on_edge(false), Some((8, ButtonEvent::Pressed)));
}

struct Board {
    started_with: Cell<Option<u32>>,
}

impl Device<u32> for Board {
    fn start(&self, spawner: u32) {
        self.started_with.set(Some(spawner));
    }
}

#[test]
fn device_context_spawner() {
    let mut ctx: DeviceContext<&str, u32> = DeviceContext::new("device");
    assert_eq!(*ctx.device(), "device");
    assert!(!ctx.has_spawner());
    ctx.set_spawner(1);
    ctx.set_spawner(2);
    assert!(ctx.has_spawner());
    assert_eq!(*ctx.spawner(), 2);
    let other: DeviceContext<&str, u32> = DeviceContext::with_spawner(5, "d");
    assert_eq!(*other.spawner(), 5);
}

#[test]
fn device_context_starts_device_with_spawner() {
    let board = Board { started_with: Cell::new(None) };
    let ctx = DeviceContext::with_spawner(9u32, board);
    ctx.start();
    assert_eq!(ctx.device().started_with.get(), Some(9));
}
