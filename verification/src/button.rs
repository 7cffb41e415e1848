//! A button: it turns the level of a pin, read after each edge, into press
//! and release events, and each event into a message for its handler.
use vstd::prelude::*;

verus! {

/// What happened to the button.
#[derive(Clone, Copy, Debug, PartialEq, Eq, Structural)]
pub enum ButtonEvent {
    Pressed,
    Released,
}

/// Turns a button event into a message of type `M`, or into nothing when the
/// event is of no interest.
pub trait FromButtonEvent<M> {
    fn from(event: ButtonEvent) -> Option<M> where Self: Sized;
}

/// The event that a pin level read after an edge means: the pin is pulled
/// up, so a high level is a release and a low one a press.
pub fn event_for_level(is_high: bool) -> (e: ButtonEvent)
    ensures
        is_high ==> e == ButtonEvent::Released,
        !is_high ==> e == ButtonEvent::Pressed,
{
    if is_high {
        ButtonEvent::Released
    } else {
        ButtonEvent::Pressed
    }
}

/// A button on pin `P` whose events go to a handler reached through `H`.
pub struct Button<P, H> {
    pin: P,
    handler: Option<H>,
}

impl<P, H: Copy> Button<P, H> {
    /// The handler, once mounted.
    pub closed spec fn handler(&self) -> Option<H> {
        self.handler
    }

    /// The pin.
    pub closed spec fn pin(&self) -> P {
        self.pin
    }

    /// A button on `pin` with no handler yet.
    pub fn new(pin: P) -> (b: Self)
        ensures
            b.pin() == pin,
            b.handler() is None,
    {
        Button { pin, handler: None }
    }

    /// Mounts the button with the handler of its events, replacing any
    /// handler it had.
    pub fn on_mount(&mut self, handler: H)
        ensures
            final(self).handler() == Some(handler),
            final(self).pin() == old(self).pin(),
    {
        self.handler = Some(handler);
    }

    /// The pin, to wait for an edge and read its level.
    pub fn pin_mut(&mut self) -> (p: &mut P)
        ensures
            *p == old(self).pin(),
            final(self).pin() == *final(p),
            final(self).handler() == old(self).handler(),
    {
        &mut self.pin
    }

    /// After an edge with the pin at level `is_high`: the handler and the
    /// event, if the button has a handler.
    pub fn on_edge(&self, is_high: bool) -> (r: Option<(H, ButtonEvent)>)
        ensures
            self.handler() is None ==> r is None,
            self.handler() matches Some(h) ==> r == Some((h, if is_high {
                ButtonEvent::Released
            } else {
                ButtonEvent::Pressed
            })),
    {
        match self.handler {
            Some(handler) => Some((handler, event_for_level(is_high))),
            None => None,
        }
    }

    /// The handler and `message`, when the button has a handler and there is
    /// a message; `message` is what the handler's `FromButtonEvent` made of
    /// an event.
    pub fn addressed<M>(&self, message: Option<M>) -> (r: Option<(H, M)>)
        ensures
            self.handler() is None ==> r is None,
            message is None ==> r is None,
            self.handler() matches Some(h) ==> (message matches Some(m) ==> r == Some((h, m))),
    {
        match (self.handler, message) {
            (Some(handler), Some(m)) => Some((handler, m)),
            _ => None,
        }
    }

    /// After an edge with the pin at level `is_high`: the handler and the
    /// message to notify it with, if the button has a handler and `A` turns
    /// the event (see `on_edge`) into a message. With a handler, `A::from`
    /// is called with that event, and its result decides: a message is
    /// handed on with the handler, nothing gives nothing.
    pub fn notification<A: FromButtonEvent<M>, M>(&self, is_high: bool) -> (r: Option<(H, M)>)
        ensures
            self.handler() is None ==> r is None,
            r matches Some((h, _)) ==> self.handler() == Some(h),
            r matches Some((_, m)) ==> call_ensures(
                A::from,
                (if is_high {
                    ButtonEvent::Released
                } else {
                    ButtonEvent::Pressed
                },),
                Some(m),
            ),
            self.handler() is Some && r is None ==> call_ensures(
                A::from,
                (if is_high {
                    ButtonEvent::Released
                } else {
                    ButtonEvent::Pressed
                },),
                None::<M>,
            ),
    {
        match self.on_edge(is_high) {
            Some((_, event)) => self.addressed(A::from(event)),
            None => None,
        }
    }
}

} // verus!
