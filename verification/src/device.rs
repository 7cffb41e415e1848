//! The context of a device: the device's actors, and the spawner that starts
//! their tasks once it has been handed over.
use vstd::prelude::*;

verus! {

/// A device: it starts its actors' tasks with the spawner it is given.
pub trait Device<S> {
    fn start(&self, spawner: S);
}

/// A device `D` and, once set, the spawner `S` of its tasks.
pub struct DeviceContext<D, S> {
    device: D,
    spawner: Option<S>,
}

impl<D, S> DeviceContext<D, S> {
    /// The device.
    pub closed spec fn device_spec(&self) -> D {
        self.device
    }

    /// The spawner, once set.
    pub closed spec fn spawner_spec(&self) -> Option<S> {
        self.spawner
    }

    /// A context for `device`, with no spawner yet.
    pub fn new(device: D) -> (c: Self)
        ensures
            c.device_spec() == device,
            c.spawner_spec() is None,
    {
        DeviceContext { device, spawner: None }
    }

    /// A context for `device` whose tasks `spawner` starts.
    pub fn with_spawner(spawner: S, device: D) -> (c: Self)
        ensures
            c.device_spec() == device,
            c.spawner_spec() == Some(spawner),
    {
        DeviceContext { device, spawner: Some(spawner) }
    }

    /// The device.
    pub fn device(&self) -> (d: &D)
        ensures
            *d == self.device_spec(),
    {
        &self.device
    }

    /// Sets the spawner, replacing any spawner set before.
    pub fn set_spawner(&mut self, spawner: S)
        ensures
            final(self).spawner_spec() == Some(spawner),
            final(self).device_spec() == old(self).device_spec(),
    {
        self.spawner = Some(spawner);
    }

    /// Whether a spawner has been set.
    pub fn has_spawner(&self) -> (b: bool)
        ensures
            b == (self.spawner_spec() is Some),
    {
        self.spawner.is_some()
    }

    /// The spawner to start tasks with; it must have been set.
    pub fn spawner(&self) -> (s: &S)
        requires
            self.spawner_spec() is Some,
        ensures
            Some(*s) == self.spawner_spec(),
    {
        self.spawner.as_ref().unwrap()
    }
}

impl<D: Device<S>, S: Copy> DeviceContext<D, S> {
    /// Starts the device: hands the spawner, which must have been set, to
    /// the device's `start`.
    pub fn start(&self)
        requires
            self.spawner_spec() is Some,
        ensures
            call_ensures(D::start, (&self.device_spec(), self.spawner_spec().unwrap()), ()),
    {
        let spawner = *self.spawner.as_ref().unwrap();
        self.device.start(spawner)
    }
}

} // verus!
