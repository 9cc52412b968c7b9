//! The device liveness listener: at most one subscription to a device's
//! "is running" property, whose changes are republished as they come.

use vstd::prelude::*;

verus! {

/// Why a listener command was refused.
#[derive(Clone, Copy, Debug, PartialEq, Eq, Structural)]
pub enum ListenerError {
    /// The listener is registered already: unregister it first.
    AlreadyRegistered,
}

/// What the listener's state says of it.
pub struct ListenerView {
    /// The device whose callback is installed, where the listener is registered.
    pub device: Option<u32>,
    /// Whether that device was running at the last change.
    pub alive: bool,
}

/// What `register(device_id)` does to a listener in state `v`, and what it
/// returns.
pub open spec fn register_step(v: ListenerView, device_id: u32) -> (ListenerView, Result<
    (),
    ListenerError,
>) {
    if v.device is Some {
        (v, Err(ListenerError::AlreadyRegistered))
    } else {
        (ListenerView { device: Some(device_id), ..v }, Ok(()))
    }
}

/// What `unregister` does to a listener in state `v`, and what it returns:
/// the device whose callback is to be removed.
pub open spec fn unregister_step(v: ListenerView) -> (ListenerView, Option<u32>) {
    (ListenerView { device: None, ..v }, v.device)
}

/// Watches whether one audio device is running.
pub struct ActiveListener {
    device: Option<u32>,
    alive: bool,
}

impl ActiveListener {
    pub closed spec fn view(&self) -> ListenerView {
        ListenerView { device: self.device, alive: self.alive }
    }

    /// A listener that is not registered yet.
    pub fn new() -> (r: ActiveListener)
        ensures
            r.view() == (ListenerView { device: None, alive: false }),
    {
        ActiveListener { device: None, alive: false }
    }

    /// Registers the listener on device `device_id`, whose property callback
    /// is then to be installed. Refused where the listener is registered
    /// already, so that no event reaches two callbacks.
    pub fn register(&mut self, device_id: u32) -> (r: Result<(), ListenerError>)
        ensures
            (final(self).view(), r) == register_step(old(self).view(), device_id),
    {
        if self.device.is_some() {
            Err(ListenerError::AlreadyRegistered)
        } else {
            self.device = Some(device_id);
            Ok(())
        }
    }

    /// Unregisters the listener: hands back the device whose callback is to
    /// be removed, or `None` where it was not registered.
    pub fn unregister(&mut self) -> (r: Option<u32>)
        ensures
            (final(self).view(), r) == unregister_step(old(self).view()),
    {
        let previous = self.device;
        self.device = None;
        previous
    }

    /// Moves the listener to device `device_id`: unregisters it from the
    /// device it listened to, whose callback is handed back for removal, and
    /// registers it on the new one.
    pub fn switch_device(&mut self, device_id: u32) -> (r: Option<u32>)
        ensures
            r == old(self).view().device,
            final(self).view() == (ListenerView { device: Some(device_id), ..old(self).view() }),
    {
        let previous = self.unregister();
        let registered = self.register(device_id);
        assert(registered is Ok);
        previous
    }

    /// A liveness change reported by the system: kept and handed back to be
    /// published while registered, ignored otherwise.
    pub fn on_change(&mut self, alive: bool) -> (r: Option<bool>)
        ensures
            old(self).view().device is Some ==> r == Some(alive) && final(self).view() == (
            ListenerView { alive, ..old(self).view() }),
            old(self).view().device is None ==> r is None && final(self).view() == old(
                self,
            ).view(),
    {
        if self.device.is_some() {
            self.alive = alive;
            Some(alive)
        } else {
            None
        }
    }

    /// Whether the device was running at the last change.
    pub fn is_alive(&self) -> (r: bool)
        ensures
            r == self.view().alive,
    {
        self.alive
    }

    /// The device the listener is registered on.
    pub fn registered_device(&self) -> (r: Option<u32>)
        ensures
            r == self.view().device,
    {
        self.device
    }
}

/// Registering a listener twice without unregistering it between is refused,
/// whatever the second device, and leaves the first subscription in place.
pub proof fn lemma_register_twice(v: ListenerView, first: u32, second: u32)
    requires
        v.device is None,
    ensures
        register_step(v, first).1 is Ok,
        register_step(register_step(v, first).0, second).1 == Err::<(), ListenerError>(
            ListenerError::AlreadyRegistered,
        ),
        register_step(register_step(v, first).0, second).0.device == Some(first),
{
}

/// Unregistering between two registrations lets the second one through, and
/// hands back the first device's callback for removal.
pub proof fn lemma_register_after_unregister(v: ListenerView, first: u32, second: u32)
    requires
        v.device is None,
    ensures
        unregister_step(register_step(v, first).0).1 == Some(first),
        register_step(unregister_step(register_step(v, first).0).0, second).1 is Ok,
        register_step(unregister_step(register_step(v, first).0).0, second).0.device == Some(
            second,
        ),
{
}

} // verus!
