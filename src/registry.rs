//! The registry of known devices and the decisions taken on each event.
//!
//! Every operation here is one step of the registry: the caller holds the
//! registry under one lock, performs the operating-system work around the
//! step (resolving a device, registering or releasing notification tokens,
//! publishing the returned event) and hands the results in as plain values.

use vstd::prelude::*;

use crate::device::{BluetoothDeviceInfo, RawDevice, record_of};
use crate::id_map::IdMap;

verus! {

/// The one event that the registry publishes: the set of devices changed and
/// consumers should read it again.
#[derive(Debug, Clone, Copy, PartialEq, Eq, Structural)]
pub enum BluetoothEvent {
    BluetoothDevicesChanged(),
}

/// A call into the device service failed; `code` is the status it reported.
#[derive(Debug, Clone, Copy, PartialEq, Eq, Structural)]
pub struct PlatformError {
    pub code: i32,
}

/// Tokens of the four session notifications; a registration that failed has
/// no token, and that notification is never delivered.
#[derive(Debug, Clone, Copy, PartialEq, Eq, Structural)]
pub struct SessionRegistrations {
    pub added: Option<i64>,
    pub updated: Option<i64>,
    pub removed: Option<i64>,
    pub enumeration_completed: Option<i64>,
}

/// Tokens of the two notifications held for one device.
#[derive(Debug, Clone, Copy, PartialEq, Eq, Structural)]
pub struct DeviceRegistrations {
    pub connection_status: Option<i64>,
    pub name: Option<i64>,
}

/// The registry as a mathematical value.
pub struct RegistryView<H> {
    pub known: Map<Seq<char>, BluetoothDeviceInfo<H>>,
    pub subscriptions: Map<Seq<char>, DeviceRegistrations>,
    pub enumeration_completed: bool,
    pub session: Option<SessionRegistrations>,
}

/// The event due after a change of the device set: one once the initial
/// enumeration has completed, none before.
pub open spec fn change_event(enumeration_completed: bool) -> Option<BluetoothEvent> {
    if enumeration_completed {
        Some(BluetoothEvent::BluetoothDevicesChanged())
    } else {
        None
    }
}

impl<H> RegistryView<H> {
    /// The registry after a device is added or added again under `id`.
    pub open spec fn added(self, id: Seq<char>, raw: RawDevice<H>, regs: DeviceRegistrations) -> Self {
        RegistryView {
            known: self.known.insert(id, record_of(raw)),
            subscriptions: self.subscriptions.insert(id, regs),
            ..self
        }
    }

    /// The registry after a device's attributes changed: its record is
    /// stored again under the id that it reports.
    pub open spec fn updated(self, raw: RawDevice<H>) -> Self {
        RegistryView { known: self.known.insert(raw.id@, record_of(raw)), ..self }
    }

    /// The registry after `id` is removed.
    pub open spec fn removed(self, id: Seq<char>) -> Self {
        RegistryView {
            known: self.known.remove(id),
            subscriptions: self.subscriptions.remove(id),
            ..self
        }
    }

    /// The registry once the initial enumeration has completed.
    pub open spec fn completed(self) -> Self {
        RegistryView { enumeration_completed: true, ..self }
    }
}

/// What adding a device leaves for the caller: the record and the tokens
/// that it replaced, which the caller releases, and the event to publish.
pub struct AddOutcome<H> {
    pub previous: Option<BluetoothDeviceInfo<H>>,
    pub stale: Option<DeviceRegistrations>,
    pub event: Option<BluetoothEvent>,
}

/// What removing a device leaves for the caller: the removed record and its
/// tokens, to be released through the record's handle (connection status
/// first, then name), and the event to publish.
pub struct RemoveOutcome<H> {
    pub device: Option<BluetoothDeviceInfo<H>>,
    pub registrations: Option<DeviceRegistrations>,
    pub event: Option<BluetoothEvent>,
}

/// One device to let go of at shutdown: its record, whose handle the tokens
/// were registered through, and the tokens held for it.
pub struct DeviceRelease<H> {
    pub id: String,
    pub device: BluetoothDeviceInfo<H>,
    pub registrations: Option<DeviceRegistrations>,
}

/// Everything the registry held, for the caller to unregister at shutdown.
pub struct Shutdown<H> {
    pub devices: Vec<DeviceRelease<H>>,
    pub session: Option<SessionRegistrations>,
}

/// The known devices, the tokens held for each, whether the initial
/// enumeration has completed, and the session's own tokens once watching.
pub struct BluetoothManager<H> {
    known_items: IdMap<BluetoothDeviceInfo<H>>,
    enumeration_completed: bool,
    session: Option<SessionRegistrations>,
    known_items_registration_handlers: IdMap<DeviceRegistrations>,
}

impl<H> View for BluetoothManager<H> {
    type V = RegistryView<H>;

    closed spec fn view(&self) -> RegistryView<H> {
        RegistryView {
            known: self.known_items@,
            subscriptions: self.known_items_registration_handlers@,
            enumeration_completed: self.enumeration_completed,
            session: self.session,
        }
    }
}

impl<H> BluetoothManager<H> {
    /// Both maps are well formed, and tokens are held only for known devices.
    pub closed spec fn wf(&self) -> bool {
        &&& self.known_items.wf()
        &&& self.known_items_registration_handlers.wf()
        &&& self.known_items_registration_handlers@.dom().subset_of(self.known_items@.dom())
    }

    /// A registry that knows no device, is not watching, and has not seen the
    /// initial enumeration complete.
    pub fn new() -> (r: Self)
        ensures
            r.wf(),
            r@.known == Map::<Seq<char>, BluetoothDeviceInfo<H>>::empty(),
            r@.subscriptions == Map::<Seq<char>, DeviceRegistrations>::empty(),
            !r@.enumeration_completed,
            r@.session is None,
    {
        BluetoothManager {
            known_items: IdMap::new(),
            enumeration_completed: false,
            session: None,
            known_items_registration_handlers: IdMap::new(),
        }
    }

    /// Whether a session watcher is in place.
    pub fn is_watching(&self) -> (r: bool)
        ensures
            r == self@.session is Some,
    {
        self.session.is_some()
    }

    /// Records the session watcher. Watching twice is a no-op that succeeds,
    /// whatever `watcher` holds; otherwise a watcher that could not be set up
    /// is reported and the registry stays as it was.
    pub fn register_for_devices(
        &mut self,
        watcher: Result<SessionRegistrations, PlatformError>,
    ) -> (r: Result<(), PlatformError>)
        ensures
            old(self)@.session is Some ==> r is Ok && final(self)@ == old(self)@,
            old(self)@.session is None ==> match watcher {
                Ok(s) => r is Ok && final(self)@ == (RegistryView { session: Some(s), ..old(self)@ }),
                Err(e) => r == Err::<(), PlatformError>(e) && final(self)@ == old(self)@,
            },
            final(self).wf() == old(self).wf(),
    {
        if self.session.is_some() {
            return Ok(());
        }
        match watcher {
            Ok(s) => {
                self.session = Some(s);
                Ok(())
            },
            Err(e) => Err(e),
        }
    }

    /// Stores the record of `raw` under `id`, with the tokens just registered
    /// for it. The record and tokens that it replaces are handed back for the
    /// caller to release; the event is due only once the initial enumeration
    /// has completed.
    pub fn add_device(&mut self, id: String, raw: RawDevice<H>, regs: DeviceRegistrations) -> (r:
        AddOutcome<H>)
        requires
            old(self).wf(),
        ensures
            final(self).wf(),
            final(self)@ == old(self)@.added(id@, raw, regs),
            r.previous == (if old(self)@.known.contains_key(id@) {
                Some(old(self)@.known[id@])
            } else {
                None::<BluetoothDeviceInfo<H>>
            }),
            r.stale == (if old(self)@.subscriptions.contains_key(id@) {
                Some(old(self)@.subscriptions[id@])
            } else {
                None::<DeviceRegistrations>
            }),
            r.event == change_event(old(self)@.enumeration_completed),
    {
        let info = BluetoothDeviceInfo::from_raw(raw);
        let stale = self.known_items_registration_handlers.insert(id.clone(), regs);
        let previous = self.known_items.insert(id, info);
        let event = if self.enumeration_completed {
            Some(BluetoothEvent::BluetoothDevicesChanged())
        } else {
            None
        };
        AddOutcome { previous, stale, event }
    }

    /// Takes `key` out of the device map and out of the token map. The
    /// removed record and its tokens are handed back for the caller to
    /// release; the event is due once the initial enumeration has completed,
    /// whether or not `key` was known.
    pub fn remove_device(&mut self, key: String) -> (r: RemoveOutcome<H>)
        requires
            old(self).wf(),
        ensures
            final(self).wf(),
            final(self)@ == old(self)@.removed(key@),
            r.device == (if old(self)@.known.contains_key(key@) {
                Some(old(self)@.known[key@])
            } else {
                None::<BluetoothDeviceInfo<H>>
            }),
            r.registrations == (if old(self)@.subscriptions.contains_key(key@) {
                Some(old(self)@.subscriptions[key@])
            } else {
                None::<DeviceRegistrations>
            }),
            r.event == change_event(old(self)@.enumeration_completed),
    {
        let device = self.known_items.remove(&key);
        let registrations = self.known_items_registration_handlers.remove(&key);
        let event = if self.enumeration_completed {
            Some(BluetoothEvent::BluetoothDevicesChanged())
        } else {
            None
        };
        RemoveOutcome { device, registrations, event }
    }

    /// Notes that the initial enumeration has completed. The event is due
    /// every time, also when the flag was already set.
    pub fn set_enumeration_completed(&mut self) -> (r: BluetoothEvent)
        ensures
            final(self)@ == old(self)@.completed(),
            final(self).wf() == old(self).wf(),
            r == BluetoothEvent::BluetoothDevicesChanged(),
    {
        self.enumeration_completed = true;
        BluetoothEvent::BluetoothDevicesChanged()
    }

    /// Stores the record of a device whose connection state or name changed
    /// under the id that it reports, leaving the tokens as they are.
    pub fn update_device(&mut self, raw: RawDevice<H>) -> (r: Option<BluetoothEvent>)
        requires
            old(self).wf(),
        ensures
            final(self).wf(),
            final(self)@ == old(self)@.updated(raw),
            r == change_event(old(self)@.enumeration_completed),
    {
        let info = BluetoothDeviceInfo::from_raw(raw);
        let id = info.id.clone();
        let _previous = self.known_items.insert(id, info);
        if self.enumeration_completed {
            Some(BluetoothEvent::BluetoothDevicesChanged())
        } else {
            None
        }
    }

    /// Empties the registry and hands back every known device with the
    /// tokens held for it, and the session's tokens, so that all of them can
    /// be unregistered. The enumeration flag is kept: it is never reset.
    pub fn shutdown(&mut self) -> (r: Shutdown<H>)
        requires
            old(self).wf(),
        ensures
            final(self).wf(),
            final(self)@ == (RegistryView {
                known: Map::empty(),
                subscriptions: Map::empty(),
                session: None,
                ..old(self)@
            }),
            r.session == old(self)@.session,
            r.devices@.len() == old(self)@.known.dom().len(),
            forall|i: int, j: int|
                0 <= i < r.devices@.len() && 0 <= j < r.devices@.len() && i != j
                    ==> #[trigger] r.devices@[i].id@ != #[trigger] r.devices@[j].id@,
            forall|i: int|
                0 <= i < r.devices@.len() ==> {
                    let d = #[trigger] r.devices@[i];
                    &&& old(self)@.known.contains_key(d.id@)
                    &&& old(self)@.known[d.id@] == d.device
                    &&& d.registrations == if old(self)@.subscriptions.contains_key(d.id@) {
                        Some(old(self)@.subscriptions[d.id@])
                    } else {
                        None::<DeviceRegistrations>
                    }
                },
            forall|k: Seq<char>| #[trigger]
                old(self)@.known.contains_key(k) ==> exists|i: int|
                    0 <= i < r.devices@.len() && #[trigger] r.devices@[i].id@ == k,
    {
        let ghost old_known = self.known_items@;
        let ghost old_subs = self.known_items_registration_handlers@;
        let mut remaining = self.known_items.take_all();
        let ghost all = remaining@;
        let mut devices: Vec<DeviceRelease<H>> = Vec::new();
        while remaining.len() > 0
            invariant
                self.known_items.wf(),
                self.known_items@ == Map::<Seq<char>, BluetoothDeviceInfo<H>>::empty(),
                self.known_items_registration_handlers.wf(),
                self.enumeration_completed == old(self).enumeration_completed,
                self.session == old(self).session,
                crate::id_map::lists_exactly(all, old_known),
                old_subs.dom().subset_of(old_known.dom()),
                remaining@ == all.subrange(0, remaining@.len() as int),
                devices@.len() + remaining@.len() == all.len(),
                forall|j: int|
                    0 <= j < devices@.len() ==> {
                        let d = #[trigger] devices@[j];
                        let e = all[all.len() - 1 - j];
                        &&& d.id@ == e.0@
                        &&& d.device == e.1
                        &&& d.registrations == if old_subs.contains_key(e.0@) {
                            Some(old_subs[e.0@])
                        } else {
                            None::<DeviceRegistrations>
                        }
                    },
                forall|k: Seq<char>| #[trigger]
                    self.known_items_registration_handlers@.contains_key(k) ==> old_subs.contains_key(k),
                forall|k: Seq<char>| #[trigger]
                    self.known_items_registration_handlers@.contains_key(k)
                        ==> self.known_items_registration_handlers@[k] == old_subs[k],
                forall|m: int|
                    remaining@.len() <= m < all.len() ==> !self.known_items_registration_handlers@.contains_key(
                        #[trigger] all[m].0@,
                    ),
                forall|m: int|
                    0 <= m < remaining@.len() ==> (self.known_items_registration_handlers@.contains_key(
                        #[trigger] all[m].0@,
                    ) == old_subs.contains_key(all[m].0@)),
            decreases remaining@.len(),
        {
            let ghost n = remaining@.len() as int;
            let (id, device) = remaining.pop().unwrap();
            proof {
                assert(all[n - 1].0@ == id@);
                assert forall|m: int| 0 <= m < n - 1 implies all[m].0@ != id@ by {
                    assert(all[m].0@ != all[n - 1].0@);
                }
            }
            let registrations = self.known_items_registration_handlers.remove(&id);
            devices.push(DeviceRelease { id, device, registrations });
            proof {
                assert(remaining@ =~= all.subrange(0, n - 1));
            }
        }
        proof {
            assert forall|k: Seq<char>|
                !#[trigger] self.known_items_registration_handlers@.contains_key(k) by {
                if self.known_items_registration_handlers@.contains_key(k) {
                    assert(old_known.contains_key(k));
                    let m = choose|m: int| 0 <= m < all.len() && #[trigger] all[m].0@ == k;
                }
            }
            assert(self.known_items_registration_handlers@ =~= Map::<
                Seq<char>,
                DeviceRegistrations,
            >::empty());
            assert forall|i: int| 0 <= i < devices@.len() implies {
                let d = #[trigger] devices@[i];
                &&& old_known.contains_key(d.id@)
                &&& old_known[d.id@] == d.device
            } by {
                assert(all[all.len() - 1 - i].0@ == devices@[i].id@);
            }
            assert forall|i: int, j: int|
                0 <= i < devices@.len() && 0 <= j < devices@.len() && i != j
                    implies #[trigger] devices@[i].id@ != #[trigger] devices@[j].id@ by {
                assert(all[all.len() - 1 - i].0@ != all[all.len() - 1 - j].0@);
            }
            assert forall|k: Seq<char>| #[trigger] old_known.contains_key(k) implies exists|i: int|
                0 <= i < devices@.len() && #[trigger] devices@[i].id@ == k by {
                let m = choose|m: int| 0 <= m < all.len() && #[trigger] all[m].0@ == k;
                assert(devices@[all.len() - 1 - m].id@ == k);
            }
        }
        let session = self.session;
        self.session = None;
        Shutdown { devices, session }
    }

    /// Active discovery is not offered: this succeeds and changes nothing.
    pub fn discover(&mut self) -> (r: Result<(), PlatformError>)
        ensures
            r is Ok,
            final(self)@ == old(self)@,
            final(self).wf() == old(self).wf(),
    {
        Ok(())
    }

    /// Active discovery is not offered: this succeeds and changes nothing.
    pub fn stop_discovery(&mut self) -> (r: Result<(), PlatformError>)
        ensures
            r is Ok,
            final(self)@ == old(self)@,
            final(self).wf() == old(self).wf(),
    {
        Ok(())
    }

    /// The known devices.
    pub fn known_items(&self) -> (r: &IdMap<BluetoothDeviceInfo<H>>)
        requires
            self.wf(),
        ensures
            r.wf(),
            r@ == self@.known,
    {
        &self.known_items
    }

    /// The tokens held for each known device.
    pub fn registrations(&self) -> (r: &IdMap<DeviceRegistrations>)
        requires
            self.wf(),
        ensures
            r.wf(),
            r@ == self@.subscriptions,
    {
        &self.known_items_registration_handlers
    }

    /// Whether the initial enumeration has completed.
    pub fn enumeration_completed(&self) -> (r: bool)
        ensures
            r == self@.enumeration_completed,
    {
        self.enumeration_completed
    }

    /// The session's own tokens, once watching.
    pub fn session(&self) -> (r: Option<SessionRegistrations>)
        ensures
            r == self@.session,
    {
        self.session
    }
}

} // verus!
