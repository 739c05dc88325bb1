//! The devices that can be updated: their kind, where they are connected,
//! and the list of those that a scan found fit to offer.

use crate::messages::{Message, MessageView, PageMessages, PageMessagesView};
use crate::version::VersionNumber;
use vstd::prelude::*;

verus! {

/// The two models of the mixer, and everything else.
#[derive(Clone, Copy, Debug, PartialEq, Eq, Structural, Hash)]
pub enum DeviceType {
    Full,
    Mini,
    Unknown,
}

/// Where a device is connected. Two scans that find a device with the same
/// bus number, address and identifier have found the same connection.
#[derive(Clone, Debug, PartialEq, Eq, Hash)]
pub struct DeviceLocal {
    pub bus_number: u8,
    pub address: u8,
    pub identifier: Option<String>,
}

/// What a `DeviceLocal` holds, as plain values.
pub ghost struct DeviceLocalView {
    pub bus_number: u8,
    pub address: u8,
    pub identifier: Option<Seq<char>>,
}

impl View for DeviceLocal {
    type V = DeviceLocalView;

    open spec fn view(&self) -> DeviceLocalView {
        DeviceLocalView {
            bus_number: self.bus_number,
            address: self.address,
            identifier: match self.identifier {
                Some(text) => Some(text@),
                None => None,
            },
        }
    }
}

/// A device that can be chosen for an update.
#[derive(Clone, Debug, PartialEq, Eq)]
pub struct Device {
    pub device_type: DeviceType,
    pub device_serial: String,
    pub version: VersionNumber,
    pub goxlr_device: DeviceLocal,
}

/// What a `Device` holds, as plain values.
pub ghost struct DeviceView {
    pub device_type: DeviceType,
    pub device_serial: Seq<char>,
    pub version: VersionNumber,
    pub goxlr_device: DeviceLocalView,
}

impl View for Device {
    type V = DeviceView;

    open spec fn view(&self) -> DeviceView {
        DeviceView {
            device_type: self.device_type,
            device_serial: self.device_serial@,
            version: self.version,
            goxlr_device: self.goxlr_device@,
        }
    }
}

/// The views of a list of devices, in order.
pub open spec fn device_views(devices: Seq<Device>) -> Seq<DeviceView> {
    devices.map_values(|d: Device| d@)
}

impl Device {
    /// A second value that describes the same device.
    pub fn duplicate(&self) -> (copy: Device)
        ensures
            copy@ == self@,
    {
        Device {
            device_type: self.device_type,
            device_serial: self.device_serial.clone(),
            version: self.version,
            goxlr_device: self.goxlr_device.duplicate(),
        }
    }
}

impl DeviceLocal {
    /// Whether `self` and `other` name the same connection.
    pub fn same_connection(&self, other: &DeviceLocal) -> (same: bool)
        ensures
            same == (self@ == other@),
    {
        if self.bus_number != other.bus_number || self.address != other.address {
            return false;
        }
        match &self.identifier {
            Some(mine) => match &other.identifier {
                Some(theirs) => {
                    let same = *mine == *theirs;
                    assert(same == (self@.identifier == other@.identifier));
                    same
                },
                None => false,
            },
            None => match &other.identifier {
                Some(_) => false,
                None => true,
            },
        }
    }

    /// A second value that names the same connection.
    pub fn duplicate(&self) -> (copy: DeviceLocal)
        ensures
            copy@ == self@,
    {
        DeviceLocal {
            bus_number: self.bus_number,
            address: self.address,
            identifier: match &self.identifier {
                Some(text) => Some(text.clone()),
                None => None,
            },
        }
    }
}

/// What querying one connected device brought back. A query that failed
/// leaves its field empty; `kind` is what the device's descriptor says it is.
#[derive(Clone, Debug, PartialEq, Eq)]
pub struct DeviceProbe {
    pub kind: Option<DeviceType>,
    pub serial: Option<String>,
    pub version: Option<VersionNumber>,
}

/// Whether a probed device is offered for an update: it must be a known
/// model, and have answered with a serial number that is not empty and with
/// its firmware version.
pub open spec fn selectable(probe: DeviceProbe) -> bool {
    &&& probe.kind is Some
    &&& probe.kind->0 != DeviceType::Unknown
    &&& probe.serial is Some
    &&& probe.serial->0@.len() > 0
    &&& probe.version is Some
}

/// Whether a device whose descriptor gave `kind` is asked for its serial
/// number: only a known model is.
pub open spec fn asks_serial(kind: Option<DeviceType>) -> bool {
    kind is Some && kind->0 != DeviceType::Unknown
}

/// Whether a device is asked for its firmware version: only one that was
/// asked for its serial number and answered with one that is not empty.
pub open spec fn asks_version(kind: Option<DeviceType>, serial: Option<String>) -> bool {
    asks_serial(kind) && serial is Some && serial->0@.len() > 0
}

/// Whether to ask a device for its serial number, given what its
/// descriptor says it is. A device that is not asked will not be offered.
pub fn serial_wanted(kind: Option<DeviceType>) -> (wanted: bool)
    ensures
        wanted == asks_serial(kind),
{
    match kind {
        Some(DeviceType::Full) => true,
        Some(DeviceType::Mini) => true,
        _ => false,
    }
}

/// Whether to ask a device for its firmware version, given what its
/// descriptor says it is and what it gave as its serial number. A device
/// that is not asked will not be offered.
pub fn version_wanted(kind: Option<DeviceType>, serial: &Option<String>) -> (wanted: bool)
    ensures
        wanted == asks_version(kind, *serial),
{
    if !serial_wanted(kind) {
        return false;
    }
    match serial {
        Some(text) => text.as_str().unicode_len() > 0,
        None => false,
    }
}

/// A device that is offered was asked every question: leaving out the
/// questions that `serial_wanted` and `version_wanted` decline never keeps
/// a device from the list.
pub proof fn lemma_offered_was_asked(probe: DeviceProbe)
    ensures
        selectable(probe) ==> asks_serial(probe.kind) && asks_version(probe.kind, probe.serial),
        !asks_serial(probe.kind) ==> !selectable(probe),
        !asks_version(probe.kind, probe.serial) ==> !selectable(probe),
{
}

/// The device that a selectable probe at `local` describes.
pub open spec fn described(local: DeviceLocalView, probe: DeviceProbe) -> DeviceView
    recommends
        selectable(probe),
{
    DeviceView {
        device_type: probe.kind->0,
        device_serial: probe.serial->0@,
        version: probe.version->0,
        goxlr_device: local,
    }
}

/// Turns the answers of one device into an entry of the device list, or
/// into nothing where the device is not to be offered.
pub fn describe_device(local: DeviceLocal, probe: DeviceProbe) -> (found: Option<Device>)
    ensures
        found is Some == selectable(probe),
        selectable(probe) ==> found->0@ == described(local@, probe),
{
    let device_type = match probe.kind {
        Some(DeviceType::Full) => DeviceType::Full,
        Some(DeviceType::Mini) => DeviceType::Mini,
        _ => {
            return None;
        },
    };
    let device_serial = match probe.serial {
        Some(serial) => serial,
        None => {
            return None;
        },
    };
    if device_serial.as_str().unicode_len() == 0 {
        return None;
    }
    match probe.version {
        Some(version) => Some(
            Device { device_type, device_serial, version, goxlr_device: local },
        ),
        None => None,
    }
}

/// The device list that a scan's probes give: the selectable ones, in the
/// order in which they were found.
pub open spec fn scan_result(found: Seq<(DeviceLocal, DeviceProbe)>) -> Seq<DeviceView>
    decreases found.len(),
{
    if found.len() == 0 {
        Seq::empty()
    } else {
        let rest = scan_result(found.drop_last());
        let (local, probe) = found.last();
        if selectable(probe) {
            rest.push(described(local@, probe))
        } else {
            rest
        }
    }
}

/// Builds the device list from everything a scan found.
pub fn list_devices(found: Vec<(DeviceLocal, DeviceProbe)>) -> (devices: Vec<Device>)
    ensures
        device_views(devices@) == scan_result(found@),
{
    let ghost all = found@;
    assert(all.len() == found.len());
    let mut devices: Vec<Device> = Vec::new();
    let mut found = found;
    let mut pending: Vec<(DeviceLocal, DeviceProbe)> = Vec::new();
    // Reverse once so that entries can be taken from the end in scan order.
    while found.len() > 0
        invariant
            found@.len() + pending@.len() == all.len(),
            all.len() <= usize::MAX,
            forall|i: int| 0 <= i < found@.len() ==> found@[i] == all[i],
            forall|j: int|
                0 <= j < pending@.len() ==> pending@[j] == all[all.len() - 1 - j],
        decreases found@.len(),
    {
        let entry = found.pop().unwrap();
        pending.push(entry);
    }
    let mut taken: usize = 0;
    assert(all.take(0) =~= Seq::empty());
    assert(device_views(devices@) =~= scan_result(all.take(0)));
    while pending.len() > 0
        invariant
            taken + pending@.len() == all.len(),
            all.len() <= usize::MAX,
            forall|j: int|
                0 <= j < pending@.len() ==> pending@[j] == all[all.len() - 1 - j],
            device_views(devices@) == scan_result(all.take(taken as int)),
        decreases pending@.len(),
    {
        let (local, probe) = pending.pop().unwrap();
        proof {
            let next = all.take(taken as int + 1);
            assert(next.drop_last() =~= all.take(taken as int));
            assert(next.last() == all[taken as int]);
            assert((local, probe) == all[taken as int]);
        }
        let ghost before = devices@;
        match describe_device(local, probe) {
            Some(device) => {
                devices.push(device);
                assert(device_views(devices@) =~= device_views(before).push(device@));
            },
            None => {},
        }
        taken = taken + 1;
    }
    assert(all.take(taken as int) =~= all);
    devices
}

/// The message that hands the device list of a scan to the user
/// interface.
pub fn device_list_message(found: Vec<(DeviceLocal, DeviceProbe)>) -> (message: Message)
    ensures
        message@ == MessageView::PageMessage(
            PageMessagesView::UpdateDeviceList(scan_result(found@)),
        ),
{
    Message::PageMessage(PageMessages::UpdateDeviceList(list_devices(found)))
}

/// Whether no connection occurs twice.
pub open spec fn no_duplicates(connections: Seq<DeviceLocalView>) -> bool {
    forall|i: int, j: int| 0 <= i < j < connections.len() ==> connections[i] != connections[j]
}

/// What registering `key` makes of the registered connections: nothing new
/// where the connection is among them, one more slot at the end otherwise.
pub open spec fn with_connection(connections: Seq<DeviceLocalView>, key: DeviceLocalView) -> Seq<
    DeviceLocalView,
> {
    if connections.contains(key) {
        connections
    } else {
        connections.push(key)
    }
}

/// The slot of `key` among the connections: the first that holds it.
pub open spec fn slot_of(connections: Seq<DeviceLocalView>, key: DeviceLocalView) -> int {
    connections.index_of(key)
}

/// The open connections, by the place at which each device is connected.
/// A connection keeps the slot it was first given, so whatever is kept per
/// slot (an open handle) is found again by a later scan.
pub struct HandleRegistry {
    keys: Vec<DeviceLocal>,
}

impl HandleRegistry {
    /// The connections that are registered, by slot.
    pub closed spec fn connections(&self) -> Seq<DeviceLocalView> {
        self.keys@.map_values(|k: DeviceLocal| k@)
    }

    #[verifier::type_invariant]
    spec fn distinct(self) -> bool {
        no_duplicates(self.connections())
    }

    /// No connection holds two slots. This holds of every registry.
    pub open spec fn well_formed(&self) -> bool {
        no_duplicates(self.connections())
    }

    /// An empty registry.
    pub fn new() -> (registry: HandleRegistry)
        ensures
            registry.connections() == Seq::<DeviceLocalView>::empty(),
            registry.well_formed(),
    {
        let registry = HandleRegistry { keys: Vec::new() };
        assert(registry.connections() =~= Seq::<DeviceLocalView>::empty());
        registry
    }

    /// The number of slots in use.
    pub fn len(&self) -> (count: usize)
        ensures
            count == self.connections().len(),
            self.well_formed(),
    {
        proof {
            use_type_invariant(self);
        }
        self.keys.len()
    }

    /// The slot of `key`, if the connection is registered.
    pub fn find(&self, key: &DeviceLocal) -> (slot: Option<usize>)
        ensures
            self.well_formed(),
            match slot {
                Some(index) => index < self.connections().len() && self.connections()[index as int]
                    == key@ && forall|i: int|
                    0 <= i < index ==> self.connections()[i] != key@,
                None => !self.connections().contains(key@),
            },
    {
        proof {
            use_type_invariant(self);
        }
        let mut index: usize = 0;
        while index < self.keys.len()
            invariant
                index <= self.keys@.len(),
                self.well_formed(),
                self.connections().len() == self.keys@.len(),
                forall|i: int| 0 <= i < index ==> self.connections()[i] != key@,
            decreases self.keys@.len() - index,
        {
            if self.keys[index].same_connection(key) {
                return Some(index);
            }
            index = index + 1;
        }
        None
    }

    /// Gives `key` a slot. A connection that is registered keeps its slot and
    /// the registry stays as it is; a new one gets the next free slot. The
    /// second result says whether the slot is new.
    pub fn register(&mut self, key: DeviceLocal) -> (slot: (usize, bool))
        ensures
            old(self).well_formed(),
            final(self).well_formed(),
            final(self).connections() == with_connection(old(self).connections(), key@),
            slot.0 == slot_of(final(self).connections(), key@),
            slot.0 < final(self).connections().len(),
            final(self).connections()[slot.0 as int] == key@,
            slot.1 == !old(self).connections().contains(key@),
    {
        proof {
            use_type_invariant(&*self);
        }
        let ghost before = self.connections();
        match self.find(&key) {
            Some(index) => {
                proof {
                    lemma_slot_of(before, key@, index as int);
                }
                (index, false)
            },
            None => {
                let index = self.keys.len();
                proof {
                    lemma_register_is_idempotent(before, key@);
                }
                // The keys leave the registry for the moment of the change, so
                // that it never holds a list that is half made.
                let mut keys: Vec<DeviceLocal> = Vec::new();
                assert(keys@.map_values(|k: DeviceLocal| k@) =~= Seq::<DeviceLocalView>::empty());
                std::mem::swap(&mut self.keys, &mut keys);
                keys.push(key);
                assert(keys@.map_values(|k: DeviceLocal| k@) =~= before.push(key@));
                self.keys = keys;
                proof {
                    lemma_slot_of(self.connections(), key@, index as int);
                }
                (index, true)
            },
        }
    }
}

/// Among connections that are all different, the slot of one is the only
/// place that holds it.
proof fn lemma_slot_of(connections: Seq<DeviceLocalView>, key: DeviceLocalView, index: int)
    requires
        no_duplicates(connections),
        0 <= index < connections.len(),
        connections[index] == key,
    ensures
        slot_of(connections, key) == index,
        connections.contains(key),
{
    assert(connections.contains(key));
    let found = connections.index_of(key);
    assert(0 <= found < connections.len() && connections[found] == key);
    if found < index {
        assert(connections[found] != connections[index]);
    } else if index < found {
        assert(connections[index] != connections[found]);
    }
}

/// Registering a connection twice is the same as registering it once: the
/// second time changes nothing and finds the slot that the first gave.
pub proof fn lemma_register_is_idempotent(connections: Seq<DeviceLocalView>, key: DeviceLocalView)
    requires
        no_duplicates(connections),
    ensures
        no_duplicates(with_connection(connections, key)),
        with_connection(connections, key).contains(key),
        with_connection(with_connection(connections, key), key) == with_connection(
            connections,
            key,
        ),
        forall|other: DeviceLocalView| #[trigger]
            connections.contains(other) ==> slot_of(with_connection(connections, key), other)
                == slot_of(connections, other),
{
    let once = with_connection(connections, key);
    if !connections.contains(key) {
        assert(once[connections.len() as int] == key);
        assert forall|i: int, j: int| 0 <= i < j < once.len() implies once[i] != once[j] by {
            if j == connections.len() {
                assert(connections[i] == once[i]);
                assert(connections.contains(once[i]));
            }
        }
    }
    assert forall|other: DeviceLocalView| #[trigger] connections.contains(other) implies slot_of(
        once,
        other,
    ) == slot_of(connections, other) by {
        let at = connections.index_of(other);
        assert(once[at] == other);
        lemma_slot_of(once, other, at);
    }
}

} // verus!
