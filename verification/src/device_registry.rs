//! The list of paired devices and the changes that the host makes to it.

use crate::app_state::{InputPermissions, PairedDevice};
use vstd::prelude::*;
use vstd::string::*;

verus! {

/// The position of the first device with this id, from `from` on.
pub open spec fn position_of(devices: Seq<PairedDevice>, id: Seq<char>, from: int) -> Option<int>
    decreases devices.len() - from,
{
    if from < 0 || from >= devices.len() {
        None
    } else if devices[from].id@ == id {
        Some(from)
    } else {
        position_of(devices, id, from + 1)
    }
}

/// `devices` without every device with this id.
pub open spec fn without(devices: Seq<PairedDevice>, id: Seq<char>) -> Seq<PairedDevice>
    decreases devices.len(),
{
    if devices.len() == 0 {
        Seq::empty()
    } else if devices[0].id@ == id {
        without(devices.drop_first(), id)
    } else {
        seq![devices[0]] + without(devices.drop_first(), id)
    }
}

/// The devices as they were read: what the store held, or none where the
/// store was absent or could not be read.
pub fn load_devices(stored: Option<Vec<PairedDevice>>) -> (devices: Vec<PairedDevice>)
    ensures
        devices@ == (match stored {
            Some(list) => list@,
            None => Seq::empty(),
        }),
{
    match stored {
        Some(list) => list,
        None => Vec::new(),
    }
}

/// The position of the first device with this id.
pub fn find_device(devices: &Vec<PairedDevice>, id: &str) -> (found: Option<usize>)
    ensures
        match found {
            Some(at) => position_of(devices@, id@, 0) == Some(at as int) && at < devices@.len()
                && devices@[at as int].id@ == id@,
            None => position_of(devices@, id@, 0) is None,
        },
{
    let wanted = String::from_str(id);
    let mut index: usize = 0;
    while index < devices.len()
        invariant
            index <= devices.len(),
            wanted@ == id@,
            position_of(devices@, id@, 0) == position_of(devices@, id@, index as int),
        decreases devices.len() - index,
    {
        if devices[index].id == wanted {
            return Some(index);
        }
        index += 1;
    }
    None
}

/// Puts a device in the list: in the place of the first device with the
/// same id, or at the end where there is none.
pub fn upsert_device(devices: &mut Vec<PairedDevice>, device: PairedDevice)
    ensures
        match position_of(old(devices)@, device.id@, 0) {
            Some(at) => final(devices)@ == old(devices)@.update(at, device),
            None => final(devices)@ == old(devices)@.push(device),
        },
{
    match find_device(devices, device.id.as_str()) {
        Some(at) => {
            devices.set(at, device);
        },
        None => {
            devices.push(device);
        },
    }
}

/// Takes every device with this id out of the list.
pub fn remove_device(devices: &mut Vec<PairedDevice>, device_id: &str)
    ensures
        final(devices)@ == without(old(devices)@, device_id@),
{
    let wanted = String::from_str(device_id);
    let mut index: usize = 0;
    assert(devices@.subrange(0, 0) + without(devices@.subrange(0, devices@.len() as int), device_id@)
        =~= without(devices@, device_id@)) by {
        assert(devices@.subrange(0, devices@.len() as int) =~= devices@);
    }
    while index < devices.len()
        invariant
            index <= devices.len(),
            wanted@ == device_id@,
            without(old(devices)@, device_id@) == devices@.subrange(0, index as int) + without(
                devices@.subrange(index as int, devices@.len() as int),
                device_id@,
            ),
        decreases devices.len() - index,
    {
        let ghost before = devices@;
        let ghost rest = before.subrange(index as int, before.len() as int);
        assert(rest.drop_first() =~= before.subrange(index + 1, before.len() as int));
        if devices[index].id == wanted {
            devices.remove(index);
            assert(devices@.subrange(0, index as int) =~= before.subrange(0, index as int));
            assert(devices@.subrange(index as int, devices@.len() as int) =~= rest.drop_first());
        } else {
            assert(before.subrange(0, index + 1) =~= before.subrange(0, index as int) + seq![
                rest[0],
            ]);
            index += 1;
        }
    }
    assert(devices@.subrange(0, index as int) =~= devices@);
}

/// Marks the device with this id as connected and seen just now, and
/// gives its position; a list without such a device stays as it is.
pub fn connect_device(devices: &mut Vec<PairedDevice>, device_id: &str) -> (connected:
    Option<usize>)
    ensures
        final(devices)@.len() == old(devices)@.len(),
        match position_of(old(devices)@, device_id@, 0) {
            Some(at) => {
                &&& connected == Some(at as usize)
                &&& final(devices)@[at].status@ == "Connected"@
                &&& final(devices)@[at].last_seen matches Some(seen)
                &&& seen@ == "Just now"@
                &&& final(devices)@[at].id == old(devices)@[at].id
                &&& final(devices)@[at].name == old(devices)@[at].name
                &&& final(devices)@[at].transport == old(devices)@[at].transport
                &&& final(devices)@[at].input_permissions == old(devices)@[at].input_permissions
                &&& forall|i: int|
                    0 <= i < final(devices)@.len() && i != at ==> final(devices)@[i] == old(devices)@[i]
            },
            None => connected is None && final(devices)@ == old(devices)@,
        },
{
    match find_device(devices, device_id) {
        Some(at) => {
            let updated = PairedDevice {
                id: devices[at].id.clone(),
                name: devices[at].name.clone(),
                transport: devices[at].transport.clone(),
                status: String::from_str("Connected"),
                last_seen: Some(String::from_str("Just now")),
                input_permissions: devices[at].input_permissions,
            };
            devices.set(at, updated);
            Some(at)
        },
        None => None,
    }
}

/// Sets the input permissions of the device with this id, and gives its
/// position; a list without such a device stays as it is.
pub fn set_device_input_permissions(
    devices: &mut Vec<PairedDevice>,
    device_id: &str,
    permissions: InputPermissions,
) -> (changed: Option<usize>)
    ensures
        final(devices)@.len() == old(devices)@.len(),
        match position_of(old(devices)@, device_id@, 0) {
            Some(at) => {
                &&& changed == Some(at as usize)
                &&& final(devices)@[at].input_permissions == permissions
                &&& final(devices)@[at].id == old(devices)@[at].id
                &&& final(devices)@[at].name == old(devices)@[at].name
                &&& final(devices)@[at].transport == old(devices)@[at].transport
                &&& final(devices)@[at].status == old(devices)@[at].status
                &&& final(devices)@[at].last_seen == old(devices)@[at].last_seen
                &&& forall|i: int|
                    0 <= i < final(devices)@.len() && i != at ==> final(devices)@[i] == old(devices)@[i]
            },
            None => changed is None && final(devices)@ == old(devices)@,
        },
{
    match find_device(devices, device_id) {
        Some(at) => {
            let updated = PairedDevice {
                id: devices[at].id.clone(),
                name: devices[at].name.clone(),
                transport: devices[at].transport.clone(),
                status: devices[at].status.clone(),
                last_seen: crate::text::clone_opt_text(&devices[at].last_seen),
                input_permissions: permissions,
            };
            devices.set(at, updated);
            Some(at)
        },
        None => None,
    }
}

} // verus!
