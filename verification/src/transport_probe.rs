//! What the host can tell of its transports: whether anything listens on
//! the mirroring port, how many connections it has, and whether a tablet
//! is attached as a USB accessory.

use crate::app_state::TransportStatus;
use crate::text::{ascii_lowercase, chars_of, contains_text, lowercase_contains};
use vstd::prelude::*;
use vstd::string::*;

verus! {

/// The port on which the host mirrors.
pub const TCP_PORT: u16 = 1445;

/// The state number of a listening socket in the platform's TCP table.
pub const TCP_STATE_LISTEN: u32 = 2;

/// The state number of an established connection in the platform's TCP table.
pub const TCP_STATE_ESTABLISHED: u32 = 5;

/// A row of the platform's TCP table: the local port as the table holds
/// it, in network byte order in the low sixteen bits, and the state number.
#[derive(Debug, Clone, Copy, PartialEq, Eq, Structural)]
pub struct TcpRow {
    pub local_port: u32,
    pub state: u32,
}

/// The port that a row's port field stands for: its low sixteen bits with
/// the two bytes exchanged.
pub open spec fn port_of(raw: u32) -> int {
    (raw as int % 256) * 256 + (raw as int / 256) % 256
}

/// A row of a socket that listens on the mirroring port.
pub open spec fn is_listener(row: TcpRow) -> bool {
    port_of(row.local_port) == TCP_PORT && row.state == TCP_STATE_LISTEN
}

/// A row of an established connection on the mirroring port.
pub open spec fn is_connection(row: TcpRow) -> bool {
    port_of(row.local_port) == TCP_PORT && row.state == TCP_STATE_ESTABLISHED
}

/// The number of established connections on the mirroring port.
pub open spec fn connection_count(rows: Seq<TcpRow>) -> nat
    decreases rows.len(),
{
    if rows.len() == 0 {
        0
    } else {
        connection_count(rows.drop_last()) + (if is_connection(rows.last()) {
            1nat
        } else {
            0nat
        })
    }
}

/// Whether a device name is that of a tablet attached as an accessory: it
/// holds `android`, `adb` or `aoap`, or both `accessory` and `usb`,
/// letters in any case.
pub open spec fn names_accessory(name: Seq<char>) -> bool {
    ||| contains_text(ascii_lowercase(name), "android"@)
    ||| contains_text(ascii_lowercase(name), "adb"@)
    ||| contains_text(ascii_lowercase(name), "aoap"@)
    ||| (contains_text(ascii_lowercase(name), "accessory"@) && contains_text(
        ascii_lowercase(name),
        "usb"@,
    ))
}

/// The port that a row's port field stands for.
pub fn row_port(raw: u32) -> (port: u16)
    ensures
        port == port_of(raw),
{
    ((raw % 256) * 256 + (raw / 256) % 256) as u16
}

/// Whether a device name is that of a tablet attached as an accessory.
pub fn is_accessory_name(name: &str) -> (accessory: bool)
    ensures
        accessory == names_accessory(name@),
{
    let chars = chars_of(name);
    lowercase_contains(&chars, "android") || lowercase_contains(&chars, "adb")
        || lowercase_contains(&chars, "aoap") || (lowercase_contains(&chars, "accessory")
        && lowercase_contains(&chars, "usb"))
}

/// Whether one of the present devices is a tablet attached as an accessory.
pub fn probe_aoap_attached(device_names: &Vec<String>) -> (attached: bool)
    ensures
        attached <==> exists|i: int|
            0 <= i < device_names@.len() && names_accessory(#[trigger] device_names@[i]@),
{
    let mut index: usize = 0;
    while index < device_names.len()
        invariant
            index <= device_names.len(),
            forall|i: int| 0 <= i < index ==> !names_accessory(#[trigger] device_names@[i]@),
        decreases device_names.len() - index,
    {
        if is_accessory_name(device_names[index].as_str()) {
            return true;
        }
        index += 1;
    }
    false
}

/// The status of the transports, from the platform's TCP table and the
/// names of the present devices: the host listens where a row listens on
/// the mirroring port, and its connections are the established rows on
/// that port, counted up to `u32::MAX`.
pub fn probe_transport_status(rows: &Vec<TcpRow>, device_names: &Vec<String>) -> (status:
    TransportStatus)
    ensures
        status.tcp_listening <==> exists|i: int|
            0 <= i < rows@.len() && is_listener(#[trigger] rows@[i]),
        status.tcp_connections == (if connection_count(rows@) > u32::MAX {
            u32::MAX as nat
        } else {
            connection_count(rows@)
        }),
        status.aoap_attached <==> exists|i: int|
            0 <= i < device_names@.len() && names_accessory(#[trigger] device_names@[i]@),
{
    let mut listening = false;
    let mut connections: u32 = 0;
    let mut index: usize = 0;
    while index < rows.len()
        invariant
            index <= rows.len(),
            listening <==> exists|i: int| 0 <= i < index && is_listener(#[trigger] rows@[i]),
            connections == (if connection_count(rows@.subrange(0, index as int)) > u32::MAX {
                u32::MAX as nat
            } else {
                connection_count(rows@.subrange(0, index as int))
            }),
        decreases rows.len() - index,
    {
        let ghost before = rows@.subrange(0, index as int);
        let ghost after = rows@.subrange(0, index + 1);
        assert(after.drop_last() =~= before);
        let row = rows[index];
        if row_port(row.local_port) == TCP_PORT {
            if row.state == TCP_STATE_LISTEN {
                listening = true;
            } else if row.state == TCP_STATE_ESTABLISHED {
                if connections < u32::MAX {
                    connections = connections + 1;
                }
            }
        }
        index += 1;
    }
    assert(rows@.subrange(0, rows.len() as int) =~= rows@);
    TransportStatus {
        tcp_listening: listening,
        tcp_connections: connections,
        aoap_attached: probe_aoap_attached(device_names),
    }
}

} // verus!
