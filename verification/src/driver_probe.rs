//! Whether the virtual display driver is among the display devices that
//! the platform lists.

use crate::app_state::DriverStatus;
use crate::text::{ascii_lowercase, chars_of, contains_text, lowercase_contains};
use vstd::prelude::*;
use vstd::string::*;

verus! {

/// A display device as the platform lists it: its name and whether it is
/// part of the desktop.
#[derive(Debug, Clone)]
pub struct DisplayDevice {
    pub name: String,
    pub active: bool,
}

/// Whether a device name is that of a virtual display driver: it holds
/// `virtual`, `indirect display` or `uberdisplay`, letters in any case.
pub open spec fn names_virtual_driver(name: Seq<char>) -> bool {
    ||| contains_text(ascii_lowercase(name), "virtual"@)
    ||| contains_text(ascii_lowercase(name), "indirect display"@)
    ||| contains_text(ascii_lowercase(name), "uberdisplay"@)
}

/// Whether a device name is that of a virtual display driver.
pub fn looks_like_virtual_driver(device_name: &str) -> (virtual_driver: bool)
    ensures
        virtual_driver == names_virtual_driver(device_name@),
{
    let chars = chars_of(device_name);
    lowercase_contains(&chars, "virtual") || lowercase_contains(&chars, "indirect display")
        || lowercase_contains(&chars, "uberdisplay")
}

/// The status of the driver among the listed devices: installed where one
/// of them is a virtual display driver, active where such a one is part of
/// the desktop.
pub fn probe_driver_status(devices: &Vec<DisplayDevice>) -> (status: DriverStatus)
    ensures
        status.installed <==> exists|i: int|
            0 <= i < devices@.len() && names_virtual_driver(#[trigger] devices@[i].name@),
        status.active <==> exists|i: int|
            0 <= i < devices@.len() && names_virtual_driver(#[trigger] devices@[i].name@)
                && devices@[i].active,
{
    let mut installed = false;
    let mut active = false;
    let mut index: usize = 0;
    while index < devices.len()
        invariant
            index <= devices.len(),
            installed <==> exists|i: int|
                0 <= i < index && names_virtual_driver(#[trigger] devices@[i].name@),
            active <==> exists|i: int|
                0 <= i < index && names_virtual_driver(#[trigger] devices@[i].name@)
                    && devices@[i].active,
        decreases devices.len() - index,
    {
        if looks_like_virtual_driver(devices[index].name.as_str()) {
            installed = true;
            if devices[index].active {
                active = true;
            }
        }
        index += 1;
    }
    DriverStatus { installed, active }
}

} // verus!
