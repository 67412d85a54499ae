//! The displays of the host and their modes, from what the platform
//! enumerates.

use crate::app_state::{DisplayInfo, DisplayMode};
use crate::driver_probe::{looks_like_virtual_driver, names_virtual_driver};
use vstd::prelude::*;
use vstd::string::*;

verus! {

/// A display as the platform enumerates it; the mode is missing where the
/// platform could not tell the current settings.
#[derive(Debug, Clone)]
pub struct EnumeratedDisplay {
    pub id: String,
    pub name: String,
    pub active: bool,
    pub primary: bool,
    pub mode: Option<DisplayMode>,
}

/// What is reported of an enumerated display: its mode, or zeros without
/// one, and whether its name is that of a virtual display driver.
pub open spec fn describes(info: DisplayInfo, display: EnumeratedDisplay) -> bool {
    &&& info.id@ == display.id@
    &&& info.name@ == display.name@
    &&& info.active == display.active
    &&& info.primary == display.primary
    &&& info.is_virtual == names_virtual_driver(display.name@)
    &&& match display.mode {
        Some(mode) => info.width == mode.width && info.height == mode.height && info.refresh_hz
            == mode.refresh_hz,
        None => info.width == 0 && info.height == 0 && info.refresh_hz == 0,
    }
}

/// `modes` without repetitions: of equal modes the first stays.
pub open spec fn distinct_modes(modes: Seq<DisplayMode>) -> Seq<DisplayMode>
    decreases modes.len(),
{
    if modes.len() == 0 {
        Seq::empty()
    } else {
        let before = distinct_modes(modes.drop_last());
        if before.contains(modes.last()) {
            before
        } else {
            before.push(modes.last())
        }
    }
}

/// The displays of the host, in the order of enumeration.
pub fn list_displays(enumerated: &Vec<EnumeratedDisplay>) -> (displays: Vec<DisplayInfo>)
    ensures
        displays@.len() == enumerated@.len(),
        forall|i: int| 0 <= i < displays@.len() ==> describes(#[trigger] displays@[i], enumerated@[i]),
{
    let mut displays: Vec<DisplayInfo> = Vec::new();
    let mut index: usize = 0;
    while index < enumerated.len()
        invariant
            index <= enumerated.len(),
            displays@.len() == index,
            forall|i: int| 0 <= i < index ==> describes(#[trigger] displays@[i], enumerated@[i]),
        decreases enumerated.len() - index,
    {
        let display = &enumerated[index];
        let (width, height, refresh_hz) = match display.mode {
            Some(mode) => (mode.width, mode.height, mode.refresh_hz),
            None => (0, 0, 0),
        };
        displays.push(
            DisplayInfo {
                id: display.id.clone(),
                name: display.name.clone(),
                active: display.active,
                primary: display.primary,
                width,
                height,
                refresh_hz,
                is_virtual: looks_like_virtual_driver(display.name.as_str()),
            },
        );
        index += 1;
    }
    displays
}

/// Whether `modes` holds `mode`.
fn has_mode(modes: &Vec<DisplayMode>, mode: DisplayMode) -> (found: bool)
    ensures
        found == modes@.contains(mode),
{
    let mut i: usize = 0;
    while i < modes.len()
        invariant
            i <= modes.len(),
            forall|k: int| 0 <= k < i ==> modes@[k] != mode,
        decreases modes.len() - i,
    {
        if modes[i] == mode {
            return true;
        }
        i += 1;
    }
    false
}

/// The modes of a display, each once, in the order in which the platform
/// first named them.
pub fn list_display_modes(enumerated: &Vec<DisplayMode>) -> (modes: Vec<DisplayMode>)
    ensures
        modes@ == distinct_modes(enumerated@),
{
    let mut modes: Vec<DisplayMode> = Vec::new();
    let mut index: usize = 0;
    while index < enumerated.len()
        invariant
            index <= enumerated.len(),
            modes@ == distinct_modes(enumerated@.subrange(0, index as int)),
        decreases enumerated.len() - index,
    {
        let ghost before = enumerated@.subrange(0, index as int);
        let ghost after = enumerated@.subrange(0, index + 1);
        assert(after.drop_last() =~= before);
        let mode = enumerated[index];
        if !has_mode(&modes, mode) {
            modes.push(mode);
        }
        index += 1;
    }
    assert(enumerated@.subrange(0, enumerated.len() as int) =~= enumerated@);
    modes
}

/// The virtual displays among `displays`, in order.
pub open spec fn virtual_only(displays: Seq<DisplayInfo>) -> Seq<DisplayInfo>
    decreases displays.len(),
{
    if displays.len() == 0 {
        Seq::empty()
    } else if displays.last().is_virtual {
        virtual_only(displays.drop_last()).push(displays.last())
    } else {
        virtual_only(displays.drop_last())
    }
}

/// The virtual displays among `displays`, in order.
pub fn list_virtual_displays(displays: &Vec<DisplayInfo>) -> (virtual_displays: Vec<DisplayInfo>)
    ensures
        virtual_displays@ == virtual_only(displays@),
{
    let mut virtual_displays: Vec<DisplayInfo> = Vec::new();
    let mut index: usize = 0;
    while index < displays.len()
        invariant
            index <= displays.len(),
            virtual_displays@ == virtual_only(displays@.subrange(0, index as int)),
        decreases displays.len() - index,
    {
        let ghost before = displays@.subrange(0, index as int);
        let ghost after = displays@.subrange(0, index + 1);
        assert(after.drop_last() =~= before);
        let display = &displays[index];
        if display.is_virtual {
            virtual_displays.push(
                DisplayInfo {
                    id: display.id.clone(),
                    name: display.name.clone(),
                    active: display.active,
                    primary: display.primary,
                    width: display.width,
                    height: display.height,
                    refresh_hz: display.refresh_hz,
                    is_virtual: display.is_virtual,
                },
            );
        }
        index += 1;
    }
    assert(displays@.subrange(0, displays.len() as int) =~= displays@);
    virtual_displays
}

/// The number of virtual displays among `displays`, up to `u32::MAX`.
pub fn virtual_display_count(displays: &Vec<DisplayInfo>) -> (count: u32)
    ensures
        count == (if virtual_only(displays@).len() > u32::MAX {
            u32::MAX as nat
        } else {
            virtual_only(displays@).len()
        }),
{
    let mut count: u32 = 0;
    let mut index: usize = 0;
    while index < displays.len()
        invariant
            index <= displays.len(),
            count == (if virtual_only(displays@.subrange(0, index as int)).len() > u32::MAX {
                u32::MAX as nat
            } else {
                virtual_only(displays@.subrange(0, index as int)).len()
            }),
        decreases displays.len() - index,
    {
        let ghost before = displays@.subrange(0, index as int);
        let ghost after = displays@.subrange(0, index + 1);
        assert(after.drop_last() =~= before);
        if displays[index].is_virtual && count < u32::MAX {
            count = count + 1;
        }
        index += 1;
    }
    assert(displays@.subrange(0, displays.len() as int) =~= displays@);
    count
}

/// The number of virtual displays to ask for when one is created: one
/// more, as far as the number can grow.
pub fn count_after_create(current: u32) -> (next: u32)
    ensures
        next == (if current == u32::MAX {
            current
        } else {
            (current + 1) as u32
        }),
{
    if current == u32::MAX {
        current
    } else {
        current + 1
    }
}

/// The number of virtual displays to ask for when one is removed: one
/// less, and none where there is none.
pub fn count_after_remove(current: u32) -> (next: u32)
    ensures
        next == (if current == 0 {
            0
        } else {
            (current - 1) as u32
        }),
{
    if current == 0 {
        0
    } else {
        current - 1
    }
}

} // verus!
