//! Virtual displays on Linux: one framebuffer server per display. This
//! module keeps the numbers of the running displays and decides which one
//! to start or stop next; the processes themselves are the caller's.

use crate::codec::HostPlatform;
use crate::text::{decimal, push_decimal, text_views};
use vstd::prelude::*;
use vstd::string::*;

verus! {

/// The width of a display unless another is set.
pub const DEFAULT_WIDTH: u32 = 2560;

/// The height of a display unless another is set.
pub const DEFAULT_HEIGHT: u32 = 1600;

/// The colour depth of a display unless another is set.
pub const DEFAULT_DEPTH: u32 = 24;

/// The display number from which free numbers are looked for unless another is set.
pub const DEFAULT_BASE: u32 = 99;

/// The running displays by number, ascending, and the geometry that the
/// next display is started with.
#[derive(Debug)]
pub struct LinuxDisplayState {
    pub displays: Vec<u32>,
    pub width: u32,
    pub height: u32,
    pub depth: u32,
    pub base_display: u32,
}

/// What the caller does next.
#[derive(Debug)]
pub enum DisplayAction {
    /// Start a framebuffer server for this display with this screen.
    Start { display_num: u32, screen_spec: String },
    /// Stop the framebuffer server of this display.
    Stop { display_num: u32 },
    /// The number of running displays is as asked.
    Done,
}

/// Numbers in strictly ascending order, each below `u32::MAX`.
pub open spec fn ascending(numbers: Seq<u32>) -> bool {
    &&& forall|i: int, j: int| 0 <= i < j < numbers.len() ==> numbers[i] < numbers[j]
    &&& forall|i: int| 0 <= i < numbers.len() ==> numbers[i] < u32::MAX
}

/// `number` is the first display number from `base` on that is not taken.
pub open spec fn is_next_free(number: u32, base: u32, existing: Seq<u32>) -> bool {
    &&& base <= number
    &&& !existing.contains(number)
    &&& forall|taken: u32| base <= taken < number ==> #[trigger] existing.contains(taken)
}

/// The screen of a display: width, height and depth with an `x` between.
pub open spec fn screen_spec_of(width: u32, height: u32, depth: u32) -> Seq<char> {
    decimal(width as nat) + "x"@ + decimal(height as nat) + "x"@ + decimal(depth as nat)
}

/// The arguments of the framebuffer server for one display.
pub open spec fn server_args(display_num: u32, screen_spec: Seq<char>) -> Seq<Seq<char>> {
    seq![
        ":"@ + decimal(display_num as nat),
        "-screen"@,
        "0"@,
        screen_spec,
        "-ac"@,
        "-nolisten"@,
        "tcp"@,
    ]
}

impl LinuxDisplayState {
    /// The displays are in ascending order.
    pub open spec fn well_formed(&self) -> bool {
        ascending(self.displays@)
    }

    /// Whether the displays are in ascending order: what a caller that
    /// keeps the state between calls can test before the next call.
    pub fn is_well_formed(&self) -> (ok: bool)
        ensures
            ok == self.well_formed(),
    {
        let mut index: usize = 0;
        while index < self.displays.len()
            invariant
                index <= self.displays.len(),
                forall|i: int, j: int|
                    0 <= i < j < index ==> self.displays@[i] < self.displays@[j],
                forall|i: int| 0 <= i < index ==> self.displays@[i] < u32::MAX,
            decreases self.displays.len() - index,
        {
            if self.displays[index] == u32::MAX {
                return false;
            }
            if index > 0 && self.displays[index - 1] >= self.displays[index] {
                return false;
            }
            proof {
                assert forall|i: int, j: int| 0 <= i < j < index + 1 implies self.displays@[i]
                    < self.displays@[j] by {
                    if j == index && i < index - 1 {
                        assert(self.displays@[i] < self.displays@[index - 1]);
                    }
                }
            }
            index += 1;
        }
        true
    }

    /// No display runs; the geometry is the default one.
    pub fn new() -> (state: LinuxDisplayState)
        ensures
            state.well_formed(),
            state.displays@.len() == 0,
            state.width == DEFAULT_WIDTH,
            state.height == DEFAULT_HEIGHT,
            state.depth == DEFAULT_DEPTH,
            state.base_display == DEFAULT_BASE,
    {
        LinuxDisplayState {
            displays: Vec::new(),
            width: DEFAULT_WIDTH,
            height: DEFAULT_HEIGHT,
            depth: DEFAULT_DEPTH,
            base_display: DEFAULT_BASE,
        }
    }
}

/// The first display number from `base` on that no running display has.
pub fn next_display_number(base: u32, existing: &Vec<u32>) -> (number: u32)
    requires
        ascending(existing@),
    ensures
        is_next_free(number, base, existing@),
{
    let mut candidate: u32 = base;
    let mut index: usize = 0;
    while index < existing.len()
        invariant
            index <= existing.len(),
            ascending(existing@),
            base <= candidate,
            forall|taken: u32| base <= taken < candidate ==> #[trigger] existing@.contains(taken),
            forall|i: int| 0 <= i < index ==> existing@[i] < candidate,
        decreases existing.len() - index,
    {
        let key = existing[index];
        if key == candidate {
            assert forall|taken: u32|
                base <= taken < candidate + 1 implies #[trigger] existing@.contains(taken) by {
                if taken == candidate {
                    assert(existing@[index as int] == taken);
                }
            }
            candidate = candidate + 1;
        } else if key > candidate {
            assert forall|i: int| 0 <= i < existing@.len() implies existing@[i] != candidate by {
                if i > index {
                    assert(existing@[index as int] < existing@[i]);
                }
            }
            return candidate;
        }
        index += 1;
    }
    candidate
}

/// The screen of a display as the framebuffer server takes it.
pub fn screen_spec(width: u32, height: u32, depth: u32) -> (spec: String)
    ensures
        spec@ == screen_spec_of(width, height, depth),
{
    let mut spec = String::new();
    push_decimal(&mut spec, width as u64);
    spec.append("x");
    push_decimal(&mut spec, height as u64);
    spec.append("x");
    push_decimal(&mut spec, depth as u64);
    assert(spec@ =~= screen_spec_of(width, height, depth));
    spec
}

/// The arguments of the framebuffer server for one display.
pub fn display_args(display_num: u32, spec: &str) -> (args: Vec<String>)
    ensures
        text_views(args@) == server_args(display_num, spec@),
{
    let mut name = String::from_str(":");
    push_decimal(&mut name, display_num as u64);
    let mut args: Vec<String> = Vec::new();
    args.push(name);
    args.push(String::from_str("-screen"));
    args.push(String::from_str("0"));
    args.push(String::from_str(spec));
    args.push(String::from_str("-ac"));
    args.push(String::from_str("-nolisten"));
    args.push(String::from_str("tcp"));
    assert(text_views(args@) =~= server_args(display_num, spec@));
    args
}

/// The next step towards `count` running displays. With too few, the
/// display with the first free number from the base on is started; with
/// too many, the display with the highest number is stopped. Elsewhere
/// than on Linux nothing can be done.
pub fn ensure_display_count(platform: HostPlatform, state: &LinuxDisplayState, count: u32) -> (result:
    Result<DisplayAction, String>)
    requires
        state.well_formed(),
    ensures
        match result {
            Err(message) => platform != HostPlatform::Linux && message@
                == "Linux virtual display management is only available on Linux."@,
            Ok(DisplayAction::Start { display_num, screen_spec }) => {
                &&& platform == HostPlatform::Linux
                &&& state.displays@.len() < count
                &&& is_next_free(display_num, state.base_display, state.displays@)
                &&& screen_spec@ == screen_spec_of(state.width, state.height, state.depth)
            },
            Ok(DisplayAction::Stop { display_num }) => {
                &&& platform == HostPlatform::Linux
                &&& state.displays@.len() > count
                &&& display_num == state.displays@.last()
            },
            Ok(DisplayAction::Done) => platform == HostPlatform::Linux && state.displays@.len()
                == count,
        },
{
    match platform {
        HostPlatform::Linux => {},
        _ => {
            return Err(
                String::from_str("Linux virtual display management is only available on Linux."),
            );
        },
    }
    let running: usize = state.displays.len();
    if running < count as usize {
        Ok(
            DisplayAction::Start {
                display_num: next_display_number(state.base_display, &state.displays),
                screen_spec: screen_spec(state.width, state.height, state.depth),
            },
        )
    } else if running > count as usize {
        Ok(DisplayAction::Stop { display_num: state.displays[running - 1] })
    } else {
        Ok(DisplayAction::Done)
    }
}

/// Notes that the display with this number now runs. A number that runs
/// already, and the largest number there is, are not taken.
pub fn display_started(state: &mut LinuxDisplayState, display_num: u32) -> (taken: bool)
    requires
        old(state).well_formed(),
    ensures
        final(state).well_formed(),
        taken == (display_num < u32::MAX && !old(state).displays@.contains(display_num)),
        !taken ==> final(state).displays@ == old(state).displays@,
        taken ==> final(state).displays@.len() == old(state).displays@.len() + 1,
        taken ==> final(state).displays@.contains(display_num),
        forall|number: u32|
            old(state).displays@.contains(number) ==> final(state).displays@.contains(number),
        forall|number: u32|
            final(state).displays@.contains(number) ==> number == display_num || old(
                state
            ).displays@.contains(number),
        final(state).width == old(state).width,
        final(state).height == old(state).height,
        final(state).depth == old(state).depth,
        final(state).base_display == old(state).base_display,
{
    if display_num == u32::MAX {
        return false;
    }
    let mut at: usize = 0;
    while at < state.displays.len() && state.displays[at] < display_num
        invariant
            at <= state.displays.len(),
            state.displays@ == old(state).displays@,
            forall|i: int| 0 <= i < at ==> state.displays@[i] < display_num,
        decreases state.displays.len() - at,
    {
        at += 1;
    }
    if at < state.displays.len() && state.displays[at] == display_num {
        return false;
    }
    let ghost before = state.displays@;
    assert(!before.contains(display_num)) by {
        assert forall|k: int| 0 <= k < before.len() implies before[k] != display_num by {
            if k > at {
                assert(before[at as int] < before[k]);
            }
        }
    }
    state.displays.insert(at, display_num);
    proof {
        let after = state.displays@;
        assert(after == before.insert(at as int, display_num));
        assert(after[at as int] == display_num);
        assert forall|i: int, j: int| 0 <= i < j < after.len() implies after[i] < after[j] by {
            if j < at {
            } else if j == at {
            } else if i < at {
                assert(after[j] == before[j - 1]);
                if at < j - 1 {
                    assert(before[at as int] < before[j - 1]);
                }
            } else if i == at {
                assert(after[j] == before[j - 1]);
                if at < j - 1 {
                    assert(before[at as int] < before[j - 1]);
                }
            } else {
                assert(after[i] == before[i - 1]);
                assert(after[j] == before[j - 1]);
            }
        }
        assert forall|number: u32| before.contains(number) implies after.contains(number) by {
            let k = choose|k: int| 0 <= k < before.len() && before[k] == number;
            if k < at {
                assert(after[k] == number);
            } else {
                assert(after[k + 1] == number);
            }
        }
        assert forall|number: u32| after.contains(number) implies number == display_num
            || before.contains(number) by {
            let k = choose|k: int| 0 <= k < after.len() && after[k] == number;
            if k < at {
                assert(before[k] == number);
            } else if k > at {
                assert(before[k - 1] == number);
            }
        }
    }
    true
}

/// Notes that the display with the highest number was stopped.
pub fn display_stopped(state: &mut LinuxDisplayState) -> (stopped: Option<u32>)
    requires
        old(state).well_formed(),
    ensures
        final(state).well_formed(),
        match stopped {
            Some(number) => {
                &&& old(state).displays@.len() > 0
                &&& number == old(state).displays@.last()
                &&& final(state).displays@ == old(state).displays@.drop_last()
            },
            None => {
                &&& old(state).displays@.len() == 0
                &&& final(state).displays@ == old(state).displays@
            },
        },
        final(state).width == old(state).width,
        final(state).height == old(state).height,
        final(state).depth == old(state).depth,
        final(state).base_display == old(state).base_display,
{
    state.displays.pop()
}

/// The number of running displays.
pub fn current_count(state: &LinuxDisplayState) -> (count: u32)
    ensures
        count == (if state.displays@.len() > u32::MAX {
            u32::MAX as nat
        } else {
            state.displays@.len()
        }),
{
    let running: usize = state.displays.len();
    if running > u32::MAX as usize {
        u32::MAX
    } else {
        running as u32
    }
}

/// Sets the geometry and the base number for the displays to come, and
/// says how many displays run with the old ones: the caller stops them
/// all and starts as many again.
pub fn set_config(
    state: &mut LinuxDisplayState,
    base_display: u32,
    width: u32,
    height: u32,
    depth: u32,
) -> (restart: u32)
    ensures
        final(state).displays == old(state).displays,
        final(state).base_display == base_display,
        final(state).width == width,
        final(state).height == height,
        final(state).depth == depth,
        restart == (if old(state).displays@.len() > u32::MAX {
            u32::MAX as nat
        } else {
            old(state).displays@.len()
        }),
{
    state.base_display = base_display;
    state.width = width;
    state.height = height;
    state.depth = depth;
    current_count(state)
}

} // verus!
