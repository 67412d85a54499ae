//! Managing the virtual display driver through the platform's device
//! tool: reading its list of display devices, finding the driver among
//! them, and choosing the arguments of the next call.

use crate::codec::HostPlatform;
use crate::text::{
    ascii_lowercase, chars_of, concat_text, contains_text, lowercase_contains, range_starts_with,
    starts_with, strip_bounds, stripped_text, text_views, trim, CharClass,
};
use crate::vdd_protocol::{DriverManagerDetails, DriverManagerStatus};
use vstd::prelude::*;
use vstd::string::*;

verus! {

/// One display device as the device tool lists it.
#[derive(Debug, Clone)]
pub struct DeviceRecord {
    pub instance_id: String,
    pub description: String,
    pub status: String,
}

/// A device record by its texts.
pub struct DeviceRecordView {
    pub instance_id: Seq<char>,
    pub description: Seq<char>,
    pub status: Seq<char>,
}

impl View for DeviceRecord {
    type V = DeviceRecordView;

    open spec fn view(&self) -> DeviceRecordView {
        DeviceRecordView {
            instance_id: self.instance_id@,
            description: self.description@,
            status: self.status@,
        }
    }
}

/// Where the reading of a device list stands: the records that are
/// complete, and the one that is being filled.
pub struct ScanView {
    pub records: Seq<DeviceRecordView>,
    pub current: Option<DeviceRecordView>,
}

/// The records of a list, each by its texts.
pub open spec fn record_views(records: Seq<DeviceRecord>) -> Seq<DeviceRecordView> {
    Seq::new(records.len(), |i: int| records[i]@)
}

/// The number of characters before the first line feed, or all of them.
pub open spec fn first_line_len(text: Seq<char>) -> nat
    decreases text.len(),
{
    if text.len() == 0 || text[0] == '\n' {
        0
    } else {
        1 + first_line_len(text.drop_first())
    }
}

/// The scan with the record that was being filled put with the complete ones.
pub open spec fn flushed(state: ScanView) -> ScanView {
    match state.current {
        Some(record) => ScanView { records: state.records.push(record), current: None },
        None => state,
    }
}

/// What follows `prefix` in `line`, trimmed.
pub open spec fn value_after(line: Seq<char>, prefix: Seq<char>) -> Seq<char> {
    trim(line.subrange(prefix.len() as int, line.len() as int))
}

/// The scan after one more line. An empty line closes the record that is
/// being filled. `Instance ID:` closes it too and opens the next.
/// `Device Description:` and `Status:` fill the open record and mean
/// nothing without one. Any other line is passed over.
pub open spec fn line_step(state: ScanView, raw_line: Seq<char>) -> ScanView {
    let line = trim(raw_line);
    if line.len() == 0 {
        flushed(state)
    } else if starts_with(line, "Instance ID:"@) {
        ScanView {
            records: flushed(state).records,
            current: Some(
                DeviceRecordView {
                    instance_id: value_after(line, "Instance ID:"@),
                    description: Seq::empty(),
                    status: Seq::empty(),
                },
            ),
        }
    } else if starts_with(line, "Device Description:"@) {
        match state.current {
            Some(record) => ScanView {
                current: Some(
                    DeviceRecordView {
                        description: value_after(line, "Device Description:"@),
                        ..record
                    },
                ),
                ..state
            },
            None => state,
        }
    } else if starts_with(line, "Status:"@) {
        match state.current {
            Some(record) => ScanView {
                current: Some(DeviceRecordView { status: value_after(line, "Status:"@), ..record }),
                ..state
            },
            None => state,
        }
    } else {
        state
    }
}

/// The scan after every line of `text`, the lines parted by line feeds.
pub open spec fn scanned(text: Seq<char>, state: ScanView) -> ScanView
    decreases text.len(),
{
    let n = first_line_len(text) as int;
    let next = line_step(state, text.subrange(0, n));
    if n >= text.len() {
        next
    } else {
        scanned(text.subrange(n + 1, text.len() as int), next)
    }
}

/// The device records that a listing holds.
pub open spec fn listed_devices(output: Seq<char>) -> Seq<DeviceRecordView> {
    flushed(scanned(output, ScanView { records: Seq::empty(), current: None })).records
}

/// Whether a record is the virtual display driver: by its instance id or
/// by its description, letters in any case.
pub open spec fn is_virtual_record(record: DeviceRecordView) -> bool {
    ||| contains_text(ascii_lowercase(record.instance_id), "root\\mttvdd"@)
    ||| contains_text(ascii_lowercase(record.description), "virtual display"@)
    ||| contains_text(ascii_lowercase(record.description), "iddsample"@)
}

/// Whether a status text says that the device runs.
pub open spec fn status_says_enabled(status: Seq<char>) -> bool {
    ||| contains_text(ascii_lowercase(status), "started"@)
    ||| contains_text(ascii_lowercase(status), "ok"@)
    ||| contains_text(ascii_lowercase(status), "enabled"@)
}

/// The position of the first virtual display driver among `records`, from
/// position `from` on.
pub open spec fn first_virtual(records: Seq<DeviceRecordView>, from: int) -> Option<int>
    decreases records.len() - from,
{
    if from < 0 || from >= records.len() {
        None
    } else if is_virtual_record(records[from]) {
        Some(from)
    } else {
        first_virtual(records, from + 1)
    }
}

/// The first line ends within the text, at a line feed where it ends
/// before the text does, and holds no line feed itself.
pub proof fn lemma_first_line_len_bound(text: Seq<char>)
    ensures
        first_line_len(text) <= text.len(),
        first_line_len(text) < text.len() ==> text[first_line_len(text) as int] == '\n',
        forall|i: int| 0 <= i < first_line_len(text) ==> #[trigger] text[i] != '\n',
    decreases text.len(),
{
    if !(text.len() == 0 || text[0] == '\n') {
        let rest = text.drop_first();
        lemma_first_line_len_bound(rest);
        assert forall|i: int| 0 <= i < first_line_len(text) implies #[trigger] text[i] != '\n' by {
            if i > 0 {
                assert(text[i] == rest[i - 1]);
            }
        }
        if first_line_len(text) < text.len() {
            assert(text[first_line_len(text) as int] == rest[first_line_len(rest) as int]);
        }
    }
}

/// The length of the first line is the first position that holds a line feed.
pub proof fn lemma_first_line_len_is(text: Seq<char>, n: int)
    requires
        0 <= n <= text.len(),
        forall|i: int| 0 <= i < n ==> #[trigger] text[i] != '\n',
        n < text.len() ==> text[n] == '\n',
    ensures
        first_line_len(text) == n,
{
    lemma_first_line_len_bound(text);
    let m = first_line_len(text) as int;
    if m < n {
        assert(text[m] != '\n');
    } else if n < m {
        assert(text[n] != '\n');
    }
}

/// The state of a scan as the reader holds it.
struct Scan {
    records: Vec<DeviceRecord>,
    current: Option<DeviceRecord>,
}

impl View for Scan {
    type V = ScanView;

    closed spec fn view(&self) -> ScanView {
        ScanView {
            records: record_views(self.records@),
            current: match self.current {
                Some(record) => Some(record@),
                None => None,
            },
        }
    }
}

/// Puts the record that is being filled with the complete ones.
fn flush(scan: &mut Scan)
    ensures
        final(scan)@ == flushed(old(scan)@),
{
    if let Some(record) = scan.current.take() {
        let ghost before = scan.records@;
        scan.records.push(record);
        assert(record_views(scan.records@) =~= record_views(before).push(record@));
    }
}

/// Takes the line `chars[from..to]` into the scan.
fn take_line(scan: &mut Scan, chars: &Vec<char>, from: usize, to: usize)
    requires
        from <= to <= chars@.len(),
    ensures
        final(scan)@ == line_step(old(scan)@, chars@.subrange(from as int, to as int)),
{
    let (start, end) = strip_bounds(chars, from, to, CharClass::Whitespace);
    let ghost line = chars@.subrange(start as int, end as int);
    if start == end {
        flush(scan);
        return ;
    }
    let instance = chars_of("Instance ID:");
    let description = chars_of("Device Description:");
    let status = chars_of("Status:");
    if range_starts_with(chars, start, end, &instance) {
        flush(scan);
        let value_from: usize = start + instance.len();
        assert(chars@.subrange(value_from as int, end as int) =~= line.subrange(
            instance@.len() as int,
            line.len() as int,
        ));
        scan.current = Some(
            DeviceRecord {
                instance_id: stripped_text(chars, value_from, end, CharClass::Whitespace),
                description: String::new(),
                status: String::new(),
            },
        );
    } else if range_starts_with(chars, start, end, &description) {
        let value_from: usize = start + description.len();
        assert(chars@.subrange(value_from as int, end as int) =~= line.subrange(
            description@.len() as int,
            line.len() as int,
        ));
        if let Some(record) = scan.current.take() {
            scan.current = Some(
                DeviceRecord {
                    instance_id: record.instance_id,
                    description: stripped_text(chars, value_from, end, CharClass::Whitespace),
                    status: record.status,
                },
            );
        }
    } else if range_starts_with(chars, start, end, &status) {
        let value_from: usize = start + status.len();
        assert(chars@.subrange(value_from as int, end as int) =~= line.subrange(
            status@.len() as int,
            line.len() as int,
        ));
        if let Some(record) = scan.current.take() {
            scan.current = Some(
                DeviceRecord {
                    instance_id: record.instance_id,
                    description: record.description,
                    status: stripped_text(chars, value_from, end, CharClass::Whitespace),
                },
            );
        }
    }
}

/// Reads the device tool's listing of display devices. A record starts at
/// a line `Instance ID:` and ends at the next such line, at an empty line
/// or at the end; its description and status are the lines so named.
pub fn parse_pnputil_devices(output: &str) -> (result: Result<Vec<DeviceRecord>, String>)
    ensures
        result matches Ok(records) && record_views(records@) == listed_devices(output@),
{
    let chars = chars_of(output);
    let total: usize = chars.len();
    let mut scan = Scan { records: Vec::new(), current: None };
    assert(record_views(scan.records@) =~= Seq::<DeviceRecordView>::empty());
    let ghost start_state = scan@;
    let mut from: usize = 0;
    assert(chars@.subrange(0, total as int) =~= chars@);
    loop
        invariant_except_break
            scanned(output@, start_state) == scanned(
                chars@.subrange(from as int, total as int),
                scan@,
            ),
        invariant
            from <= total,
            total == chars@.len(),
            chars@ == output@,
        ensures
            scan@ == scanned(output@, start_state),
        decreases total - from,
    {
        let ghost rest = chars@.subrange(from as int, total as int);
        let mut to: usize = from;
        while to < total && chars[to] != '\n'
            invariant
                from <= to <= total,
                total == chars@.len(),
                rest == chars@.subrange(from as int, total as int),
                forall|i: int| 0 <= i < to - from ==> #[trigger] rest[i] != '\n',
            decreases total - to,
        {
            to += 1;
        }
        proof {
            lemma_first_line_len_is(rest, to - from);
            assert(rest.subrange(0, to - from) =~= chars@.subrange(from as int, to as int));
        }
        take_line(&mut scan, &chars, from, to);
        if to >= total {
            break;
        }
        assert(rest.subrange(to - from + 1, rest.len() as int) =~= chars@.subrange(
            to + 1,
            total as int,
        ));
        from = to + 1;
    }
    flush(&mut scan);
    Ok(scan.records)
}

/// Whether a record is the virtual display driver.
pub fn is_virtual_display_device(record: &DeviceRecord) -> (matches: bool)
    ensures
        matches == is_virtual_record(record@),
{
    let instance = chars_of(record.instance_id.as_str());
    let description = chars_of(record.description.as_str());
    lowercase_contains(&instance, "root\\mttvdd") || lowercase_contains(
        &description,
        "virtual display",
    ) || lowercase_contains(&description, "iddsample")
}

/// Whether a status text says that the device runs.
pub fn is_status_enabled(status: &str) -> (enabled: bool)
    ensures
        enabled == status_says_enabled(status@),
{
    let chars = chars_of(status);
    lowercase_contains(&chars, "started") || lowercase_contains(&chars, "ok")
        || lowercase_contains(&chars, "enabled")
}

/// The position of the first virtual display driver among the records.
pub fn find_device(records: &Vec<DeviceRecord>) -> (found: Option<usize>)
    ensures
        match found {
            Some(at) => first_virtual(record_views(records@), 0) == Some(at as int) && at
                < records@.len(),
            None => first_virtual(record_views(records@), 0) is None,
        },
{
    let mut i: usize = 0;
    while i < records.len()
        invariant
            i <= records.len(),
            first_virtual(record_views(records@), 0) == first_virtual(
                record_views(records@),
                i as int,
            ),
        decreases records.len() - i,
    {
        assert(record_views(records@)[i as int] == records@[i as int]@);
        if is_virtual_display_device(&records[i]) {
            return Some(i);
        }
        i += 1;
    }
    None
}

/// What the device tool is asked to do with the driver.
#[derive(Debug, Clone, Copy, PartialEq, Eq, Structural)]
pub enum DeviceVerb {
    Enable,
    Disable,
    Remove,
}

/// The device tool's word for a verb.
pub open spec fn verb_switch(verb: DeviceVerb) -> Seq<char> {
    match verb {
        DeviceVerb::Enable => "/enable-device"@,
        DeviceVerb::Disable => "/disable-device"@,
        DeviceVerb::Remove => "/remove-device"@,
    }
}

/// The virtual display driver in a listing, if it is there.
pub open spec fn listed_driver(listing: Seq<char>) -> Option<DeviceRecordView> {
    match first_virtual(listed_devices(listing), 0) {
        Some(at) => Some(listed_devices(listing)[at]),
        None => None,
    }
}

/// The outcome of asking for `verb` on the driver of a listing: the
/// arguments for the device tool, or why there are none.
pub open spec fn verb_outcome(platform: HostPlatform, listing: Seq<char>, verb: DeviceVerb) -> Result<
    Seq<Seq<char>>,
    Seq<char>,
> {
    match platform {
        HostPlatform::Linux | HostPlatform::Other => Err(
            "Virtual display driver management is only available on Windows."@,
        ),
        HostPlatform::Windows => match listed_driver(listing) {
            Some(device) => Ok(seq![verb_switch(verb), device.instance_id]),
            None => Err("Virtual display driver not found."@),
        },
    }
}

/// A result of arguments or a message, by its texts.
pub open spec fn args_result_view(result: Result<Vec<String>, String>) -> Result<
    Seq<Seq<char>>,
    Seq<char>,
> {
    match result {
        Ok(args) => Ok(text_views(args@)),
        Err(message) => Err(message@),
    }
}

fn unavailable() -> (message: String)
    ensures
        message@ == "Virtual display driver management is only available on Windows."@,
{
    String::from_str("Virtual display driver management is only available on Windows.")
}

/// The arguments that make the device tool carry out `verb` on the driver
/// found in `listing`.
pub fn device_action(platform: HostPlatform, listing: &str, verb: DeviceVerb) -> (result: Result<
    Vec<String>,
    String,
>)
    ensures
        args_result_view(result) == verb_outcome(platform, listing@, verb),
{
    match platform {
        HostPlatform::Linux | HostPlatform::Other => Err(unavailable()),
        HostPlatform::Windows => {
            let records = match parse_pnputil_devices(listing) {
                Ok(records) => records,
                Err(message) => {
                    return Err(message);
                },
            };
            match find_device(&records) {
                Some(at) => {
                    assert(record_views(records@)[at as int] == records@[at as int]@);
                    let switch = match verb {
                        DeviceVerb::Enable => String::from_str("/enable-device"),
                        DeviceVerb::Disable => String::from_str("/disable-device"),
                        DeviceVerb::Remove => String::from_str("/remove-device"),
                    };
                    let mut args: Vec<String> = Vec::new();
                    args.push(switch);
                    args.push(records[at].instance_id.clone());
                    assert(text_views(args@) =~= seq![
                        verb_switch(verb),
                        listed_driver(listing@)->0.instance_id,
                    ]);
                    Ok(args)
                },
                None => Err(String::from_str("Virtual display driver not found.")),
            }
        },
    }
}

/// Whether the driver is installed and enabled, from the device tool's
/// listing of display devices.
pub fn status(platform: HostPlatform, listing: &str) -> (result: Result<DriverManagerStatus, String>)
    ensures
        match platform {
            HostPlatform::Linux | HostPlatform::Other => result matches Err(message) && message@
                == "Virtual display driver management is only available on Windows."@,
            HostPlatform::Windows => result matches Ok(report) && match listed_driver(listing@) {
                Some(device) => {
                    &&& report.installed
                    &&& report.status@ == (if status_says_enabled(device.status) {
                        "enabled"@
                    } else {
                        "disabled"@
                    })
                    &&& report.details matches Some(details)
                    &&& details.friendly_name matches Some(name)
                    &&& name@ == device.description
                    &&& details.instance_id matches Some(id)
                    &&& id@ == device.instance_id
                },
                None => {
                    &&& !report.installed
                    &&& report.status@ == "not installed"@
                    &&& report.details is None
                },
            },
        },
{
    match platform {
        HostPlatform::Linux | HostPlatform::Other => Err(unavailable()),
        HostPlatform::Windows => {
            let records = match parse_pnputil_devices(listing) {
                Ok(records) => records,
                Err(message) => {
                    return Err(message);
                },
            };
            match find_device(&records) {
                Some(at) => {
                    assert(record_views(records@)[at as int] == records@[at as int]@);
                    let device = &records[at];
                    let text = if is_status_enabled(device.status.as_str()) {
                        String::from_str("enabled")
                    } else {
                        String::from_str("disabled")
                    };
                    Ok(
                        DriverManagerStatus {
                            installed: true,
                            status: text,
                            details: Some(
                                DriverManagerDetails {
                                    friendly_name: Some(device.description.clone()),
                                    instance_id: Some(device.instance_id.clone()),
                                },
                            ),
                        },
                    )
                },
                None => Ok(
                    DriverManagerStatus {
                        installed: false,
                        status: String::from_str("not installed"),
                        details: None,
                    },
                ),
            }
        },
    }
}

/// The arguments that enable the driver.
pub fn enable(platform: HostPlatform, listing: &str) -> (result: Result<Vec<String>, String>)
    ensures
        args_result_view(result) == verb_outcome(platform, listing@, DeviceVerb::Enable),
{
    device_action(platform, listing, DeviceVerb::Enable)
}

/// The arguments that disable the driver.
pub fn disable(platform: HostPlatform, listing: &str) -> (result: Result<Vec<String>, String>)
    ensures
        args_result_view(result) == verb_outcome(platform, listing@, DeviceVerb::Disable),
{
    device_action(platform, listing, DeviceVerb::Disable)
}

/// The arguments that remove the driver's device.
pub fn uninstall(platform: HostPlatform, listing: &str) -> (result: Result<Vec<String>, String>)
    ensures
        args_result_view(result) == verb_outcome(platform, listing@, DeviceVerb::Remove),
{
    device_action(platform, listing, DeviceVerb::Remove)
}

/// The arguments that switch the driver: a driver whose status says that
/// it runs is disabled, any other is enabled.
pub fn toggle(platform: HostPlatform, listing: &str) -> (result: Result<Vec<String>, String>)
    ensures
        args_result_view(result) == verb_outcome(
            platform,
            listing@,
            match listed_driver(listing@) {
                Some(device) if status_says_enabled(device.status) => DeviceVerb::Disable,
                _ => DeviceVerb::Enable,
            },
        ),
{
    match platform {
        HostPlatform::Linux | HostPlatform::Other => Err(unavailable()),
        HostPlatform::Windows => {
            let records = match parse_pnputil_devices(listing) {
                Ok(records) => records,
                Err(message) => {
                    return Err(message);
                },
            };
            match find_device(&records) {
                Some(at) => {
                    assert(record_views(records@)[at as int] == records@[at as int]@);
                    if is_status_enabled(records[at].status.as_str()) {
                        device_action(platform, listing, DeviceVerb::Disable)
                    } else {
                        device_action(platform, listing, DeviceVerb::Enable)
                    }
                },
                None => Err(String::from_str("Virtual display driver not found.")),
            }
        },
    }
}

/// The arguments that install the driver from the vendor's INF file, where
/// the caller found one.
pub fn install_from_vendor(platform: HostPlatform, inf_path: Option<String>) -> (result: Result<
    Vec<String>,
    String,
>)
    ensures
        args_result_view(result) == (match platform {
            HostPlatform::Linux | HostPlatform::Other => Err::<Seq<Seq<char>>, Seq<char>>(
                "Virtual display driver management is only available on Windows."@,
            ),
            HostPlatform::Windows => match inf_path {
                Some(path) => Ok(seq!["/add-driver"@, path@, "/install"@]),
                None => Err("MttVDD.inf not found under _vendor/virtual-display-driver."@),
            },
        }),
{
    match platform {
        HostPlatform::Linux | HostPlatform::Other => Err(unavailable()),
        HostPlatform::Windows => match inf_path {
            Some(path) => {
                let mut args: Vec<String> = Vec::new();
                args.push(String::from_str("/add-driver"));
                args.push(path);
                args.push(String::from_str("/install"));
                assert(text_views(args@) =~= seq!["/add-driver"@, path@, "/install"@]);
                Ok(args)
            },
            None => Err(
                String::from_str("MttVDD.inf not found under _vendor/virtual-display-driver."),
            ),
        },
    }
}

/// What a run of the device tool amounts to: nothing to report where it
/// succeeded, else a message with the exit status as the platform words it.
pub fn tool_outcome(success: bool, exit_status: &str) -> (result: Result<(), String>)
    ensures
        match result {
            Ok(_) => success,
            Err(message) => !success && message@ == "pnputil failed with exit code: "@
                + exit_status@,
        },
{
    if success {
        Ok(())
    } else {
        Err(concat_text("pnputil failed with exit code: ", exit_status))
    }
}

} // verus!
