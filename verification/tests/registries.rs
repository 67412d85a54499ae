use uberdisplay_pc::app_state::{
    DisplayInfo, DisplayMode, DriverStatus, HostSettings, InputPermissions, PairedDevice,
};
use uberdisplay_pc::codec::HostPlatform;
use uberdisplay_pc::device_registry::{
    connect_device, find_device, load_devices, remove_device, set_device_input_permissions,
    upsert_device,
};
use uberdisplay_pc::display_probe::{
    count_after_create, count_after_remove, list_display_modes, list_displays,
    list_virtual_displays, virtual_display_count, EnumeratedDisplay,
};
use uberdisplay_pc::driver_probe::{looks_like_virtual_driver, probe_driver_status, DisplayDevice};
use uberdisplay_pc::host_log::{append_log, clear_logs, export_logs, load_logs, HostLogEntry, LOG_LIMIT};
use uberdisplay_pc::linux_vdd::{
    current_count, display_args, display_started, display_stopped, ensure_display_count,
    next_display_number, screen_spec, set_config, DisplayAction, LinuxDisplayState,
};
use uberdisplay_pc::settings_registry::{load_settings, save_settings, stream_parameters};
use uberdisplay_pc::text::{
    char_is_whitespace, chars_contain, chars_equal, chars_of, concat_text,
    lowercase_range, push_decimal, string_of, trim_bounds, uppercase_range,
};
use uberdisplay_pc::transport_probe::{
    is_accessory_name, probe_aoap_attached, probe_transport_status, row_port, TcpRow,
};

fn device(id: &str, name: &str) -> PairedDevice {
    PairedDevice {
        id: id.to_string(),
        name: name.to_string(),
        transport: "TCP".to_string(),
        status: "Paired".to_string(),
        last_seen: None,
        input_permissions: InputPermissions::default(),
    }
}

fn ids(devices: &[PairedDevice]) -> Vec<(String, String)> {
    devices.iter().map(|device| (device.id.clone(), device.name.clone())).collect()
}

fn pair(id: &str, name: &str) -> (String, String) {
    (id.to_string(), name.to_string())
}

fn display(name: &str, is_virtual: bool) -> DisplayInfo {
    DisplayInfo {
        id: format!("id of {}", name),
        name: name.to_string(),
        active: true,
        primary: false,
        width: 1,
        height: 2,
        refresh_hz: 3,
        is_virtual,
    }
}

#[test]
fn text_is_trimmed_as_the_standard_library_trims() {
    for text in ["", " ", "a", "  a b \t", "\u{2003}x\u{a0}", "\u{200b}x", "\u{85}\u{1680}y\u{2028}\u{2029}\u{202f}\u{205f}\u{3000}", "\r\n"] {
        let chars = chars_of(text);
        assert_eq!(chars, text.chars().collect::<Vec<char>>());
        let (start, end) = trim_bounds(&chars);
        assert_eq!(string_of(&chars, start, end), text.trim());
    }
    for code in 0u32..0x3100 {
        if let Some(c) = char::from_u32(code) {
            assert_eq!(char_is_whitespace(c), c.is_whitespace());
        }
    }
}

#[test]
fn ascii_case_is_changed_and_nothing_else() {
    let text = "aZ09 ÄäßÿŸ[`{@";
    let chars = chars_of(text);
    let lower: String = lowercase_range(&chars, 0, chars.len()).into_iter().collect();
    let upper: String = uppercase_range(&chars, 0, chars.len()).into_iter().collect();
    assert_eq!(lower, text.to_ascii_lowercase());
    assert_eq!(upper, text.to_ascii_uppercase());
    let part: String = lowercase_range(&chars, 1, 3).into_iter().collect();
    assert_eq!(part, "z0");
}

#[test]
fn text_is_searched_and_compared() {
    let chars = chars_of("virtual display");
    assert!(chars_contain(&chars, "virtual"));
    assert!(chars_contain(&chars, "display"));
    assert!(chars_contain(&chars, "l d"));
    assert!(chars_contain(&chars, ""));
    assert!(chars_contain(&chars, "virtual display"));
    assert!(!chars_contain(&chars, "virtual display "));
    assert!(!chars_contain(&chars, "Virtual"));
    assert!(chars_contain(&chars_of(""), ""));
    assert!(!chars_contain(&chars_of(""), "a"));
    assert!(chars_equal(&chars, "virtual display"));
    assert!(!chars_equal(&chars, "virtual displa"));
    assert!(!chars_equal(&chars, "virtual displaY"));
    assert_eq!(concat_text("a", "bc"), "abc");
}

#[test]
fn numbers_are_written_in_decimal() {
    for n in [0u64, 1, 9, 10, 11, 99, 100, 1_000_000, 18_446_744_073_709_551_615] {
        let mut text = "n=".to_string();
        push_decimal(&mut text, n);
        assert_eq!(text, format!("n={}", n));
    }
}

#[test]
fn an_absent_store_is_an_empty_default() {
    assert!(load_devices(None).is_empty());
    assert_eq!(ids(&load_devices(Some(vec![device("a", "A")]))), vec![pair("a", "A")]);
    assert!(load_logs(None).is_empty());
    assert_eq!(load_logs(Some(vec![HostLogEntry { timestamp: 1, message: "m".to_string() }])).len(), 1);
    let defaults = load_settings(None);
    assert_eq!(defaults.codec, "H.264 High");
    assert_eq!(defaults.quality, 80);
    let mut stored = HostSettings::default();
    stored.quality = 3;
    assert_eq!(load_settings(Some(stored)).quality, 3);
}

#[test]
fn devices_are_added_replaced_and_removed() {
    let mut devices = Vec::new();
    upsert_device(&mut devices, device("a", "first"));
    upsert_device(&mut devices, device("b", "second"));
    upsert_device(&mut devices, device("a", "third"));
    upsert_device(&mut devices, device("c", "fourth"));
    assert_eq!(ids(&devices), vec![pair("a", "third"), pair("b", "second"), pair("c", "fourth")]);
    assert_eq!(find_device(&devices, "b"), Some(1));
    assert_eq!(find_device(&devices, "B"), None);
    remove_device(&mut devices, "b");
    assert_eq!(ids(&devices), vec![pair("a", "third"), pair("c", "fourth")]);
    remove_device(&mut devices, "missing");
    assert_eq!(devices.len(), 2);
    let mut doubled = vec![device("x", "1"), device("y", "2"), device("x", "3"), device("x", "4"), device("z", "5")];
    upsert_device(&mut doubled, device("x", "new"));
    assert_eq!(doubled[0].name, "new");
    assert_eq!(doubled[2].name, "3");
    remove_device(&mut doubled, "x");
    assert_eq!(ids(&doubled), vec![pair("y", "2"), pair("z", "5")]);
    remove_device(&mut doubled, "y");
    remove_device(&mut doubled, "z");
    assert!(doubled.is_empty());
    remove_device(&mut doubled, "z");
    assert!(doubled.is_empty());
}

#[test]
fn connecting_marks_the_device() {
    let mut devices = vec![device("a", "A"), device("b", "B")];
    assert_eq!(connect_device(&mut devices, "b"), Some(1));
    assert_eq!(devices[1].status, "Connected");
    assert_eq!(devices[1].last_seen.as_deref(), Some("Just now"));
    assert_eq!(devices[1].name, "B");
    assert_eq!(devices[1].transport, "TCP");
    assert_eq!(devices[0].status, "Paired");
    assert_eq!(devices[0].last_seen, None);
    assert_eq!(connect_device(&mut devices, "c"), None);
    assert_eq!(devices.len(), 2);
}

#[test]
fn permissions_are_set_per_device() {
    let mut devices = vec![device("a", "A"), device("b", "B")];
    devices[0].last_seen = Some("Yesterday".to_string());
    let permissions = InputPermissions { enable_input: true, touch: false, pen: true, keyboard: false };
    assert_eq!(set_device_input_permissions(&mut devices, "a", permissions), Some(0));
    assert_eq!(devices[0].input_permissions, permissions);
    assert_eq!(devices[0].last_seen.as_deref(), Some("Yesterday"));
    assert_eq!(devices[0].status, "Paired");
    assert_eq!(devices[1].input_permissions, InputPermissions::default());
    assert_eq!(set_device_input_permissions(&mut devices, "z", permissions), None);
}

#[test]
fn the_log_keeps_its_last_two_hundred_entries() {
    let mut logs = Vec::new();
    for n in 0..250u64 {
        append_log(&mut logs, n, format!("entry {}", n));
        assert!(logs.len() <= LOG_LIMIT);
        assert_eq!(logs.last().unwrap().timestamp, n);
    }
    assert_eq!(logs.len(), 200);
    assert_eq!(logs[0].timestamp, 50);
    assert_eq!(logs[0].message, "entry 50");
    assert_eq!(logs[199].message, "entry 249");
    let mut long: Vec<HostLogEntry> =
        (0..500u64).map(|n| HostLogEntry { timestamp: n, message: String::new() }).collect();
    append_log(&mut long, 500, "last".to_string());
    assert_eq!(long.len(), 200);
    assert_eq!(long[0].timestamp, 301);
    assert_eq!(long[199].message, "last");
    clear_logs(&mut long);
    assert!(long.is_empty());
}

#[test]
fn the_log_is_exported_line_by_line() {
    let mut logs = Vec::new();
    assert_eq!(export_logs(&logs), "");
    append_log(&mut logs, 1_700_000_000, "Connected to Tab".to_string());
    assert_eq!(export_logs(&logs), "1700000000\tConnected to Tab");
    append_log(&mut logs, 0, String::new());
    append_log(&mut logs, 42, "two\nlines".to_string());
    assert_eq!(export_logs(&logs), "1700000000\tConnected to Tab\n0\t\n42\ttwo\nlines");
}

#[test]
fn settings_are_checked_before_they_are_saved() {
    let mut settings = HostSettings::default();
    assert_eq!(save_settings(HostPlatform::Windows, settings.clone()).unwrap().codec, "H.264 High");
    assert_eq!(save_settings(HostPlatform::Linux, settings.clone()).unwrap().quality, 80);
    settings.codec = " HEVC ".to_string();
    assert!(save_settings(HostPlatform::Windows, settings.clone()).is_ok());
    assert_eq!(
        save_settings(HostPlatform::Other, settings.clone()).unwrap_err(),
        "Codec not available on this host"
    );
    settings.codec = "h266".to_string();
    assert_eq!(
        save_settings(HostPlatform::Windows, settings.clone()).unwrap_err(),
        "Codec not available on this host"
    );
    settings.codec = "mpeg2".to_string();
    assert_eq!(save_settings(HostPlatform::Windows, settings).unwrap_err(), "Unsupported codec");
}

#[test]
fn stream_parameters_follow_the_settings() {
    let mut settings = HostSettings::default();
    let parameters = stream_parameters(&settings);
    assert_eq!((parameters.fps, parameters.bitrate_kbps, parameters.keyframe_interval), (120, 6400, 60));
    settings.quality = 0;
    settings.refresh_cap_hz = 0;
    settings.keyframe_interval = 0;
    let low = stream_parameters(&settings);
    assert_eq!((low.fps, low.bitrate_kbps, low.keyframe_interval), (1, 500, 1));
    settings.quality = 6;
    assert_eq!(stream_parameters(&settings).bitrate_kbps, 500);
    settings.quality = 7;
    assert_eq!(stream_parameters(&settings).bitrate_kbps, 560);
    settings.quality = 255;
    settings.refresh_cap_hz = u16::MAX;
    settings.keyframe_interval = u16::MAX;
    let high = stream_parameters(&settings);
    assert_eq!((high.fps, high.bitrate_kbps, high.keyframe_interval), (65_535, 20_400, 65_535));
}

#[test]
fn virtual_drivers_are_known_by_name() {
    assert!(looks_like_virtual_driver("Virtual Display Driver"));
    assert!(looks_like_virtual_driver("Microsoft INDIRECT DISPLAY adapter"));
    assert!(looks_like_virtual_driver("UberDisplay"));
    assert!(!looks_like_virtual_driver("NVIDIA GeForce RTX 3070"));
    assert!(!looks_like_virtual_driver("indirectdisplay"));
    assert!(!looks_like_virtual_driver(""));
    let devices = |items: &[(&str, bool)]| -> Vec<DisplayDevice> {
        items.iter().map(|(name, active)| DisplayDevice { name: name.to_string(), active: *active }).collect()
    };
    assert_eq!(probe_driver_status(&devices(&[])), DriverStatus { installed: false, active: false });
    assert_eq!(
        probe_driver_status(&devices(&[("NVIDIA", true)])),
        DriverStatus { installed: false, active: false }
    );
    assert_eq!(
        probe_driver_status(&devices(&[("NVIDIA", true), ("Virtual Display", false)])),
        DriverStatus { installed: true, active: false }
    );
    assert_eq!(
        probe_driver_status(&devices(&[("virtual a", false), ("x", true), ("virtual b", true)])),
        DriverStatus { installed: true, active: true }
    );
}

#[test]
fn displays_are_listed_with_their_modes() {
    let enumerated = vec![
        EnumeratedDisplay {
            id: "\\\\.\\DISPLAY1".to_string(),
            name: "NVIDIA GeForce".to_string(),
            active: true,
            primary: true,
            mode: Some(DisplayMode { width: 2560, height: 1440, refresh_hz: 144 }),
        },
        EnumeratedDisplay {
            id: "\\\\.\\DISPLAY2".to_string(),
            name: "Virtual Display Driver".to_string(),
            active: false,
            primary: false,
            mode: None,
        },
    ];
    let displays = list_displays(&enumerated);
    assert_eq!(displays.len(), 2);
    assert_eq!(displays[0].id, "\\\\.\\DISPLAY1");
    assert_eq!(displays[0].name, "NVIDIA GeForce");
    assert!(displays[0].active && displays[0].primary && !displays[0].is_virtual);
    assert_eq!((displays[0].width, displays[0].height, displays[0].refresh_hz), (2560, 1440, 144));
    assert!(!displays[1].active && !displays[1].primary && displays[1].is_virtual);
    assert_eq!((displays[1].width, displays[1].height, displays[1].refresh_hz), (0, 0, 0));
    assert_eq!(virtual_display_count(&displays), 1);
    let only = list_virtual_displays(&displays);
    assert_eq!(only.len(), 1);
    assert_eq!(only[0].id, "\\\\.\\DISPLAY2");
    assert!(list_displays(&vec![]).is_empty());
}

#[test]
fn virtual_displays_are_counted() {
    let displays = vec![display("a", true), display("b", false), display("c", true), display("d", true)];
    assert_eq!(virtual_display_count(&displays), 3);
    let names: Vec<String> = list_virtual_displays(&displays).into_iter().map(|d| d.name).collect();
    assert_eq!(names, vec!["a", "c", "d"]);
    assert_eq!(virtual_display_count(&vec![]), 0);
    assert_eq!(count_after_create(0), 1);
    assert_eq!(count_after_create(u32::MAX), u32::MAX);
    assert_eq!(count_after_remove(1), 0);
    assert_eq!(count_after_remove(0), 0);
}

#[test]
fn display_modes_are_listed_once() {
    let mode = |width, height, refresh_hz| DisplayMode { width, height, refresh_hz };
    let enumerated = vec![
        mode(1920, 1080, 60),
        mode(1920, 1080, 60),
        mode(1280, 720, 60),
        mode(1920, 1080, 59),
        mode(1280, 720, 60),
        mode(1920, 1080, 60),
    ];
    assert_eq!(list_display_modes(&enumerated), vec![mode(1920, 1080, 60), mode(1280, 720, 60), mode(1920, 1080, 59)]);
    assert!(list_display_modes(&vec![]).is_empty());
}

#[test]
fn the_tcp_table_is_read() {
    let port = |number: u16| u16::from_be(number) as u32;
    assert_eq!(row_port(port(1445)), 1445);
    assert_eq!(row_port(0xA505), 1445);
    assert_eq!(row_port(0xFFFF_A505), 1445);
    assert_eq!(row_port(0x0100), 1);
    let rows = vec![
        TcpRow { local_port: port(1445), state: 2 },
        TcpRow { local_port: port(1445), state: 5 },
        TcpRow { local_port: port(1446), state: 5 },
        TcpRow { local_port: port(1445), state: 5 },
        TcpRow { local_port: port(1445), state: 8 },
        TcpRow { local_port: 1445, state: 5 },
    ];
    let names = vec!["USB Root Hub".to_string(), "Galaxy Tab ADB Interface".to_string()];
    let status = probe_transport_status(&rows, &names);
    assert!(status.tcp_listening);
    assert_eq!(status.tcp_connections, 2);
    assert!(status.aoap_attached);
    let idle = probe_transport_status(&vec![TcpRow { local_port: port(1445), state: 5 }], &vec![]);
    assert!(!idle.tcp_listening);
    assert_eq!(idle.tcp_connections, 1);
    assert!(!idle.aoap_attached);
    let nothing = probe_transport_status(&vec![], &vec![]);
    assert!(!nothing.tcp_listening);
    assert_eq!(nothing.tcp_connections, 0);
}

#[test]
fn accessories_are_known_by_name() {
    assert!(is_accessory_name("Android Composite Device"));
    assert!(is_accessory_name("adb interface"));
    assert!(is_accessory_name("AOAP"));
    assert!(is_accessory_name("USB Accessory"));
    assert!(is_accessory_name("Accessory on usb"));
    assert!(!is_accessory_name("Accessory"));
    assert!(!is_accessory_name("USB Root Hub"));
    assert!(!is_accessory_name(""));
    assert!(probe_aoap_attached(&vec!["x".to_string(), "my android".to_string()]));
    assert!(!probe_aoap_attached(&vec!["x".to_string(), "y".to_string()]));
    assert!(!probe_aoap_attached(&vec![]));
}

#[test]
fn the_next_display_number_is_the_first_free_one() {
    assert_eq!(next_display_number(99, &vec![]), 99);
    assert_eq!(next_display_number(99, &vec![99]), 100);
    assert_eq!(next_display_number(99, &vec![99, 100, 102]), 101);
    assert_eq!(next_display_number(99, &vec![5, 98, 100]), 99);
    assert_eq!(next_display_number(99, &vec![5, 98, 99, 100, 101]), 102);
    assert_eq!(next_display_number(0, &vec![1, 2]), 0);
    assert_eq!(next_display_number(u32::MAX, &vec![1, 2]), u32::MAX);
}

#[test]
fn displays_are_started_and_stopped_one_by_one() {
    let mut state = LinuxDisplayState::new();
    assert_eq!(current_count(&state), 0);
    let mut started = Vec::new();
    loop {
        match ensure_display_count(HostPlatform::Linux, &state, 3).unwrap() {
            DisplayAction::Start { display_num, screen_spec } => {
                assert_eq!(screen_spec, "2560x1600x24");
                display_started(&mut state, display_num);
                started.push(display_num);
            }
            DisplayAction::Done => break,
            other => panic!("unexpected action {:?}", other),
        }
    }
    assert_eq!(started, vec![99, 100, 101]);
    assert_eq!(current_count(&state), 3);
    let mut stopped = Vec::new();
    loop {
        match ensure_display_count(HostPlatform::Linux, &state, 1).unwrap() {
            DisplayAction::Stop { display_num } => {
                assert_eq!(display_stopped(&mut state), Some(display_num));
                stopped.push(display_num);
            }
            DisplayAction::Done => break,
            other => panic!("unexpected action {:?}", other),
        }
    }
    assert_eq!(stopped, vec![101, 100]);
    assert_eq!(state.displays, vec![99]);
    assert!(display_started(&mut state, 105));
    assert!(display_started(&mut state, 7));
    assert!(display_started(&mut state, 100));
    assert!(!display_started(&mut state, 99));
    assert!(!display_started(&mut state, u32::MAX));
    assert_eq!(state.displays, vec![7, 99, 100, 105]);
    assert!(state.is_well_formed());
    state.displays.push(3);
    assert!(!state.is_well_formed());
    state.displays.pop();
    match ensure_display_count(HostPlatform::Linux, &state, 5).unwrap() {
        DisplayAction::Start { display_num, .. } => assert_eq!(display_num, 101),
        other => panic!("unexpected action {:?}", other),
    }
    let mut empty = LinuxDisplayState::new();
    assert_eq!(display_stopped(&mut empty), None);
}

#[test]
fn displays_exist_on_linux_only() {
    let state = LinuxDisplayState::new();
    for platform in [HostPlatform::Windows, HostPlatform::Other] {
        match ensure_display_count(platform, &state, 1) {
            Err(message) => assert_eq!(message, "Linux virtual display management is only available on Linux."),
            Ok(action) => panic!("unexpected action {:?}", action),
        }
    }
}

#[test]
fn a_new_geometry_asks_for_a_restart() {
    let mut state = LinuxDisplayState::new();
    assert_eq!(set_config(&mut state, 10, 1280, 720, 16), 0);
    display_started(&mut state, 10);
    display_started(&mut state, 11);
    assert_eq!(set_config(&mut state, 20, 800, 600, 8), 2);
    assert_eq!((state.base_display, state.width, state.height, state.depth), (20, 800, 600, 8));
    assert_eq!(state.displays, vec![10, 11]);
    assert_eq!(screen_spec(800, 600, 8), "800x600x8");
    assert_eq!(screen_spec(0, u32::MAX, 1), "0x4294967295x1");
    assert_eq!(
        display_args(99, "2560x1600x24"),
        vec![":99", "-screen", "0", "2560x1600x24", "-ac", "-nolisten", "tcp"]
    );
}
