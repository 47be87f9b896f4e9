use badb::device::{device_entries, ip_from_probe, ip_from_routes, os_from_probe};
use badb::session::parse_choice;
use badb::text::{contains_text, find_text, lines, tokens, trim};
use badb::{Badb, BadbError, Device, Reaction, Selection, ToolOutput};

fn strings(v: &[&str]) -> Vec<String> {
    v.iter().map(|s| s.to_string()).collect()
}

fn three_devices() -> Vec<Device> {
    vec![
        Device::new("A1".to_string(), "m1".to_string(), None, None),
        Device::new("B2".to_string(), "m2".to_string(), Some("13".to_string()), None),
        Device::new("C3".to_string(), "m3".to_string(), None, Some("10.0.0.3".to_string())),
    ]
}

#[test]
fn success_returns_stdout_verbatim() {
    let out = ToolOutput::Success("  line one\n\tline two  \n\n".to_string());
    match Badb::handle_output(&out, false) {
        Reaction::Finished(Ok(s)) => assert_eq!(s, "  line one\n\tline two  \n\n"),
        _ => panic!("expected the captured output"),
    }
    match Badb::handle_output(&ToolOutput::Success(String::new()), true) {
        Reaction::Finished(Ok(s)) => assert_eq!(s, ""),
        _ => panic!("expected the captured output"),
    }
}

#[test]
fn ambiguity_asks_for_a_device() {
    let exact = ToolOutput::Failure("adb: more than one device/emulator".to_string());
    assert!(matches!(Badb::handle_output(&exact, false), Reaction::ChooseDevice));
    let embedded = ToolOutput::Failure("error: adb: more than one device/emulator\n- waiting".to_string());
    assert!(matches!(Badb::handle_output(&embedded, false), Reaction::ChooseDevice));
}

#[test]
fn ambiguity_after_replay_is_a_tool_error() {
    let out = ToolOutput::Failure("adb: more than one device/emulator".to_string());
    match Badb::handle_output(&out, true) {
        Reaction::Finished(Err(BadbError::ExternalTool(e))) => {
            assert_eq!(e, "adb: more than one device/emulator")
        }
        _ => panic!("expected a tool error"),
    }
}

#[test]
fn other_failures_are_surfaced_verbatim() {
    let out = ToolOutput::Failure("adb: device 'X' not found\n".to_string());
    match Badb::handle_output(&out, false) {
        Reaction::Finished(Err(BadbError::ExternalTool(e))) => assert_eq!(e, "adb: device 'X' not found\n"),
        _ => panic!("expected a tool error"),
    }
    let near = ToolOutput::Failure("adb: more than one device".to_string());
    assert!(matches!(
        Badb::handle_output(&near, false),
        Reaction::Finished(Err(BadbError::ExternalTool(_)))
    ));
    let launch = ToolOutput::LaunchFailed("No such file or directory".to_string());
    match Badb::handle_output(&launch, false) {
        Reaction::Finished(Err(BadbError::LaunchFailed(m))) => assert_eq!(m, "No such file or directory"),
        _ => panic!("expected a launch failure"),
    }
}

#[test]
fn replay_carries_chosen_device_and_same_args() {
    let mut b = Badb::new();
    let args = strings(&["shell", "ls", "-la"]);
    assert_eq!(b.exec(&args), args);
    let out = ToolOutput::Failure("error: adb: more than one device/emulator".to_string());
    assert!(matches!(Badb::handle_output(&out, false), Reaction::ChooseDevice));
    let devices = three_devices();
    match b.select_device(&devices, Some("2\n")) {
        Selection::Chosen(id) => assert_eq!(id, "B2"),
        _ => panic!("expected a choice"),
    }
    assert_eq!(b.serial, Some("B2".to_string()));
    assert_eq!(b.replay(), strings(&["-s", "B2", "shell", "ls", "-la"]));
}

#[test]
fn invalid_answers_reprompt() {
    let mut b = Badb::new();
    let devices = three_devices();
    for input in ["0", "-1", "abc", "", "4", "+", "1 2", "99999999999999999999999999"] {
        assert!(matches!(b.select_device(&devices, Some(input)), Selection::Reprompt), "{}", input);
        assert_eq!(b.serial, None);
    }
}

#[test]
fn answers_are_trimmed_and_may_carry_a_plus() {
    let devices = three_devices();
    let mut b = Badb::new();
    assert!(matches!(b.select_device(&devices, Some("  3 \n")), Selection::Chosen(ref id) if id == "C3"));
    let mut c = Badb::new();
    assert!(matches!(c.select_device(&devices, Some("+1")), Selection::Chosen(ref id) if id == "A1"));
    assert_eq!(c.serial, Some("A1".to_string()));
}

#[test]
fn closed_input_and_no_candidates_fail() {
    let mut b = Badb::new();
    assert!(matches!(
        b.select_device(&three_devices(), None),
        Selection::Failed(BadbError::InputClosed)
    ));
    assert!(matches!(
        b.select_device(&Vec::new(), Some("1")),
        Selection::Failed(BadbError::NoDevicesFound)
    ));
    assert_eq!(b.serial, None);
}

#[test]
fn parse_choice_values() {
    assert_eq!(parse_choice("1", 3), Some(0));
    assert_eq!(parse_choice("3", 3), Some(2));
    assert_eq!(parse_choice("03", 3), Some(2));
    assert_eq!(parse_choice("4", 3), None);
    assert_eq!(parse_choice("0", 3), None);
    assert_eq!(parse_choice("-1", 3), None);
    assert_eq!(parse_choice("", 3), None);
    assert_eq!(parse_choice("1", 0), None);
    assert_eq!(parse_choice("18446744073709551615", usize::MAX), Some(usize::MAX - 1));
}

#[test]
fn two_line_listing_yields_one_record() {
    let listing = "List of devices attached\nABC123 device model:Pixel_5 ...";
    let entries = device_entries(listing);
    assert_eq!(entries, vec![("ABC123".to_string(), "Pixel_5".to_string())]);
    let os = vec![ToolOutput::Success("12\n".to_string())];
    let ip = vec![ToolOutput::Failure("error".to_string())];
    let records = Badb::list_devices(listing, &os, &ip);
    assert_eq!(records.len(), 1);
    assert_eq!(records[0].serial, "ABC123");
    assert_eq!(records[0].model, "Pixel_5");
    assert_eq!(records[0].os_version, "12");
    assert_eq!(records[0].ip, "Undefined");
}

#[test]
fn listing_lines_without_model_and_blank_lines() {
    let listing = "List of devices attached\r\nX1\tdevice usb:1-1\r\n\r\nY2    device product:p model:Nexus:extra device:d\r\n";
    let entries = device_entries(listing);
    assert_eq!(
        entries,
        vec![
            ("X1".to_string(), "Undefined".to_string()),
            ("Y2".to_string(), "Nexus".to_string())
        ]
    );
    assert!(device_entries("List of devices attached\n\n").is_empty());
    assert!(device_entries("").is_empty());
}

#[test]
fn device_listing_with_no_devices_is_an_error() {
    assert!(matches!(Badb::devices(&Ok(Vec::new())), Err(BadbError::NoDevicesFound)));
    let records = Badb::list_devices("List of devices attached\n", &Vec::new(), &Vec::new());
    assert!(records.is_empty());
    assert!(matches!(Badb::devices(&Ok(records)), Err(BadbError::NoDevicesFound)));
    let failed = Err(BadbError::ExternalTool("daemon not running".to_string()));
    assert!(matches!(Badb::devices(&failed), Err(BadbError::NoDevicesFound)));
}

#[test]
fn device_table_has_header_and_rows() {
    let table = Badb::devices(&Ok(three_devices())).ok().unwrap();
    for word in ["serial", "model", "os_version", "ip", "A1", "m2", "13", "10.0.0.3", "Undefined"] {
        assert!(table.contains(word), "{}", word);
    }
    let lines_with_b2: Vec<&str> = table.lines().filter(|l| l.contains("B2")).collect();
    assert_eq!(lines_with_b2.len(), 1);
    assert!(lines_with_b2[0].contains("m2") && lines_with_b2[0].contains("13"));
}

#[test]
fn ip_is_read_after_src_marker() {
    assert_eq!(
        ip_from_routes("default via 10.0.0.1 dev wlan0 src 10.0.0.42 "),
        Some("10.0.0.42".to_string())
    );
    assert_eq!(
        ip_from_routes("10.0.0.0/24 dev wlan0 proto kernel\n192.168.1.0/24 dev eth0 src 192.168.1.7\n"),
        Some("192.168.1.7".to_string())
    );
    assert_eq!(ip_from_routes("default via 10.0.0.1 dev wlan0"), None);
    assert_eq!(ip_from_routes("dev wlan0 src "), None);
    assert_eq!(ip_from_probe(&ToolOutput::Failure("src 1.2.3.4".to_string())), None);
    assert_eq!(
        ip_from_probe(&ToolOutput::Success("x src 1.2.3.4\n".to_string())),
        Some("1.2.3.4".to_string())
    );
}

#[test]
fn os_probe_is_trimmed_or_absent() {
    assert_eq!(os_from_probe(&ToolOutput::Success("  13\r\n".to_string())), Some("13".to_string()));
    assert_eq!(os_from_probe(&ToolOutput::Failure("13".to_string())), None);
    assert_eq!(os_from_probe(&ToolOutput::LaunchFailed("x".to_string())), None);
    let d = Device::new("S".to_string(), "M".to_string(), None, None);
    assert_eq!(d.os_version, "Undefined");
    assert_eq!(d.ip, "Undefined");
}

#[test]
fn pinned_session_lists_devices_on_that_device() {
    let mut b = Badb::new();
    b.serial = Some("DEVICE1".to_string());
    assert_eq!(b.list_devices_command(), strings(&["-s", "DEVICE1", "devices", "-l"]));
    assert_eq!(b.exec_cmd("devices"), strings(&["-s", "DEVICE1", "devices"]));
    let pinned = Badb::with_serial("DEVICE1".to_string());
    assert_eq!(pinned.list_devices_command(), strings(&["-s", "DEVICE1", "devices", "-l"]));
    assert_eq!(Badb::new().list_devices_command(), strings(&["devices", "-l"]));
}

#[test]
fn probes_name_their_device() {
    let mut b = Badb::new();
    b.serial = Some("P".to_string());
    assert_eq!(
        Badb::os_probe_command("Q"),
        strings(&["-s", "Q", "shell", "getprop", "ro.build.version.release"])
    );
    assert_eq!(Badb::ip_probe_command("Q"), strings(&["-s", "Q", "shell", "ip", "route"]));
}

#[test]
fn package_listing_arguments() {
    let mut b = Badb::new();
    assert_eq!(b.list_packages(None), strings(&["shell", "pm", "list", "packages"]));
    let third = strings(&["-3"]);
    assert_eq!(b.list_packages(Some(&third)), strings(&["shell", "pm", "list", "packages", "-3"]));
    assert_eq!(b.replay(), strings(&["shell", "pm", "list", "packages", "-3"]));
    b.serial = Some("Z".to_string());
    assert_eq!(b.replay(), strings(&["-s", "Z", "shell", "pm", "list", "packages", "-3"]));
}

#[test]
fn error_messages() {
    assert_eq!(BadbError::NoDevicesFound.message(), "No devices found");
    assert_eq!(BadbError::InputClosed.message(), "Input closed");
    assert_eq!(BadbError::ExternalTool("boom\n".to_string()).message(), "boom\n");
}

#[test]
fn text_helpers() {
    assert_eq!(trim(" \t a b \n"), "a b");
    assert_eq!(trim(" \u{3000} "), "");
    assert_eq!(lines("a\r\nb\n\nc"), strings(&["a", "b", "", "c"]));
    assert_eq!(lines("a\n"), strings(&["a"]));
    assert!(lines("").is_empty());
    assert_eq!(tokens("  x\ty  z "), strings(&["x", "y", "z"]));
    assert_eq!(find_text("abcabc", "ca"), Some(2));
    assert_eq!(find_text("abc", "d"), None);
    assert!(contains_text("xx adb: more than one device/emulator", "adb: more than one device/emulator"));
}
