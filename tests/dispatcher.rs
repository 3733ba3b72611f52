use comb::config::{Config, Device};
use comb::device::{device_name_matches, open_devices, path_in_devices, DeviceAccessor, DeviceIdCombo, DeviceInfo};
use comb::dispatcher::{config_changed, populate_devices, Dispatcher};

fn name(n: &str) -> DeviceAccessor {
    DeviceAccessor::Name(n.to_string())
}

fn path(p: &str) -> DeviceAccessor {
    DeviceAccessor::Path(p.to_string())
}

fn info(p: &str, n: Option<&str>, u: Option<&str>) -> DeviceInfo {
    DeviceInfo { path: p.to_string(), name: n.map(String::from), unique_name: u.map(String::from) }
}

fn cfg(accessors: Vec<DeviceAccessor>) -> Config {
    Config { devices: accessors.into_iter().map(|accessor| Device { accessor, actions: vec![] }).collect() }
}

fn strings(v: &[&str]) -> Vec<String> {
    v.iter().map(|s| s.to_string()).collect()
}

#[test]
fn accessor_ids() {
    assert_eq!(name("pad").to_string(), "pad");
    assert_eq!(path("/dev/input/event0").to_string(), "/dev/input/event0");
    assert_eq!(path("/dev/input/by-id/kbd").canonicalized(Some("/dev/input/event4".to_string())), path("/dev/input/event4"));
    assert_eq!(path("/dev/input/by-id/kbd").canonicalized(None), path("/dev/input/by-id/kbd"));
    assert_eq!(name("pad").canonicalized(Some("/x".to_string())), name("pad"));
}

#[test]
fn name_matching_prefers_unique_names() {
    let accessors = vec![path("/dev/input/event1"), name(" Pad "), name("pad-0001")];
    let dev = info("/dev/input/event2", Some("Pad"), Some("pad-0001"));
    assert_eq!(device_name_matches(&dev, &accessors), Some(2));
    let dev = info("/dev/input/event2", Some("Pad"), None);
    assert_eq!(device_name_matches(&dev, &accessors), Some(1));
    let dev = info("/dev/input/event1", Some("Mouse"), None);
    assert_eq!(device_name_matches(&dev, &accessors), None);
}

#[test]
fn path_in_devices_finds_the_first_accessor() {
    let accessors = vec![name("Mouse"), path("/dev/input/event1"), name("Keyboard")];
    assert_eq!(path_in_devices(&info("/dev/input/event1", Some("Keyboard"), None), &accessors), Some(&accessors[1]));
    assert_eq!(path_in_devices(&info("/dev/input/event9", Some("Keyboard"), None), &accessors), Some(&accessors[2]));
    assert_eq!(path_in_devices(&info("/dev/input/event9", None, Some("Mouse")), &accessors), Some(&accessors[0]));
    assert_eq!(path_in_devices(&info("/dev/input/event9", Some("Tablet"), None), &accessors), None);
}

#[test]
fn opening_devices() {
    let accessors = vec![name("Keyboard"), path("/dev/input/event7"), path("/dev/input/missing")];
    let present = vec![
        (info("/dev/input/event0", Some("Mouse"), None), 0u32),
        (info("/dev/input/event1", Some("Keyboard"), None), 1u32),
        (info("/dev/input/event2", Some("Pad"), Some("Keyboard")), 2u32),
    ];
    let opened = vec![None, Some(7u32), None];
    let devices: Vec<DeviceIdCombo<u32>> = open_devices(&accessors, present, opened);
    let got: Vec<(String, u32)> = devices.iter().map(|d| (d.id().to_string(), d.device)).collect();
    assert_eq!(
        got,
        vec![("Keyboard".to_string(), 1), ("Keyboard".to_string(), 2), ("/dev/input/event7".to_string(), 7)]
    );
}

#[test]
fn reconciliation_on_reload() {
    let mut d = Dispatcher::new(&cfg(vec![name("a"), path("/dev/input/event1"), name("b")]));
    let removed = d.update_config(&cfg(vec![name("b"), name("c")]));
    assert_eq!(removed, strings(&["a", "/dev/input/event1"]));
    assert_eq!(d.accessors, vec![name("b"), name("c")]);
    let removed = d.update_config(&Config::default());
    assert_eq!(removed, strings(&["b", "c"]));
    assert!(d.accessors.is_empty());
}

#[test]
fn vanished_device_comes_back_only_if_still_configured() {
    let d = Dispatcher::new(&cfg(vec![path("/dev/input/event3")]));
    let back = d.device_added(&info("/dev/input/event3", Some("Keyboard"), None), 3u8).unwrap();
    assert_eq!(back.id(), "/dev/input/event3");
    assert_eq!(back.device, 3);
    assert!(d.device_added(&info("/dev/input/event4", Some("Keyboard"), None), 4u8).is_none());
}

#[test]
fn snapshots_of_present_nodes() {
    let mut snapshot = strings(&["/dev/input/event0", "/dev/input/event1"]);
    let (added, removed) = populate_devices(&mut snapshot, strings(&["/dev/input/event1", "/dev/input/event2"]));
    assert_eq!(added, strings(&["/dev/input/event2"]));
    assert_eq!(removed, strings(&["/dev/input/event0"]));
    assert_eq!(snapshot, strings(&["/dev/input/event1", "/dev/input/event2"]));
    let (added, removed) = populate_devices(&mut snapshot, strings(&["/dev/input/event1", "/dev/input/event2"]));
    assert!(added.is_empty() && removed.is_empty());
}

#[test]
fn config_change_detection() {
    let paths = strings(&["/home/u/.config/comb/other.toml", "/home/u/.config/comb/config.toml"]);
    assert!(config_changed(&paths, "/home/u/.config/comb/config.toml"));
    assert!(!config_changed(&paths[..1].to_vec(), "/home/u/.config/comb/config.toml"));
    assert!(!config_changed(&vec![], "/x"));
}

#[test]
fn combos() {
    let c = DeviceIdCombo::new("x".to_string(), 5u8);
    assert_eq!(c.id(), "x");
    let c = DeviceIdCombo::from_accessor(name("pad"), 6u8);
    assert_eq!(c.id(), "pad");
    assert_eq!(c.device, 6);
}

#[test]
fn device_names_are_trimmed() {
    let accessors = vec![name("pad"), name(" Keyboard")];
    let pad = info("/dev/input/event5", Some("pad "), None);
    assert_eq!(device_name_matches(&pad, &accessors), Some(0));
    assert_eq!(path_in_devices(&pad, &accessors), Some(&accessors[0]));
    let kbd = info("/dev/input/event6", Some("Mouse"), Some("\tKeyboard\u{3000}"));
    assert_eq!(device_name_matches(&kbd, &accessors), Some(1));
    let devices = open_devices(&accessors, vec![(pad, 5u8), (kbd, 6u8)], vec![None, None]);
    let ids: Vec<&str> = devices.iter().map(|d| d.id()).collect();
    assert_eq!(ids, vec!["pad", " Keyboard"]);
}

#[test]
fn added_devices_in_order() {
    let d = Dispatcher::new(&cfg(vec![name("Keyboard"), path("/dev/input/event3")]));
    let added = vec![
        (info("/dev/input/event3", Some("Keyboard"), None), 3u8),
        (info("/dev/input/event4", Some("Mouse"), None), 4u8),
        (info("/dev/input/event5", Some("Keyboard "), None), 5u8),
    ];
    let got: Vec<(String, u8)> = d.devices_added(added).iter().map(|c| (c.id().to_string(), c.device)).collect();
    assert_eq!(got, vec![("Keyboard".to_string(), 3), ("Keyboard".to_string(), 5)]);
}
