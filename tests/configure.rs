use cir::config::is_lircd_conf;
use cir::config::{enable_decoders, select_protocols, Purpose};
use cir::devices::{select_device, Capabilities, DeviceError, DeviceInfo};
use cir::keys::{key_name, resolve_keys};
use cir::timing::{accepts, decode_options, gap_resets, max_gap_for, Options};

fn strings(v: &[&str]) -> Vec<String> {
    v.iter().map(|s| s.to_string()).collect()
}

#[test]
fn protocols_by_name_in_request_order() {
    let sup = strings(&["nec", "rc-5", "sony"]);
    assert_eq!(select_protocols(&sup, &strings(&["rc-5", "", "nec", "rc-5"])), Ok(vec![1, 0]));
}

#[test]
fn protocols_all_adds_every_supported_once() {
    let sup = strings(&["nec", "rc-5", "sony"]);
    assert_eq!(select_protocols(&sup, &strings(&["sony", "all"])), Ok(vec![2, 0, 1]));
    assert_eq!(select_protocols(&sup, &strings(&["all"])), Ok(vec![0, 1, 2]));
}

#[test]
fn protocols_unsupported_name_is_reported() {
    let sup = strings(&["nec", "rc-5"]);
    assert_eq!(select_protocols(&sup, &strings(&["nec", "jvc", "foo"])), Err(1));
}

#[test]
fn protocols_none_requested() {
    let sup = strings(&["nec"]);
    assert_eq!(select_protocols(&sup, &strings(&[])), Ok(vec![]));
    assert_eq!(select_protocols(&sup, &strings(&[""])), Ok(vec![]));
}

#[test]
fn decoders_are_added_once() {
    let sup = strings(&["nec", "rc-5", "sony"]);
    let mut protocols = vec![2];
    assert!(enable_decoders(&sup, &strings(&["rc-5", "sony", "rc-5"]), &mut protocols));
    assert_eq!(protocols, vec![2, 1]);
}

#[test]
fn unsupported_decoder_leaves_protocols() {
    let sup = strings(&["nec"]);
    let mut protocols = vec![0];
    assert!(!enable_decoders(&sup, &strings(&["nec", "rc-6"]), &mut protocols));
    assert_eq!(protocols, vec![0]);
}

#[test]
fn max_gap_choice() {
    assert_eq!(max_gap_for(Some(5000), Some(125000)), 5000);
    assert_eq!(max_gap_for(None, Some(125000)), 112500);
    assert_eq!(max_gap_for(None, None), 100000);
    assert_eq!(max_gap_for(None, Some(u32::MAX)), 3865470565);
}

#[test]
fn options_defaults() {
    let o = decode_options("irp", 50000, None, None);
    assert_eq!(o.name, "irp");
    assert_eq!(o.max_gap, 50000);
    assert_eq!(o.aeps, 100);
    assert_eq!(o.eps, 3);
    let o = decode_options("x", 1, Some(7), Some(10));
    assert_eq!((o.aeps, o.eps), (7, 10));
    let d = Options::default();
    assert_eq!((d.max_gap, d.aeps, d.eps), (100000, 100, 3));
}

#[test]
fn flash_band_edges() {
    let o = decode_options("nec", 100000, Some(100), Some(3));
    // 564 * 3 / 100 = 16, so the band is 448 ..= 680
    assert!(!accepts(564, 447, &o));
    assert!(accepts(564, 448, &o));
    assert!(accepts(564, 564, &o));
    assert!(accepts(564, 680, &o));
    assert!(!accepts(564, 681, &o));
}

#[test]
fn band_for_large_lengths() {
    let o = decode_options("x", 1, Some(0), Some(100));
    assert!(accepts(u32::MAX, 0, &o));
    assert!(accepts(u32::MAX, u32::MAX, &o));
    let o = decode_options("x", 1, Some(0), Some(0));
    assert!(accepts(9000, 9000, &o));
    assert!(!accepts(9000, 9001, &o));
}

#[test]
fn max_gap_boundary() {
    let o = decode_options("nec", 50000, None, None);
    assert!(!gap_resets(49999, &o));
    assert!(gap_resets(50000, &o));
    assert!(gap_resets(60000, &o));
}

#[test]
fn key_names_are_normalized() {
    assert_eq!(key_name("power"), "KEY_POWER");
    assert_eq!(key_name("key_a"), "KEY_A");
    assert_eq!(key_name("KEY_B"), "KEY_B");
    assert_eq!(key_name("KEY"), "KEY_KEY");
    assert_eq!(key_name(""), "KEY_");
}

#[test]
fn keys_resolve_through_key_table() {
    assert_eq!(resolve_keys(&strings(&["KEY_A", "bogus", "a"]), false), vec![Some(30), None, None]);
    assert_eq!(resolve_keys(&strings(&["a", "Power", "bogus"]), true), vec![Some(30), Some(116), None]);
}

fn dev(name: &str, lirc: Option<&str>, caps: Option<(bool, bool, bool)>) -> DeviceInfo {
    DeviceInfo {
        name: name.to_string(),
        lircdev: lirc.map(|s| s.to_string()),
        caps: caps.map(|(r, s, t)| Capabilities {
            receive_raw: r,
            receive_scancodes: s,
            send: t,
        }),
    }
}

fn devices() -> Vec<DeviceInfo> {
    vec![
        dev("rc0", None, None),
        dev("rc1", Some("/dev/lirc0"), Some((false, false, true))),
        dev("rc2", Some("/dev/lirc1"), Some((true, false, false))),
    ]
}

#[test]
fn device_by_purpose() {
    let d = devices();
    assert!(matches!(select_device(&d, &None, &None, &Purpose::Receive), Ok(2)));
    assert!(matches!(select_device(&d, &None, &None, &Purpose::Transmit), Ok(1)));
    let only = vec![dev("rc0", None, None)];
    assert!(matches!(select_device(&only, &None, &None, &Purpose::Receive), Err(DeviceError::NoLirc)));
}

#[test]
fn device_by_name_or_path() {
    let d = devices();
    assert!(matches!(select_device(&d, &Some("rc0".to_string()), &None, &Purpose::Receive), Ok(0)));
    assert!(matches!(select_device(&d, &None, &Some("/dev/lirc1".to_string()), &Purpose::Transmit), Ok(2)));
    assert!(matches!(
        select_device(&d, &Some("rc9".to_string()), &None, &Purpose::Receive),
        Err(DeviceError::NotFound)
    ));
    assert!(matches!(
        select_device(&d, &None, &Some("/dev/lirc7".to_string()), &Purpose::Receive),
        Err(DeviceError::NotFound)
    ));
}

#[test]
fn no_devices_at_all() {
    assert!(matches!(select_device(&vec![], &None, &None, &Purpose::Receive), Err(DeviceError::NoDevices)));
}

#[test]
fn lircd_conf_files_are_told_by_name() {
    assert!(is_lircd_conf("/etc/rc_keymaps/x.lircd.conf"));
    assert!(is_lircd_conf(".lircd.conf"));
    assert!(!is_lircd_conf("lircd.conf"));
    assert!(!is_lircd_conf("/etc/rc_keymaps/nec.toml"));
    assert!(!is_lircd_conf(""));
}
