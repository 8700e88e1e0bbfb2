use cir::lircd::{lircd_irp, LircdTimings};
use cir::decode::{decoded_code, decoded_line, raw_tokens, remote_line, sample_token, InfraredData, SampleKind};

fn same(a: &InfraredData, b: &InfraredData) -> bool {
    match (a, b) {
        (InfraredData::Flash(x), InfraredData::Flash(y)) => x == y,
        (InfraredData::Gap(x), InfraredData::Gap(y)) => x == y,
        (InfraredData::Reset, InfraredData::Reset) => true,
        _ => false,
    }
}

#[test]
fn raw_alternates_flash_and_gap() {
    let t = raw_tokens(&vec![9000, 4500, 564, 1692, 564]);
    let expected = [
        InfraredData::Flash(9000),
        InfraredData::Gap(4500),
        InfraredData::Flash(564),
        InfraredData::Gap(1692),
        InfraredData::Flash(564),
    ];
    assert_eq!(t.len(), expected.len());
    for (a, b) in t.iter().zip(expected.iter()) {
        assert!(same(a, b));
    }
    assert!(raw_tokens(&vec![]).is_empty());
}

#[test]
fn samples_become_tokens() {
    assert!(same(&sample_token(SampleKind::Pulse, 10).unwrap(), &InfraredData::Flash(10)));
    assert!(same(&sample_token(SampleKind::Space, 11).unwrap(), &InfraredData::Gap(11)));
    assert!(same(&sample_token(SampleKind::Timeout, 12).unwrap(), &InfraredData::Gap(12)));
    assert!(same(&sample_token(SampleKind::Overflow, 13).unwrap(), &InfraredData::Reset));
    assert!(sample_token(SampleKind::Other, 14).is_none());
}

#[test]
fn remote_codes_are_named() {
    let codes = vec![("KEY_A".to_string(), 1u64), ("KEY_B".to_string(), 0x1f)];
    assert_eq!(remote_line("X", &codes, 1), "remote:X code:KEY_A");
    assert_eq!(remote_line("X", &codes, 0x1f), "remote:X code:KEY_B");
    assert_eq!(remote_line("X", &codes, 0xab), "remote:X unmapped code:ab");
}

#[test]
fn decoded_bindings_in_hex() {
    let vars = vec![("D".to_string(), 4i64), ("S".to_string(), 0x0c), ("F".to_string(), -1)];
    assert_eq!(decoded_line(&vars), "decoded: D=4, S=c, F=ffffffffffffffff");
    assert_eq!(decoded_line(&vec![]), "decoded: ");
}

#[test]
fn code_binding_is_found() {
    let vars = vec![("D".to_string(), 4i64), ("CODE".to_string(), 0x10)];
    assert_eq!(decoded_code(&vars), Some(0x10));
    assert_eq!(decoded_code(&vec![("D".to_string(), 4i64)]), None);
}

#[test]
fn lircd_timings_lower_to_irp() {
    let minimal = LircdTimings {
        bits: 8,
        header: None,
        one: (1000, 500),
        zero: (500, 500),
        ptrail: None,
        gap: 50000,
    };
    assert_eq!(lircd_irp(&minimal), "{msb}<500,-500|1000,-500>(CODE:8,-50000)");
    let full = LircdTimings {
        bits: 32,
        header: Some((9000, 4500)),
        one: (564, 1692),
        zero: (564, 564),
        ptrail: Some(564),
        gap: 108000,
    };
    assert_eq!(
        lircd_irp(&full),
        "{msb}<564,-564|564,-1692>(9000,-4500,CODE:32,564,-108000)"
    );
}
