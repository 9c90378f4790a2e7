use crony::patch::{encode_return_stub, PatchLedger};

#[test]
fn stub_encodes_mov_rax_ret() {
    assert_eq!(encode_return_stub(7), vec![0x48, 0xB8, 7, 0, 0, 0, 0, 0, 0, 0, 0xC3]);
}

#[test]
fn stub_encodes_negative_constants_in_twos_complement() {
    assert_eq!(
        encode_return_stub(-1),
        vec![0x48, 0xB8, 0xFF, 0xFF, 0xFF, 0xFF, 0xFF, 0xFF, 0xFF, 0xFF, 0xC3]
    );
    assert_eq!(
        encode_return_stub(-2),
        vec![0x48, 0xB8, 0xFE, 0xFF, 0xFF, 0xFF, 0xFF, 0xFF, 0xFF, 0xFF, 0xC3]
    );
}

#[test]
fn stub_is_little_endian() {
    assert_eq!(
        encode_return_stub(0x0102_0304_0506_0708),
        vec![0x48, 0xB8, 0x08, 0x07, 0x06, 0x05, 0x04, 0x03, 0x02, 0x01, 0xC3]
    );
}

#[test]
fn ledger_records_each_target_once() {
    let mut ledger = PatchLedger::new();
    assert_eq!(ledger.installed_value(0x1111), None);
    assert!(ledger.record(0x1111, 7));
    assert_eq!(ledger.installed_value(0x1111), Some(7));
    assert!(!ledger.record(0x1111, 9));
    assert_eq!(ledger.installed_value(0x1111), Some(7));
}

#[test]
fn ledger_keeps_targets_independent() {
    let mut ledger = PatchLedger::new();
    assert!(ledger.record(0x1111, 7));
    assert!(ledger.record(0x2222, 9));
    assert_eq!(ledger.installed_value(0x1111), Some(7));
    assert_eq!(ledger.installed_value(0x2222), Some(9));
    assert_eq!(ledger.installed_value(0x3333), None);
}
