use crony::elex::FunctionPtr;
use crony::table::FunctionTable;

fn raw(pairs: &[(&[u8], usize)]) -> Vec<(Vec<u8>, FunctionPtr)> {
    pairs.iter().map(|(n, a)| (n.to_vec(), FunctionPtr(*a))).collect()
}

#[test]
fn keys_are_normalized_names() {
    let table = FunctionTable::new(raw(&[(b"GiveXP", 0x1111), (b"Kill", 0x2222)]));
    assert_eq!(table.len(), 2);
    assert_eq!(table.lookup(b"give_xp"), Some(FunctionPtr(0x1111)));
    assert_eq!(table.lookup(b"kill"), Some(FunctionPtr(0x2222)));
    assert_eq!(table.lookup(b"GiveXP"), None);
    assert_eq!(table.lookup(b"teleport"), None);
}

#[test]
fn later_raw_entry_wins_for_one_key() {
    let table = FunctionTable::new(raw(&[(b"GiveXP", 0x1111), (b"give_xp", 0x9999)]));
    assert_eq!(table.len(), 1);
    assert_eq!(table.lookup(b"give_xp"), Some(FunctionPtr(0x9999)));
}

#[test]
fn empty_table_maps_nothing() {
    let table = FunctionTable::new(vec![]);
    assert_eq!(table.len(), 0);
    assert_eq!(table.lookup(b"give_xp"), None);
}
