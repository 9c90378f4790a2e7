use crony::elex::{
    get_all_functions, nul_terminated, prepare_give, Entity, FunctionDef, FunctionList,
    FunctionPtr, FunctionRegistry, Notify, Payload,
};

#[test]
fn null_entity_is_null_and_only_it() {
    assert!(Entity::null().is_null());
    assert!(Entity(0).is_null());
    assert!(!Entity(0xAAAA).is_null());
}

#[test]
fn notify_wire_codes() {
    assert_eq!(Notify::from(false).code(), 0);
    assert_eq!(Notify::from(true).code(), 2);
}

#[test]
fn default_invocation_uses_player_pair() {
    let ptr = FunctionPtr(0x1234);
    let player = Entity(0xBEEF);
    let call = ptr.invoke_default(player, Payload::Int(7));
    assert_eq!(call.subject_a, player);
    assert_eq!(call.subject_b, player);
    assert_eq!(call.payload, Payload::Int(7));
    assert_eq!(call.target, 0x1234);
}

#[test]
fn explicit_invocation_keeps_both_subjects() {
    let ptr = FunctionPtr(0x4321);
    let call = ptr.invoke_with(Entity(1), Entity(2), Payload::Unit);
    assert_eq!(call.subject_a, Entity(1));
    assert_eq!(call.subject_b, Entity(2));
    assert_eq!(call.payload, Payload::Unit);
    assert_eq!(call.target, 0x4321);
}

#[test]
fn nul_terminated_appends_terminator() {
    assert_eq!(nul_terminated(b"abc"), Some(vec![97, 98, 99, 0]));
    assert_eq!(nul_terminated(b""), Some(vec![0]));
}

#[test]
fn nul_terminated_rejects_interior_nul() {
    assert_eq!(nul_terminated(b"a\0b"), None);
}

fn def(name: &[u8], ptr: usize) -> FunctionDef {
    FunctionDef::new(name.to_vec(), 0, ptr, 0)
}

#[test]
fn registry_exposes_third_and_fourth_lists_in_order() {
    let registry = FunctionRegistry::new(
        FunctionList::new(vec![def(b"Hidden1", 0x1)]),
        FunctionList::new(vec![def(b"Hidden2", 0x2)]),
        FunctionList::new(vec![def(b"GiveXP", 0x1111), def(b"Kill", 0x2222)]),
        FunctionList::new(vec![def(b"AutoLoot", 0x3333)]),
    );
    let pairs = get_all_functions(&registry);
    let names: Vec<&[u8]> = pairs.iter().map(|p| p.0.as_slice()).collect();
    assert_eq!(names, vec![&b"GiveXP"[..], b"Kill", b"AutoLoot"]);
    let addrs: Vec<usize> = pairs.iter().map(|p| p.1 .0).collect();
    assert_eq!(addrs, vec![0x1111, 0x2222, 0x3333]);
}

#[test]
fn registry_enumeration_is_restartable() {
    let registry = FunctionRegistry::new(
        FunctionList::new(vec![]),
        FunctionList::new(vec![]),
        FunctionList::new(vec![def(b"GiveXP", 0x1111)]),
        FunctionList::new(vec![]),
    );
    let first: Vec<usize> = get_all_functions(&registry).iter().map(|p| p.1 .0).collect();
    let second: Vec<usize> = get_all_functions(&registry).iter().map(|p| p.1 .0).collect();
    assert_eq!(first, second);
}

#[test]
fn prepare_give_narrows_and_maps_notify() {
    let cmd = prepare_give(Entity(1), Entity(2), 0x1_0000_0005, -1, true);
    assert_eq!(cmd.target, Entity(1));
    assert_eq!(cmd.item, Entity(2));
    assert_eq!(cmd.quantity, 5);
    assert_eq!(cmd.x, 0xFFFF_FFFF);
    assert_eq!(cmd.notify, Notify::Always);
    let quiet = prepare_give(Entity(1), Entity(2), 3, 0, false);
    assert_eq!(quiet.quantity, 3);
    assert_eq!(quiet.x, 0);
    assert_eq!(quiet.notify, Notify::Never);
}
