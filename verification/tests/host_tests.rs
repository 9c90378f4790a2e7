use std::cell::RefCell;
use std::rc::Rc;
use std::sync::mpsc;

use crony::elex::{Entity, FunctionPtr, Invocation, Payload};
use crony::handlers::HandlerShape;
use crony::host::{
    create_game_module, verify_version, CallArgs, CommandOutcome, OverrideError, ScriptHost,
    TranscriptEntry,
};
use crony::patch::PatchLedger;
use crony::table::FunctionTable;

fn raw(pairs: &[(&[u8], usize)]) -> Vec<(Vec<u8>, FunctionPtr)> {
    pairs.iter().map(|(n, a)| (n.to_vec(), FunctionPtr(*a))).collect()
}

fn plain_host(table: FunctionTable) -> ScriptHost {
    let (_tx, rx) = mpsc::channel();
    ScriptHost::new(rhai::Engine::new(), rx, table)
}

#[test]
fn version_gate_accepts_only_the_supported_build() {
    assert!(verify_version(1647620648));
    assert!(!verify_version(1647620649));
    assert!(!verify_version(0));
}

#[test]
fn discovered_entries_get_their_handler_shapes() {
    let table = FunctionTable::new(raw(&[(b"GiveXP", 0x1111), (b"Kill", 0x2222)]));
    let exports = create_game_module(&table);
    assert_eq!(exports.len(), 2);
    let give_xp = exports.iter().find(|e| e.name == b"give_xp").unwrap();
    let kill = exports.iter().find(|e| e.name == b"kill").unwrap();

    let player = Entity(0xAAAA);
    let call = give_xp.call(player, CallArgs::Int(100)).unwrap();
    assert_eq!(call.subject_a, player);
    assert_eq!(call.subject_b, player);
    assert_eq!(call.payload, Payload::Int(100));
    assert_eq!(call.target, 0x1111);

    let instigator = Entity(0xBBBB);
    let target = Entity(0xCCCC);
    let call = kill.call(player, CallArgs::Two(instigator, target)).unwrap();
    assert_eq!(call.subject_a, instigator);
    assert_eq!(call.subject_b, target);
    assert_eq!(call.payload, Payload::Unit);
    assert_eq!(call.target, 0x2222);
}

#[test]
fn unhandled_entries_use_the_default_shape() {
    let table = FunctionTable::new(raw(&[(b"Teleport", 0x7777)]));
    let exports = create_game_module(&table);
    let teleport = &exports[0];
    assert_eq!(teleport.name, b"teleport");
    let player = Entity(0xAAAA);
    let call = teleport.call(player, CallArgs::NoArgs).unwrap();
    assert_eq!(call.subject_a, player);
    assert_eq!(call.subject_b, player);
    assert_eq!(call.payload, Payload::Unit);
    assert_eq!(call.target, 0x7777);
    assert!(teleport.call(player, CallArgs::Int(3)).is_none());
}

#[test]
fn entity_then_null_shape_fills_second_slot() {
    let table = FunctionTable::new(raw(&[(b"RemoveNPC", 0x4444)]));
    let exports = create_game_module(&table);
    let npc = Entity(0xDDDD);
    let call = exports[0].call(Entity(0xAAAA), CallArgs::One(npc)).unwrap();
    assert_eq!(call.subject_a, npc);
    assert!(call.subject_b.is_null());
    assert_eq!(call.target, 0x4444);
}

#[test]
fn override_of_missing_function_is_refused_and_changes_nothing() {
    let table = FunctionTable::new(raw(&[(b"GiveXP", 0x1111)]));
    let ledger = PatchLedger::new();
    let refused = ScriptHost::override_return_val(&table, &ledger, b"give_xp_boost", 7);
    assert_eq!(refused.unwrap_err(), OverrideError::FunctionNotFound);

    let empty = FunctionTable::new(vec![]);
    let refused = ScriptHost::override_return_val(&empty, &ledger, b"give_xp", 7);
    assert_eq!(refused.unwrap_err(), OverrideError::FunctionNotFound);

    // The entry stays callable through the normal path.
    let exports = create_game_module(&table);
    let call = exports[0].call(Entity(1), CallArgs::Int(100)).unwrap();
    assert_eq!(call.target, 0x1111);
}

#[test]
fn override_plans_stub_and_guards_double_patch() {
    let table = FunctionTable::new(raw(&[(b"GiveXP", 0x1111), (b"Kill", 0x2222)]));
    let mut ledger = PatchLedger::new();

    let plan = ScriptHost::override_return_val(&table, &ledger, b"give_xp", 7).unwrap();
    assert_eq!(plan.target, 0x1111);
    assert_eq!(plan.value, 7);
    assert_eq!(plan.stub, vec![0x48, 0xB8, 7, 0, 0, 0, 0, 0, 0, 0, 0xC3]);
    assert!(ledger.record(plan.target, plan.value));

    let again = ScriptHost::override_return_val(&table, &ledger, b"give_xp", 9);
    assert_eq!(again.unwrap_err(), OverrideError::AlreadyInstalled);

    // A distinct name is untouched by the first override.
    assert_eq!(ledger.installed_value(0x2222), None);
    let other = ScriptHost::override_return_val(&table, &ledger, b"kill", 3).unwrap();
    assert_eq!(other.target, 0x2222);
}

#[test]
fn commands_echo_and_scope_persists() {
    let mut host = plain_host(FunctionTable::new(vec![]));
    assert_eq!(host.process_command("let x = 40 + 2;"), CommandOutcome::Ran);
    assert_eq!(
        host.process_command("if x != 42 { throw \"scope lost\" }"),
        CommandOutcome::Ran
    );
    let transcript = host.transcript();
    assert_eq!(transcript.len(), 2);
    assert!(matches!(&transcript[0], TranscriptEntry::Command(c) if c == "let x = 40 + 2;"));
    assert!(matches!(&transcript[1], TranscriptEntry::Command(_)));
}

#[test]
fn invalid_command_appends_one_error_and_keeps_scope() {
    let mut host = plain_host(FunctionTable::new(vec![]));
    assert_eq!(host.process_command("let x = 42;"), CommandOutcome::Ran);

    let before = host.transcript().len();
    assert_eq!(host.process_command("let y = "), CommandOutcome::Rejected);
    let transcript = host.transcript();
    assert_eq!(transcript.len(), before + 2);
    assert!(matches!(&transcript[before], TranscriptEntry::Command(_)));
    assert!(matches!(&transcript[before + 1], TranscriptEntry::Error(_)));

    // The persistent scope's bindings survived the rejected command.
    assert_eq!(
        host.process_command("if x != 42 { throw \"scope lost\" }"),
        CommandOutcome::Ran
    );
}

#[test]
fn failing_command_appends_one_error() {
    let mut host = plain_host(FunctionTable::new(vec![]));
    assert_eq!(host.process_command("throw \"boom\""), CommandOutcome::Failed);
    let transcript = host.transcript();
    assert_eq!(transcript.len(), 2);
    assert!(matches!(&transcript[0], TranscriptEntry::Command(_)));
    assert!(matches!(&transcript[1], TranscriptEntry::Error(e) if e.contains("boom")));
}

#[test]
fn log_messages_reach_the_transcript_in_order() {
    let (tx, rx) = mpsc::channel::<String>();
    let mut engine = rhai::Engine::new();
    engine.register_fn("log", move |val: rhai::Dynamic| {
        tx.send(val.to_string()).ok();
    });
    let mut host = ScriptHost::new(engine, rx, FunctionTable::new(vec![]));

    assert_eq!(host.process_command("log(1); log(\"two\");"), CommandOutcome::Ran);
    host.process_events();
    let transcript = host.transcript();
    assert_eq!(transcript.len(), 3);
    assert!(matches!(&transcript[1], TranscriptEntry::Log(m) if m == "1"));
    assert!(matches!(&transcript[2], TranscriptEntry::Log(m) if m == "two"));
}

#[test]
fn script_calls_reach_the_planned_invocations() {
    let table = FunctionTable::new(raw(&[(b"GiveXP", 0x1111), (b"Kill", 0x2222)]));
    let calls: Rc<RefCell<Vec<Invocation>>> = Rc::new(RefCell::new(Vec::new()));

    let mut engine = rhai::Engine::new();
    engine.register_type_with_name::<Entity>("Entity");
    let mut game = rhai::Module::new();
    for export in create_game_module(&table) {
        let name = String::from_utf8(export.name.clone()).unwrap();
        match export.shape {
            HandlerShape::TypedInt => {
                let calls = Rc::clone(&calls);
                game.set_native_fn(name, move |v: i64| {
                    calls.borrow_mut().push(export.call(Entity(0xAAAA), CallArgs::Int(v)).unwrap());
                    Ok(0i64)
                });
            }
            HandlerShape::TwoEntities => {
                let calls = Rc::clone(&calls);
                game.set_native_fn(name, move |a: Entity, b: Entity| {
                    calls
                        .borrow_mut()
                        .push(export.call(Entity(0xAAAA), CallArgs::Two(a, b)).unwrap());
                    Ok(0i64)
                });
            }
            _ => {}
        }
    }
    engine.register_static_module("game", game.into());
    let mut entity_mod = rhai::Module::new();
    entity_mod.set_native_fn("none", || Ok(Entity::null()));
    entity_mod.set_native_fn("is_none", |e: Entity| Ok(e.is_null()));
    engine.register_static_module("entity", entity_mod.into());

    let (_tx, rx) = mpsc::channel();
    let mut host = ScriptHost::new(engine, rx, table);
    assert_eq!(host.process_command("game::give_xp(100)"), CommandOutcome::Ran);
    assert_eq!(
        host.process_command("game::kill(entity::none(), entity::none())"),
        CommandOutcome::Ran
    );

    let recorded = calls.borrow();
    assert_eq!(recorded.len(), 2);
    assert_eq!(recorded[0].target, 0x1111);
    assert_eq!(recorded[0].payload, Payload::Int(100));
    assert_eq!(recorded[0].subject_a, Entity(0xAAAA));
    assert_eq!(recorded[0].subject_b, Entity(0xAAAA));
    assert_eq!(recorded[1].target, 0x2222);
    assert_eq!(recorded[1].subject_a, Entity::null());
    assert_eq!(recorded[1].subject_b, Entity::null());
    assert_eq!(recorded[1].payload, Payload::Unit);
}

#[test]
fn toggle_flips_visibility() {
    let mut host = plain_host(FunctionTable::new(vec![]));
    assert!(!host.is_active());
    host.toggle();
    assert!(host.is_active());
    host.toggle();
    assert!(!host.is_active());
}

#[test]
fn mods_load_independently_and_tick() {
    let mut host = plain_host(FunctionTable::new(vec![]));
    let good = "fn initial_state() { #{ ticks: 0 } } fn on_frame(state) { state.ticks += 1; }"
        .to_string();
    let bad_syntax = "fn initial_state() {".to_string();
    let no_init = "fn on_frame(state) { }".to_string();
    let loaded = host.load_mods(&vec![good, bad_syntax, no_init]);
    assert_eq!(loaded, 1);
    host.process_frame();
    host.process_frame();
}

#[test]
fn mod_init_failure_loads_nothing() {
    let mut host = plain_host(FunctionTable::new(vec![]));
    assert!(host.init_mod("fn initial_state() { throw \"no state\" }").is_err());
    assert!(host.init_mod("fn initial_state() { 1 } fn on_frame(s) { }").is_ok());
}
