//! The script host: version gating, bridge building, the operator
//! console's command/transcript state machine, and the override entry
//! point.
//!
//! The host owns one scripting engine and one persistent scope.  Each
//! discovered native function becomes a script-visible symbol whose
//! calling shape is selected by the handler table; an `override_value`
//! request resolves a name through the discovered-function map and plans
//! a patch.  Performing native calls and installing redirects is the
//! embedder's job.

use vstd::prelude::*;

use crate::elex::Entity;
use crate::elex::FunctionPtr;
use crate::elex::Invocation;
use crate::elex::Payload;
use crate::elex::null_entity;
use crate::handlers::HandlerShape;
use crate::handlers::export_shape;
use crate::handlers::get_custom_handler;
use crate::patch::PatchLedger;
use crate::patch::encode_return_stub;
use crate::patch::i64_bits;
use crate::patch::ledger_lookup;
use crate::patch::lemma_override_independence;
use crate::patch::stub_bytes;
use crate::script::Mod;
use crate::script::call_initial_state;
use crate::script::call_on_frame;
use crate::script::compile_script;
use crate::script::new_scope;
use crate::script::run_ast;
use crate::script::share_dynamic;
use crate::script::try_recv_log;
use crate::table::FunctionTable;
use crate::table::table_lookup;

verus! {

/// The image build value (a link-time timestamp) of the one host build
/// whose memory layout this system knows.
pub const SUPPORTED_VERSION_TS: u32 = 1647620648;

/// The version gate: whether the identifying value read from the running
/// host's image matches the supported build.  On a mismatch the bridge
/// must not be built — the function table's layout cannot be trusted.
pub fn verify_version(found: u32) -> (ok: bool)
    ensures
        ok <==> found == SUPPORTED_VERSION_TS,
{
    found == SUPPORTED_VERSION_TS
}

/// One line of the console transcript.
#[derive(Debug)]
pub enum TranscriptEntry {
    /// A command as the operator entered it.
    Command(String),
    /// The text of an evaluation or parse error.
    Error(String),
    /// A message a script passed to the `log` built-in.
    Log(String),
}

/// The mathematical shape of a transcript line.
pub enum TranscriptView {
    Command(Seq<char>),
    Error(Seq<char>),
    Log(Seq<char>),
}

impl View for TranscriptEntry {
    type V = TranscriptView;

    open spec fn view(&self) -> TranscriptView {
        match self {
            TranscriptEntry::Command(s) => TranscriptView::Command(s@),
            TranscriptEntry::Error(s) => TranscriptView::Error(s@),
            TranscriptEntry::Log(s) => TranscriptView::Log(s@),
        }
    }
}

/// The views of a sequence of transcript lines, in order.
pub open spec fn entry_views(s: Seq<TranscriptEntry>) -> Seq<TranscriptView> {
    s.map_values(|e: TranscriptEntry| e@)
}

/// How evaluating one command ended.
#[derive(Clone, Copy, PartialEq, Eq, Structural, Debug)]
pub enum CommandOutcome {
    /// The command parsed and ran to completion.
    Ran,
    /// The command did not parse; nothing was evaluated.
    Rejected,
    /// The command parsed but its evaluation failed.
    Failed,
}

/// The script arguments handed to one exported symbol.
#[derive(Clone, Copy, PartialEq, Eq, Structural, Debug)]
pub enum CallArgs {
    NoArgs,
    Int(i64),
    Two(Entity, Entity),
    One(Entity),
}

/// Whether an argument list fits a calling shape.
pub open spec fn args_match(shape: HandlerShape, args: CallArgs) -> bool {
    match (shape, args) {
        (HandlerShape::DefaultUnit, CallArgs::NoArgs) => true,
        (HandlerShape::TypedInt, CallArgs::Int(_)) => true,
        (HandlerShape::TwoEntities, CallArgs::Two(_, _)) => true,
        (HandlerShape::EntityThenNull, CallArgs::One(_)) => true,
        _ => false,
    }
}

/// The native call a symbol of the given shape and target performs for an
/// argument list (meaningful when the arguments fit the shape).
pub open spec fn planned_invocation(
    shape: HandlerShape,
    target: usize,
    player: Entity,
    args: CallArgs,
) -> Invocation {
    match (shape, args) {
        (HandlerShape::TypedInt, CallArgs::Int(v)) => Invocation {
            subject_a: player,
            subject_b: player,
            payload: Payload::Int(v),
            target,
        },
        (HandlerShape::TwoEntities, CallArgs::Two(a, b)) => Invocation {
            subject_a: a,
            subject_b: b,
            payload: Payload::Unit,
            target,
        },
        (HandlerShape::EntityThenNull, CallArgs::One(e)) => Invocation {
            subject_a: e,
            subject_b: null_entity(),
            payload: Payload::Unit,
            target,
        },
        _ => Invocation {
            subject_a: player,
            subject_b: player,
            payload: Payload::Unit,
            target,
        },
    }
}

/// A script-visible symbol: a discovered function's normalized name, the
/// calling shape selected for it, and the capability it is closed over.
#[derive(Debug)]
pub struct ExportedFunction {
    pub name: Vec<u8>,
    pub shape: HandlerShape,
    pub ptr: FunctionPtr,
}

impl ExportedFunction {
    /// Export one discovered function: its shape is the registered
    /// handler's, or the default shape when no handler is registered.
    pub fn new(name: Vec<u8>, ptr: FunctionPtr) -> (f: ExportedFunction)
        ensures
            f.name@ == name@,
            f.ptr == ptr,
            f.shape == export_shape(name@),
    {
        let shape = match get_custom_handler(name.as_slice()) {
            Some(shape) => shape,
            None => HandlerShape::DefaultUnit,
        };
        ExportedFunction { name, shape, ptr }
    }

    /// Decide the native call for one script invocation of this symbol:
    /// the call record exactly when the arguments fit the symbol's shape,
    /// nothing otherwise.
    pub fn call(&self, player: Entity, args: CallArgs) -> (r: Option<Invocation>)
        ensures
            r is Some <==> args_match(self.shape, args),
            match r {
                Some(call) => call == planned_invocation(self.shape, self.ptr.0, player, args),
                None => !args_match(self.shape, args),
            },
    {
        match (self.shape, args) {
            (HandlerShape::DefaultUnit, CallArgs::NoArgs) => Some(
                self.ptr.invoke_default(player, Payload::Unit),
            ),
            (HandlerShape::TypedInt, CallArgs::Int(v)) => Some(
                self.ptr.invoke_default(player, Payload::Int(v)),
            ),
            (HandlerShape::TwoEntities, CallArgs::Two(a, b)) => Some(
                self.ptr.invoke_with(a, b, Payload::Unit),
            ),
            (HandlerShape::EntityThenNull, CallArgs::One(e)) => Some(
                self.ptr.invoke_with(e, Entity::null(), Payload::Unit),
            ),
            _ => None,
        }
    }
}

/// Build the `game` module's export list: one symbol per mapped function,
/// under its normalized name, with its handler-selected shape.
pub fn create_game_module(table: &FunctionTable) -> (r: Vec<ExportedFunction>)
    ensures
        r@.len() == table@.len(),
        forall|i: int|
            0 <= i < r@.len() ==> (#[trigger] r@[i]).name@ == table@[i].0 && r@[i].ptr.0
                == table@[i].1 && r@[i].shape == export_shape(table@[i].0),
{
    let entries = table.entries();
    let mut out: Vec<ExportedFunction> = Vec::new();
    let mut i: usize = 0;
    while i < entries.len()
        invariant
            i <= entries@.len(),
            crate::table::pair_views(entries@) == table@,
            out@.len() == i,
            forall|k: int|
                0 <= k < i ==> (#[trigger] out@[k]).name@ == table@[k].0 && out@[k].ptr.0
                    == table@[k].1 && out@[k].shape == export_shape(table@[k].0),
        decreases entries@.len() - i,
    {
        assert(crate::table::pair_views(entries@)[i as int] == (
            entries@[i as int].0@,
            entries@[i as int].1.0,
        ));
        let name = entries[i].0.clone();
        assert(name@ =~= entries@[i as int].0@);
        out.push(ExportedFunction::new(name, entries[i].1));
        i = i + 1;
    }
    out
}

/// Why an override request was refused.
#[derive(Clone, Copy, PartialEq, Eq, Structural, Debug)]
pub enum OverrideError {
    /// The name is not in the discovered-function map.
    FunctionNotFound,
    /// The target function has already been redirected once; a second
    /// redirect on the same entry point is refused.
    AlreadyInstalled,
}

/// A planned override: the resolved target address, the constant it is to
/// return, and the encoded stub to place in executable memory.
#[derive(Debug)]
pub struct OverridePlan {
    pub target: usize,
    pub value: i64,
    pub stub: Vec<u8>,
}

/// The host of the embedded scripting console.
///
/// Must be driven from one thread at a time: commands, event drains and
/// frame ticks are strictly sequential.
#[derive(Debug)]
pub struct ScriptHost {
    engine: rhai::Engine,
    scope: rhai::Scope<'static>,
    log_rx: std::sync::mpsc::Receiver<String>,
    transcript: Vec<TranscriptEntry>,
    is_active: bool,
    mods: Vec<Mod>,
    table: FunctionTable,
}

impl ScriptHost {
    /// The transcript's lines, oldest first.
    pub closed spec fn transcript_view(&self) -> Seq<TranscriptView> {
        entry_views(self.transcript@)
    }

    /// Whether the console is currently shown.
    pub closed spec fn active(&self) -> bool {
        self.is_active
    }

    /// The discovered-function map's entries.
    pub closed spec fn table_view(&self) -> Seq<(Seq<u8>, usize)> {
        self.table@
    }

    /// The persistent scope's current value.
    pub closed spec fn scope_state(&self) -> rhai::Scope<'static> {
        self.scope
    }

    /// How many scripts are loaded.
    pub closed spec fn mods_len(&self) -> int {
        self.mods@.len() as int
    }

    /// Assemble a host around an engine the embedder has configured, the
    /// receiving end of the `log` built-in's channel, and the
    /// discovered-function map.  The console starts hidden, with an empty
    /// transcript and no scripts loaded.
    pub fn new(
        engine: rhai::Engine,
        log_rx: std::sync::mpsc::Receiver<String>,
        table: FunctionTable,
    ) -> (host: ScriptHost)
        ensures
            host.transcript_view() == Seq::<TranscriptView>::empty(),
            !host.active(),
            host.mods_len() == 0,
            host.table_view() == table@,
    {
        let host = ScriptHost {
            engine,
            scope: new_scope(),
            log_rx,
            transcript: Vec::new(),
            is_active: false,
            mods: Vec::new(),
            table,
        };
        assert(host.transcript_view() =~= Seq::<TranscriptView>::empty());
        host
    }

    /// The discovered-function map.
    pub fn table(&self) -> (r: &FunctionTable)
        ensures
            r@ == self.table_view(),
    {
        &self.table
    }

    /// The transcript's lines, for rendering.
    pub fn transcript(&self) -> (r: &Vec<TranscriptEntry>)
        ensures
            entry_views(r@) == self.transcript_view(),
    {
        &self.transcript
    }

    /// Show or hide the console.
    pub fn toggle(&mut self)
        ensures
            final(self).active() == !old(self).active(),
            final(self).transcript_view() == old(self).transcript_view(),
            final(self).table_view() == old(self).table_view(),
            final(self).scope_state() == old(self).scope_state(),
            final(self).mods_len() == old(self).mods_len(),
    {
        self.is_active = !self.is_active;
    }

    /// Whether the console is currently shown.
    pub fn is_active(&self) -> (r: bool)
        ensures
            r == self.active(),
    {
        self.is_active
    }

    /// Evaluate one line of command text against the persistent scope.
    ///
    /// The command is echoed to the transcript first.  A line that does
    /// not parse is rejected before any evaluation: exactly one error
    /// entry is appended and the scope's bindings are left untouched.  A
    /// line that fails during evaluation also appends exactly one error
    /// entry.  The console never propagates a script failure.
    pub fn process_command(&mut self, line: &str) -> (outcome: CommandOutcome)
        ensures
            final(self).active() == old(self).active(),
            final(self).table_view() == old(self).table_view(),
            final(self).mods_len() == old(self).mods_len(),
            match outcome {
                CommandOutcome::Ran => final(self).transcript_view() == old(
                    self,
                ).transcript_view().push(TranscriptView::Command(line@)),
                CommandOutcome::Rejected => final(self).scope_state() == old(self).scope_state()
                    && exists|msg: Seq<char>|
                    final(self).transcript_view() == old(self).transcript_view().push(
                        TranscriptView::Command(line@),
                    ).push(TranscriptView::Error(msg)),
                CommandOutcome::Failed => exists|msg: Seq<char>|
                    final(self).transcript_view() == old(self).transcript_view().push(
                        TranscriptView::Command(line@),
                    ).push(TranscriptView::Error(msg)),
            },
    {
        let ghost at_entry = self.transcript_view();
        self.transcript.push(TranscriptEntry::Command(line.to_owned()));
        assert(self.transcript_view() =~= at_entry.push(TranscriptView::Command(line@)));
        match compile_script(&self.engine, line) {
            Err(msg) => {
                let ghost m = msg@;
                self.transcript.push(TranscriptEntry::Error(msg));
                assert(self.transcript_view() =~= at_entry.push(
                    TranscriptView::Command(line@),
                ).push(TranscriptView::Error(m)));
                CommandOutcome::Rejected
            },
            Ok(ast) => {
                match run_ast(&self.engine, &mut self.scope, &ast) {
                    Ok(_) => CommandOutcome::Ran,
                    Err(msg) => {
                        let ghost m = msg@;
                        self.transcript.push(TranscriptEntry::Error(msg));
                        assert(self.transcript_view() =~= at_entry.push(
                            TranscriptView::Command(line@),
                        ).push(TranscriptView::Error(m)));
                        CommandOutcome::Failed
                    },
                }
            },
        }
    }

    /// Drain the queue of messages scripts passed to the `log` built-in
    /// and append each to the transcript, in the order they were sent.
    /// The drain never blocks; it stops when the queue is empty (or after
    /// a very large fixed number of messages in one tick).
    pub fn process_events(&mut self)
        ensures
            final(self).active() == old(self).active(),
            final(self).table_view() == old(self).table_view(),
            final(self).scope_state() == old(self).scope_state(),
            final(self).mods_len() == old(self).mods_len(),
            old(self).transcript_view().len() <= final(self).transcript_view().len(),
            final(self).transcript_view().take(old(self).transcript_view().len() as int) == old(
                self,
            ).transcript_view(),
            forall|k: int|
                old(self).transcript_view().len() <= k < final(self).transcript_view().len()
                    ==> final(self).transcript_view()[k] is Log,
    {
        let ghost at_entry = self.transcript_view();
        let mut budget: usize = 65536;
        let mut more = true;
        while more && budget > 0
            invariant
                at_entry.len() <= self.transcript_view().len(),
                self.transcript_view().take(at_entry.len() as int) == at_entry,
                forall|k: int|
                    at_entry.len() <= k < self.transcript_view().len()
                        ==> self.transcript_view()[k] is Log,
                self.active() == old(self).active(),
                self.table_view() == old(self).table_view(),
                self.scope_state() == old(self).scope_state(),
                self.mods_len() == old(self).mods_len(),
                at_entry == old(self).transcript_view(),
            decreases budget,
        {
            budget = budget - 1;
            match try_recv_log(&self.log_rx) {
                Some(msg) => {
                    let ghost before = self.transcript_view();
                    self.transcript.push(TranscriptEntry::Log(msg));
                    assert(self.transcript_view() =~= before.push(
                        self.transcript@[self.transcript@.len() - 1]@,
                    ));
                    assert(self.transcript_view().take(at_entry.len() as int) =~= at_entry);
                },
                None => {
                    more = false;
                },
            }
        }
    }

    /// Give every loaded script one frame tick by invoking its `on_frame`
    /// callback with its own state.  One script's failure is ignored and
    /// does not stop the others; no script is added or removed.
    pub fn process_frame(&mut self)
        ensures
            final(self).active() == old(self).active(),
            final(self).table_view() == old(self).table_view(),
            final(self).scope_state() == old(self).scope_state(),
            final(self).transcript_view() == old(self).transcript_view(),
            final(self).mods_len() == old(self).mods_len(),
    {
        let total = self.mods.len();
        let mut pending: Vec<Mod> = Vec::new();
        std::mem::swap(&mut self.mods, &mut pending);
        let mut done: Vec<Mod> = Vec::new();
        while pending.len() > 0
            invariant
                done@.len() + pending@.len() == total,
            decreases pending@.len(),
        {
            let mut script = pending.remove(0);
            let _ok = call_on_frame(&self.engine, &mut script);
            done.push(script);
        }
        std::mem::swap(&mut self.mods, &mut done);
    }

    /// Load one script from its source text: compile it, run its
    /// `initial_state` function in a fresh scope, and keep the script
    /// with the state it returned (held shared, so `on_frame` can mutate
    /// it).  On failure nothing is kept.
    pub fn init_mod(&mut self, source: &str) -> (r: Result<(), String>)
        ensures
            final(self).active() == old(self).active(),
            final(self).table_view() == old(self).table_view(),
            final(self).scope_state() == old(self).scope_state(),
            final(self).transcript_view() == old(self).transcript_view(),
            r is Ok ==> final(self).mods_len() == old(self).mods_len() + 1,
            r is Err ==> final(self).mods_len() == old(self).mods_len(),
    {
        let ast = match compile_script(&self.engine, source) {
            Ok(ast) => ast,
            Err(e) => {
                return Err(e);
            },
        };
        let mut scope = new_scope();
        let state = match call_initial_state(&self.engine, &mut scope, &ast) {
            Ok(state) => state,
            Err(e) => {
                return Err(e);
            },
        };
        let state = share_dynamic(state);
        self.mods.push(Mod { ast, scope, state });
        Ok(())
    }

    /// Load a batch of script sources.  Each source is initialized
    /// independently: a script that fails to compile or whose initializer
    /// fails is skipped, and the others still load.  Returns how many
    /// loaded.
    pub fn load_mods(&mut self, sources: &Vec<String>) -> (loaded: usize)
        ensures
            final(self).active() == old(self).active(),
            final(self).table_view() == old(self).table_view(),
            final(self).scope_state() == old(self).scope_state(),
            final(self).transcript_view() == old(self).transcript_view(),
            loaded <= sources@.len(),
            final(self).mods_len() == old(self).mods_len() + loaded,
    {
        let mut loaded: usize = 0;
        let mut i: usize = 0;
        while i < sources.len()
            invariant
                i <= sources@.len(),
                loaded <= i,
                self.active() == old(self).active(),
                self.table_view() == old(self).table_view(),
                self.scope_state() == old(self).scope_state(),
                self.transcript_view() == old(self).transcript_view(),
                self.mods_len() == old(self).mods_len() + loaded,
            decreases sources@.len() - i,
        {
            match self.init_mod(sources[i].as_str()) {
                Ok(_) => {
                    loaded = loaded + 1;
                },
                Err(_) => {},
            }
            i = i + 1;
        }
        loaded
    }

    /// Plan the redirect `override_value(name, value)` asks for: resolve
    /// the name through the discovered-function map, refuse a name the
    /// map does not hold or a target already redirected once, and
    /// otherwise produce the stub and target for the embedder to install.
    /// The map itself is never changed, so a failed request leaves every
    /// entry callable through the normal path.
    pub fn override_return_val(
        table: &FunctionTable,
        ledger: &PatchLedger,
        name: &[u8],
        value: i64,
    ) -> (r: Result<OverridePlan, OverrideError>)
        ensures
            match r {
                Ok(plan) => table_lookup(table@, name@) == Some(plan.target) && ledger_lookup(
                    ledger@,
                    plan.target,
                ) is None && plan.value == value && plan.stub@ == stub_bytes(i64_bits(value)),
                Err(OverrideError::FunctionNotFound) => table_lookup(table@, name@) is None,
                Err(OverrideError::AlreadyInstalled) => match table_lookup(table@, name@) {
                    Some(target) => ledger_lookup(ledger@, target) is Some,
                    None => false,
                },
            },
    {
        let ptr = match table.lookup(name) {
            Some(ptr) => ptr,
            None => {
                return Err(OverrideError::FunctionNotFound);
            },
        };
        let target = ptr.value();
        match ledger.installed_value(target) {
            Some(_) => Err(OverrideError::AlreadyInstalled),
            None => Ok(OverridePlan { target, value, stub: encode_return_stub(value) }),
        }
    }
}

/// Overriding one name never interferes with another: recording the
/// redirect that an override of `name_a` plans leaves the redirect state
/// observed by `name_b`'s target unchanged — and the discovered-function
/// map is never written at all, so `name_b` still resolves to the same
/// target.  (Two distinct names bound to one shared target address are
/// the one exception: they designate the same function, so a redirect of
/// either is a redirect of both.)
pub proof fn lemma_distinct_override_no_interference(
    table: Seq<(Seq<u8>, usize)>,
    records: Seq<(usize, i64)>,
    target_a: usize,
    value_a: i64,
    name_b: Seq<u8>,
    target_b: usize,
)
    requires
        table_lookup(table, name_b) == Some(target_b),
        target_a != target_b,
    ensures
        ledger_lookup(records.push((target_a, value_a)), target_b) == ledger_lookup(
            records,
            target_b,
        ),
{
    lemma_override_independence(records, target_a, value_a, target_b);
}

} // verus!
