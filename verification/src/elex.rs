//! Model of the host process's native surface: opaque entity references,
//! the in-memory function table, and the fixed calling convention.
//!
//! Raw addresses are carried as plain integers.  Nothing in this module
//! touches host memory: reading the table out of the process and performing
//! the call described by an [`Invocation`] are the embedder's job.

use vstd::prelude::*;

verus! {

/// An opaque, nullable reference to a native in-process object.
///
/// Equality is address equality; the null entity is a distinguished
/// sentinel, never a valid reference.  The referenced object is owned by
/// the host process; this system never frees or mutates it.
#[derive(Clone, Copy, PartialEq, Eq, Structural, Debug)]
pub struct Entity(pub u64);

/// The distinguished null entity value.
pub open spec fn null_entity() -> Entity {
    Entity(0)
}

impl Entity {
    /// The null sentinel: an entity that refers to no object.
    pub fn null() -> (e: Entity)
        ensures
            e == null_entity(),
    {
        Entity(0)
    }

    /// True exactly when this entity is the value produced by [`Entity::null`].
    pub fn is_null(&self) -> (r: bool)
        ensures
            r <==> *self == null_entity(),
    {
        self.0 == 0
    }
}

/// Whether the host should surface a notification when an item is given.
#[derive(Clone, Copy, PartialEq, Eq, Structural, Debug)]
pub enum Notify {
    Never,
    Always,
}

impl Notify {
    /// The wire value the host's calling convention expects for this variant.
    pub open spec fn code_spec(&self) -> u32 {
        match self {
            Notify::Never => 0,
            Notify::Always => 2,
        }
    }

    /// Encode the variant as the host's wire value.
    pub fn code(&self) -> (r: u32)
        ensures
            r == self.code_spec(),
    {
        match self {
            Notify::Never => 0,
            Notify::Always => 2,
        }
    }
}

impl From<bool> for Notify {
    /// `true` means notify always, `false` never.
    fn from(notify: bool) -> (r: Notify) {
        if notify {
            Notify::Always
        } else {
            Notify::Never
        }
    }
}

impl vstd::std_specs::convert::FromSpecImpl<bool> for Notify {
    open spec fn obeys_from_spec() -> bool {
        true
    }

    open spec fn from_spec(notify: bool) -> Notify {
        if notify {
            Notify::Always
        } else {
            Notify::Never
        }
    }
}

/// A copyable capability to invoke one native function: its entry address.
///
/// Carries no ownership; it is only as valid as the host's image at that
/// address.  A `FunctionPtr` is only ever constructed from a vetted
/// function-table entry, never from arbitrary script input.
#[derive(Clone, Copy, PartialEq, Eq, Structural, Debug)]
pub struct FunctionPtr(pub usize);

/// The operation-specific payload of a native call.
///
/// The host convention passes the payload in the third parameter slot; the
/// two shapes used by this system are "no payload" and a 64-bit integer.
#[derive(Clone, Copy, PartialEq, Eq, Structural, Debug)]
pub enum Payload {
    Unit,
    Int(i64),
}

/// A fully determined native call: two subject entities, a payload and the
/// target entry address.  The embedder performs the actual call and gets
/// back the host's 64-bit status value; everything up to that point is
/// decided here.
#[derive(Clone, Copy, PartialEq, Eq, Structural, Debug)]
pub struct Invocation {
    pub subject_a: Entity,
    pub subject_b: Entity,
    pub payload: Payload,
    pub target: usize,
}

impl FunctionPtr {
    /// The raw entry address this capability stands for.
    pub fn value(&self) -> (r: usize)
        ensures
            r == self.0,
    {
        self.0
    }

    /// The default calling shape: both subject slots carry the same entity
    /// (typically the current player) and the payload rides in the third
    /// slot.
    pub fn invoke_default(&self, player: Entity, payload: Payload) -> (call: Invocation)
        ensures
            call == (Invocation {
                subject_a: player,
                subject_b: player,
                payload,
                target: self.0,
            }),
    {
        Invocation { subject_a: player, subject_b: player, payload, target: self.0 }
    }

    /// The explicit calling shape: both subject entities are given by the
    /// caller.
    pub fn invoke_with(&self, a: Entity, b: Entity, payload: Payload) -> (call: Invocation)
        ensures
            call == (Invocation { subject_a: a, subject_b: b, payload, target: self.0 }),
    {
        Invocation { subject_a: a, subject_b: b, payload, target: self.0 }
    }
}

/// One entry of the host's function table: a name (the bytes of the host's
/// narrow C string, without terminator), the entry address, and two
/// fixed-width fields whose purpose is unknown and which this system never
/// reads.  They are kept so the record mirrors the table's layout.
#[derive(Debug)]
pub struct FunctionDef {
    name: Vec<u8>,
    unk1: i64,
    ptr: usize,
    unk2: i64,
}

/// The views of a sequence of table entries, in order.
pub open spec fn def_views(s: Seq<FunctionDef>) -> Seq<(Seq<u8>, usize)> {
    s.map_values(|d: FunctionDef| d@)
}

impl View for FunctionDef {
    type V = (Seq<u8>, usize);

    closed spec fn view(&self) -> (Seq<u8>, usize) {
        (self.name@, self.ptr)
    }
}

impl FunctionDef {
    /// Build an entry from the values read out of one table element.
    pub fn new(name: Vec<u8>, unk1: i64, ptr: usize, unk2: i64) -> (d: FunctionDef)
        ensures
            d@ == (name@, ptr),
    {
        FunctionDef { name, unk1, ptr, unk2 }
    }

    /// The entry's name bytes as read from the host's string.
    pub fn name(&self) -> (r: &Vec<u8>)
        ensures
            r@ == self@.0,
    {
        &self.name
    }

    /// The capability to invoke this entry.
    pub fn ptr(&self) -> (r: FunctionPtr)
        ensures
            r.0 == self@.1,
    {
        FunctionPtr(self.ptr)
    }

    /// An equal copy of this entry.
    pub fn duplicate(&self) -> (r: FunctionDef)
        ensures
            r@ == self@,
    {
        let name = self.name.clone();
        assert(name@ =~= self.name@);
        FunctionDef { name, unk1: self.unk1, ptr: self.ptr, unk2: self.unk2 }
    }
}

/// One of the four fixed-stride sub-lists of the function table.
#[derive(Debug)]
pub struct FunctionList {
    items: Vec<FunctionDef>,
}

impl View for FunctionList {
    type V = Seq<(Seq<u8>, usize)>;

    closed spec fn view(&self) -> Seq<(Seq<u8>, usize)> {
        def_views(self.items@)
    }
}

impl FunctionList {
    /// A sub-list holding the given entries.
    pub fn new(items: Vec<FunctionDef>) -> (l: FunctionList)
        ensures
            l@ == def_views(items@),
    {
        FunctionList { items }
    }

    /// The entries of this sub-list.
    pub fn as_slice(&self) -> (r: &Vec<FunctionDef>)
        ensures
            def_views(r@) == self@,
    {
        &self.items
    }
}

/// The host's function table: four sub-lists of fixed-layout entries.
///
/// Only the third and fourth sub-lists are known to hold consumer-relevant
/// exports.  The first two are reserved: their semantics are unverified, so
/// they are carried for layout fidelity but never enumerated.
#[derive(Debug)]
pub struct FunctionRegistry {
    list1: FunctionList,
    list2: FunctionList,
    list3: FunctionList,
    list4: FunctionList,
}

impl View for FunctionRegistry {
    type V = Seq<(Seq<u8>, usize)>;

    /// The exposed entries: sub-list three followed by sub-list four.
    closed spec fn view(&self) -> Seq<(Seq<u8>, usize)> {
        self.list3@ + self.list4@
    }
}

impl FunctionRegistry {
    /// Assemble a registry from its four sub-lists.
    pub fn new(list1: FunctionList, list2: FunctionList, list3: FunctionList, list4: FunctionList)
        -> (r: FunctionRegistry)
        ensures
            r@ == list3@ + list4@,
    {
        FunctionRegistry { list1, list2, list3, list4 }
    }

    /// The exposed entries, in table order: the third sub-list's entries
    /// followed by the fourth's.  Re-enumerating yields the same sequence.
    pub fn functions(&self) -> (r: Vec<FunctionDef>)
        ensures
            def_views(r@) == self@,
    {
        let mut out: Vec<FunctionDef> = Vec::new();
        let mut i: usize = 0;
        while i < self.list3.items.len()
            invariant
                i <= self.list3.items.len(),
                out@.len() == i,
                forall|k: int| 0 <= k < i ==> (#[trigger] out@[k])@ == self.list3@[k],
            decreases self.list3.items.len() - i,
        {
            assert(self.list3@[i as int] == self.list3.items@[i as int]@);
            out.push(self.list3.items[i].duplicate());
            i = i + 1;
        }
        let n3 = self.list3.items.len();
        let mut j: usize = 0;
        while j < self.list4.items.len()
            invariant
                j <= self.list4.items.len(),
                n3 == self.list3@.len(),
                out@.len() == n3 + j,
                forall|k: int| 0 <= k < n3 ==> (#[trigger] out@[k])@ == self.list3@[k],
                forall|k: int|
                    n3 <= k < n3 + j ==> (#[trigger] out@[k])@ == self.list4@[k - n3],
            decreases self.list4.items.len() - j,
        {
            assert(self.list4@[j as int] == self.list4.items@[j as int]@);
            out.push(self.list4.items[j].duplicate());
            j = j + 1;
        }
        assert(def_views(out@) =~= self.list3@ + self.list4@);
        out
    }
}

/// All exposed `(name, capability)` pairs of the registry, in table order.
pub fn get_all_functions(registry: &FunctionRegistry) -> (r: Vec<(Vec<u8>, FunctionPtr)>)
    ensures
        r@.len() == registry@.len(),
        forall|i: int|
            0 <= i < r@.len() ==> (#[trigger] r@[i]).0@ == registry@[i].0 && r@[i].1.0
                == registry@[i].1,
{
    let defs = registry.functions();
    assert(defs@.len() == registry@.len());
    let mut out: Vec<(Vec<u8>, FunctionPtr)> = Vec::new();
    let mut i: usize = 0;
    while i < defs.len()
        invariant
            i <= defs.len(),
            def_views(defs@) == registry@,
            out@.len() == i,
            forall|k: int|
                0 <= k < i ==> (#[trigger] out@[k]).0@ == registry@[k].0 && out@[k].1.0
                    == registry@[k].1,
        decreases defs.len() - i,
    {
        assert(def_views(defs@)[i as int] == registry@[i as int]);
        assert(def_views(defs@)[i as int] == defs@[i as int]@);
        let name = defs[i].name().clone();
        assert(name@ =~= defs@[i as int]@.0);
        out.push((name, defs[i].ptr()));
        assert(out@[i as int].0@ == registry@[i as int].0);
        assert(out@[i as int].1.0 == registry@[i as int].1);
        i = i + 1;
    }
    out
}

/// The name bytes of a native narrow string, terminated for handing to the
/// host: `Some` exactly when the name holds no interior NUL byte.
pub fn nul_terminated(name: &[u8]) -> (r: Option<Vec<u8>>)
    ensures
        match r {
            Some(v) => !name@.contains(0u8) && v@ == name@.push(0u8),
            None => name@.contains(0u8),
        },
{
    let mut out: Vec<u8> = Vec::new();
    let mut i: usize = 0;
    while i < name.len()
        invariant
            i <= name@.len(),
            out@ == name@.take(i as int),
            forall|k: int| 0 <= k < i ==> name@[k] != 0u8,
        decreases name@.len() - i,
    {
        let b = name[i];
        if b == 0 {
            return None;
        }
        out.push(b);
        i = i + 1;
        assert(out@ =~= name@.take(i as int));
    }
    assert(out@ =~= name@);
    out.push(0);
    Some(out)
}

/// The arguments of one "give item" request, shaped as the native call
/// expects them: 32-bit quantity and flag words and the notification
/// variant.
#[derive(Clone, Copy, PartialEq, Eq, Structural, Debug)]
pub struct GiveCommand {
    pub target: Entity,
    pub item: Entity,
    pub quantity: u32,
    pub x: u32,
    pub notify: Notify,
}

/// The low 32 bits of a 64-bit script integer, as the narrowing the
/// native call applies.
pub open spec fn low_u32(v: i64) -> u32 {
    ((v as int) % 0x1_0000_0000) as u32
}

/// Shape a script-side "give item" request for the native call: the
/// 64-bit script integers are narrowed to the call's 32-bit words and the
/// notification flag becomes its wire variant.
pub fn prepare_give(target: Entity, item: Entity, quantity: i64, x: i64, notify: bool) -> (cmd:
    GiveCommand)
    ensures
        cmd == (GiveCommand {
            target,
            item,
            quantity: low_u32(quantity),
            x: low_u32(x),
            notify: if notify {
                Notify::Always
            } else {
                Notify::Never
            },
        }),
{
    let q = low_word(quantity);
    let w = low_word(x);
    GiveCommand { target, item, quantity: q, x: w, notify: Notify::from(notify) }
}

/// The low 32 bits of a signed 64-bit value.
fn low_word(v: i64) -> (r: u32)
    ensures
        r == low_u32(v),
{
    let bits: u64 = if v >= 0 {
        v as u64
    } else {
        (v - i64::MIN) as u64 + 0x8000_0000_0000_0000u64
    };
    proof {
        if v < 0 {
            assert(bits == (v as int) + 0x1_0000_0000_0000_0000);
            vstd::arithmetic::div_mod::lemma_mod_multiples_vanish(
                0x1_0000_0000,
                v as int,
                0x1_0000_0000,
            );
        }
    }
    let low = bits % 0x1_0000_0000u64;
    low as u32
}

/// A native wide-ish string header as laid out in host memory: a character
/// pointer and a length.  Reserved for future use; never dereferenced here.
#[derive(Clone, Copy, PartialEq, Eq, Structural, Debug)]
pub struct Str {
    pub ptr: u64,
    pub len: u64,
}

/// Layout model of the host's runtime property descriptor.  Reserved for
/// future reverse engineering; no logic reads it.
#[derive(Clone, Copy, PartialEq, Eq, Structural, Debug)]
pub struct RuntimeProperty {
    pub vft: u64,
    pub name: Str,
    pub name_override: Str,
    pub next: u64,
    pub parent: u64,
    pub typ: u64,
    pub flags: u32,
    pub name_hash: u32,
    pub name_override_hash: u32,
}

/// Layout model of the host's member property descriptor.  Reserved.
#[derive(Clone, Copy, PartialEq, Eq, Structural, Debug)]
pub struct MemberProperty {
    pub prop: RuntimeProperty,
    pub short_name: Str,
    pub offset: u32,
    pub unk2: i32,
}

/// Marker for the host's class descriptor, not yet reverse engineered.
#[derive(Clone, Copy, PartialEq, Eq, Structural, Debug)]
pub struct Class;

/// Marker for the host's type descriptor, not yet reverse engineered.
#[derive(Clone, Copy, PartialEq, Eq, Structural, Debug)]
pub struct Type;

/// Marker for a native game object; entities point at values of this kind.
#[derive(Clone, Copy, PartialEq, Eq, Structural, Debug)]
pub struct GameObject;

} // verus!
