//! The discovered-function map.
//!
//! Raw `(name, address)` pairs read out of the host's table are folded
//! into a map keyed by the normalized name.  When two raw entries
//! normalize to the same key, the later entry wins, mirroring plain
//! insertion order; the finished map holds each key exactly once.

use vstd::prelude::*;

use crate::elex::FunctionPtr;
use crate::handlers::bytes_eq;
use crate::names::normalize_name;
use crate::names::snake_of;

verus! {

/// The views of raw `(name bytes, capability)` pairs.
pub open spec fn pair_views(s: Seq<(Vec<u8>, FunctionPtr)>) -> Seq<(Seq<u8>, usize)> {
    s.map_values(|p: (Vec<u8>, FunctionPtr)| (p.0@, p.1.0))
}

/// The address bound to a name: first match over the map's entries.
pub open spec fn table_lookup(entries: Seq<(Seq<u8>, usize)>, name: Seq<u8>) -> Option<usize>
    decreases entries.len(),
{
    if entries.len() == 0 {
        None
    } else if entries[0].0 == name {
        Some(entries[0].1)
    } else {
        table_lookup(entries.drop_first(), name)
    }
}

/// The address the latest raw pair whose normalized name equals `name`
/// binds it to, if any.
pub open spec fn latest_binding(pairs: Seq<(Seq<u8>, usize)>, name: Seq<u8>) -> Option<usize>
    decreases pairs.len(),
{
    if pairs.len() == 0 {
        None
    } else if snake_of(pairs.last().0) == name {
        Some(pairs.last().1)
    } else {
        latest_binding(pairs.drop_last(), name)
    }
}

/// An entry whose name no earlier entry carries decides the lookup.
proof fn lemma_table_lookup_at(entries: Seq<(Seq<u8>, usize)>, name: Seq<u8>, k: int)
    requires
        0 <= k < entries.len(),
        entries[k].0 == name,
        forall|j: int| 0 <= j < k ==> (#[trigger] entries[j]).0 != name,
    ensures
        table_lookup(entries, name) == Some(entries[k].1),
    decreases entries.len(),
{
    if k > 0 {
        lemma_table_lookup_at(entries.drop_first(), name, k - 1);
    }
}

/// A name no entry carries is absent from the lookup.
proof fn lemma_table_lookup_none(entries: Seq<(Seq<u8>, usize)>, name: Seq<u8>)
    requires
        forall|j: int| 0 <= j < entries.len() ==> (#[trigger] entries[j]).0 != name,
    ensures
        table_lookup(entries, name) is None,
    decreases entries.len(),
{
    if entries.len() > 0 {
        lemma_table_lookup_none(entries.drop_first(), name);
    }
}

/// Conversely, an absent name is carried by no entry.
proof fn lemma_table_lookup_none_converse(entries: Seq<(Seq<u8>, usize)>, name: Seq<u8>)
    requires
        table_lookup(entries, name) is None,
    ensures
        forall|j: int| 0 <= j < entries.len() ==> (#[trigger] entries[j]).0 != name,
    decreases entries.len(),
{
    if entries.len() > 0 {
        lemma_table_lookup_none_converse(entries.drop_first(), name);
        assert forall|j: int| 0 <= j < entries.len() implies (#[trigger] entries[j]).0
            != name by {
            if j > 0 {
                assert(entries[j] == entries.drop_first()[j - 1]);
            }
        }
    }
}

/// Appending an entry decides exactly the names the map did not hold yet.
proof fn lemma_table_lookup_push(
    entries: Seq<(Seq<u8>, usize)>,
    entry: (Seq<u8>, usize),
    name: Seq<u8>,
)
    ensures
        table_lookup(entries.push(entry), name) == (if table_lookup(entries, name) is Some {
            table_lookup(entries, name)
        } else if entry.0 == name {
            Some(entry.1)
        } else {
            None
        }),
    decreases entries.len(),
{
    let pushed = entries.push(entry);
    assert(pushed.len() == entries.len() + 1);
    if entries.len() == 0 {
        assert(pushed[0] == entry);
        assert(pushed.drop_first() =~= Seq::<(Seq<u8>, usize)>::empty());
        if entry.0 == name {
            assert(table_lookup(pushed, name) == Some(entry.1));
        } else {
            assert(table_lookup(pushed, name) == table_lookup(pushed.drop_first(), name));
        }
    } else {
        assert(pushed[0] == entries[0]);
        assert(pushed.drop_first() =~= entries.drop_first().push(entry));
        lemma_table_lookup_push(entries.drop_first(), entry, name);
        if entries[0].0 == name {
            assert(table_lookup(pushed, name) == Some(entries[0].1));
            assert(table_lookup(entries, name) == Some(entries[0].1));
        } else {
            assert(table_lookup(pushed, name) == table_lookup(pushed.drop_first(), name));
            assert(table_lookup(entries, name) == table_lookup(entries.drop_first(), name));
        }
    }
}

/// Extending the raw pairs at the front only fills names the suffix left
/// unbound.
proof fn lemma_latest_binding_prepend(pairs: Seq<(Seq<u8>, usize)>, name: Seq<u8>)
    requires
        pairs.len() > 0,
    ensures
        latest_binding(pairs, name) == (if latest_binding(pairs.drop_first(), name) is Some {
            latest_binding(pairs.drop_first(), name)
        } else if snake_of(pairs[0].0) == name {
            Some(pairs[0].1)
        } else {
            None
        }),
    decreases pairs.len(),
{
    if pairs.len() == 1 {
        assert(pairs.drop_first() =~= Seq::<(Seq<u8>, usize)>::empty());
        assert(pairs.last() == pairs[0]);
    } else {
        assert(pairs.drop_first().last() == pairs.last());
        if snake_of(pairs.last().0) == name {
        } else {
            assert(pairs.drop_last().drop_first() =~= pairs.drop_first().drop_last());
            assert(pairs.drop_last()[0] == pairs[0]);
            lemma_latest_binding_prepend(pairs.drop_last(), name);
        }
    }
}

/// Find the capability bound to a normalized name among map entries.
fn lookup_entries(entries: &Vec<(Vec<u8>, FunctionPtr)>, name: &[u8]) -> (r: Option<FunctionPtr>)
    ensures
        match r {
            Some(p) => table_lookup(pair_views(entries@), name@) == Some(p.0),
            None => table_lookup(pair_views(entries@), name@) is None,
        },
{
    let ghost view = pair_views(entries@);
    let mut i: usize = 0;
    while i < entries.len()
        invariant
            i <= entries@.len(),
            view == pair_views(entries@),
            view.len() == entries@.len(),
            forall|j: int| 0 <= j < i ==> (#[trigger] view[j]).0 != name@,
        decreases entries@.len() - i,
    {
        assert(view[i as int] == (entries@[i as int].0@, entries@[i as int].1.0));
        if bytes_eq(entries[i].0.as_slice(), name) {
            proof {
                lemma_table_lookup_at(view, name@, i as int);
            }
            return Some(entries[i].1);
        }
        i = i + 1;
    }
    proof {
        lemma_table_lookup_none(view, name@);
    }
    None
}

/// The map from normalized native-function names to their capabilities.
#[derive(Debug)]
pub struct FunctionTable {
    entries: Vec<(Vec<u8>, FunctionPtr)>,
}

impl View for FunctionTable {
    type V = Seq<(Seq<u8>, usize)>;

    closed spec fn view(&self) -> Seq<(Seq<u8>, usize)> {
        pair_views(self.entries@)
    }
}

impl FunctionTable {
    /// Every key appears exactly once.
    pub open spec fn wf(&self) -> bool {
        forall|i: int, j: int|
            0 <= i < j < self@.len() ==> (#[trigger] self@[i]).0 != (#[trigger] self@[j]).0
    }

    /// Fold raw `(name, capability)` pairs into the map: every key is the
    /// normalized name, and of two raw pairs with the same key the later
    /// one wins.
    pub fn new(raw: Vec<(Vec<u8>, FunctionPtr)>) -> (t: FunctionTable)
        ensures
            t.wf(),
            forall|n: Seq<u8>| #[trigger]
                table_lookup(t@, n) == latest_binding(pair_views(raw@), n),
    {
        let ghost all = pair_views(raw@);
        let mut entries: Vec<(Vec<u8>, FunctionPtr)> = Vec::new();
        let mut k: usize = raw.len();
        assert(all.subrange(k as int, all.len() as int) =~= Seq::<(Seq<u8>, usize)>::empty());
        while k > 0
            invariant
                k <= raw@.len(),
                all == pair_views(raw@),
                all.len() == raw@.len(),
                forall|i: int, j: int|
                    0 <= i < j < pair_views(entries@).len() ==> (#[trigger] pair_views(
                        entries@,
                    )[i]).0 != (#[trigger] pair_views(entries@)[j]).0,
                forall|n: Seq<u8>| #[trigger]
                    table_lookup(pair_views(entries@), n) == latest_binding(
                        all.subrange(k as int, all.len() as int),
                        n,
                    ),
            decreases k,
        {
            k = k - 1;
            assert(all[k as int] == (raw@[k as int].0@, raw@[k as int].1.0));
            let norm = normalize_name(raw[k].0.as_slice());
            let ghost before = pair_views(entries@);
            let ghost suffix = all.subrange(k as int + 1, all.len() as int);
            let ghost extended = all.subrange(k as int, all.len() as int);
            proof {
                assert(extended.len() > 0);
                assert(extended.drop_first() =~= suffix);
                assert(extended[0] == all[k as int]);
            }
            match lookup_entries(&entries, norm.as_slice()) {
                Some(_) => {
                    proof {
                        assert forall|n: Seq<u8>| #[trigger]
                            table_lookup(pair_views(entries@), n) == latest_binding(
                                extended,
                                n,
                            ) by {
                            lemma_latest_binding_prepend(extended, n);
                        }
                    }
                },
                None => {
                    entries.push((norm, raw[k].1));
                    proof {
                        assert(pair_views(entries@) =~= before.push(
                            (snake_of(all[k as int].0), all[k as int].1),
                        ));
                        lemma_table_lookup_none_converse(before, snake_of(all[k as int].0));
                        assert forall|n: Seq<u8>| #[trigger]
                            table_lookup(pair_views(entries@), n) == latest_binding(
                                extended,
                                n,
                            ) by {
                            lemma_table_lookup_push(
                                before,
                                (snake_of(all[k as int].0), all[k as int].1),
                                n,
                            );
                            lemma_latest_binding_prepend(extended, n);
                        }
                    }
                },
            }
        }
        assert(all.subrange(0, all.len() as int) =~= all);
        FunctionTable { entries }
    }

    /// The number of mapped names.
    pub fn len(&self) -> (n: usize)
        ensures
            n == self@.len(),
    {
        self.entries.len()
    }

    /// The capability bound to a normalized name, if the map holds it.
    pub fn lookup(&self, name: &[u8]) -> (r: Option<FunctionPtr>)
        ensures
            match r {
                Some(p) => table_lookup(self@, name@) == Some(p.0),
                None => table_lookup(self@, name@) is None,
            },
    {
        lookup_entries(&self.entries, name)
    }

    /// The mapped `(name, capability)` pairs, for enumeration.
    pub fn entries(&self) -> (r: &Vec<(Vec<u8>, FunctionPtr)>)
        ensures
            pair_views(r@) == self@,
    {
        &self.entries
    }
}

} // verus!
