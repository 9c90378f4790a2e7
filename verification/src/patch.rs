//! The runtime patch engine's decision half.
//!
//! An override redirects a native function so that every call returns a
//! fixed 64-bit constant.  This module encodes the redirect stub — a
//! machine-code sequence that loads the constant into the return register
//! and returns — and keeps the ledger of installed redirects.  Writing the
//! stub into executable memory and rewriting the target's entry point is
//! the embedder's job; a redirect, once recorded, is permanent for the
//! process lifetime (there is no uninstall).

use vstd::prelude::*;

verus! {

/// The two's-complement bit pattern of a signed 64-bit constant.
pub open spec fn i64_bits(v: i64) -> u64 {
    if v >= 0 {
        v as u64
    } else {
        ((v as int) + 0x1_0000_0000_0000_0000) as u64
    }
}

/// The stub's machine code: load the constant into the primary return
/// register (`mov rax, imm64`, encoded `48 B8` followed by the constant's
/// eight bytes least-significant first), then return (`C3`).
pub open spec fn stub_bytes(bits: u64) -> Seq<u8> {
    seq![
        0x48u8,
        0xB8u8,
        (bits & 0xFF) as u8,
        ((bits >> 8) & 0xFF) as u8,
        ((bits >> 16) & 0xFF) as u8,
        ((bits >> 24) & 0xFF) as u8,
        ((bits >> 32) & 0xFF) as u8,
        ((bits >> 40) & 0xFF) as u8,
        ((bits >> 48) & 0xFF) as u8,
        ((bits >> 56) & 0xFF) as u8,
        0xC3u8,
    ]
}

/// Encode the fixed-return stub for a constant.
pub fn encode_return_stub(value: i64) -> (r: Vec<u8>)
    ensures
        r@ == stub_bytes(i64_bits(value)),
{
    let bits: u64 = if value >= 0 {
        value as u64
    } else {
        (value - i64::MIN) as u64 + 0x8000_0000_0000_0000u64
    };
    assert(bits == i64_bits(value));
    proof {
        assert((bits & 0xFF) < 256 && ((bits >> 8) & 0xFF) < 256 && ((bits >> 16) & 0xFF) < 256
            && ((bits >> 24) & 0xFF) < 256 && ((bits >> 32) & 0xFF) < 256 && ((bits >> 40) & 0xFF)
            < 256 && ((bits >> 48) & 0xFF) < 256 && ((bits >> 56) & 0xFF) < 256) by (bit_vector);
    }
    let mut out: Vec<u8> = Vec::new();
    out.push(0x48u8);
    out.push(0xB8u8);
    out.push((bits & 0xFF) as u8);
    out.push(((bits >> 8) & 0xFF) as u8);
    out.push(((bits >> 16) & 0xFF) as u8);
    out.push(((bits >> 24) & 0xFF) as u8);
    out.push(((bits >> 32) & 0xFF) as u8);
    out.push(((bits >> 40) & 0xFF) as u8);
    out.push(((bits >> 48) & 0xFF) as u8);
    out.push(((bits >> 56) & 0xFF) as u8);
    out.push(0xC3u8);
    assert(out@ =~= stub_bytes(bits));
    out
}

/// The installed redirect for a target address, if any: first match over
/// the ledger's records.
pub open spec fn ledger_lookup(records: Seq<(usize, i64)>, target: usize) -> Option<i64>
    decreases records.len(),
{
    if records.len() == 0 {
        None
    } else if records[0].0 == target {
        Some(records[0].1)
    } else {
        ledger_lookup(records.drop_first(), target)
    }
}

/// A record whose target no earlier record claims decides the lookup.
proof fn lemma_ledger_lookup_at(records: Seq<(usize, i64)>, target: usize, k: int)
    requires
        0 <= k < records.len(),
        records[k].0 == target,
        forall|j: int| 0 <= j < k ==> (#[trigger] records[j]).0 != target,
    ensures
        ledger_lookup(records, target) == Some(records[k].1),
    decreases records.len(),
{
    if k > 0 {
        lemma_ledger_lookup_at(records.drop_first(), target, k - 1);
    }
}

/// A target no record claims is absent from the lookup.
proof fn lemma_ledger_lookup_none(records: Seq<(usize, i64)>, target: usize)
    requires
        forall|j: int| 0 <= j < records.len() ==> (#[trigger] records[j]).0 != target,
    ensures
        ledger_lookup(records, target) is None,
    decreases records.len(),
{
    if records.len() > 0 {
        lemma_ledger_lookup_none(records.drop_first(), target);
    }
}

/// Conversely, an absent target is claimed by no record.
proof fn lemma_ledger_lookup_none_converse(records: Seq<(usize, i64)>, target: usize)
    requires
        ledger_lookup(records, target) is None,
    ensures
        forall|j: int| 0 <= j < records.len() ==> (#[trigger] records[j]).0 != target,
    decreases records.len(),
{
    if records.len() > 0 {
        lemma_ledger_lookup_none_converse(records.drop_first(), target);
        assert forall|j: int| 0 <= j < records.len() implies (#[trigger] records[j]).0
            != target by {
            if j > 0 {
                assert(records[j] == records.drop_first()[j - 1]);
            }
        }
    }
}

/// Appending a record for one target leaves every other target's lookup
/// unchanged: overriding one function never interferes with another.
pub proof fn lemma_override_independence(
    records: Seq<(usize, i64)>,
    target: usize,
    value: i64,
    other: usize,
)
    requires
        other != target,
    ensures
        ledger_lookup(records.push((target, value)), other) == ledger_lookup(records, other),
    decreases records.len(),
{
    if records.len() == 0 {
        assert(records.push((target, value)).drop_first() =~= Seq::<(usize, i64)>::empty());
    } else {
        assert(records.push((target, value)).drop_first() =~= records.drop_first().push(
            (target, value),
        ));
        lemma_override_independence(records.drop_first(), target, value, other);
    }
}

/// The process-wide ledger of installed redirects.
///
/// Records are only ever appended — a redirect outlives the call that
/// installed it — and each target address is recorded at most once, which
/// guards against patching one entry point twice.
#[derive(Debug)]
pub struct PatchLedger {
    records: Vec<(usize, i64)>,
}

impl View for PatchLedger {
    type V = Seq<(usize, i64)>;

    closed spec fn view(&self) -> Seq<(usize, i64)> {
        self.records@
    }
}

impl PatchLedger {
    /// Every target address is recorded at most once.
    pub open spec fn wf(&self) -> bool {
        forall|i: int, j: int|
            0 <= i < j < self@.len() ==> (#[trigger] self@[i]).0 != (#[trigger] self@[j]).0
    }

    /// An empty ledger: nothing has been redirected yet.
    pub fn new() -> (l: PatchLedger)
        ensures
            l@ == Seq::<(usize, i64)>::empty(),
            l.wf(),
    {
        PatchLedger { records: Vec::new() }
    }

    /// The constant a target address has been redirected to return, if it
    /// has been patched.
    pub fn installed_value(&self, target: usize) -> (r: Option<i64>)
        ensures
            r == ledger_lookup(self@, target),
    {
        let mut i: usize = 0;
        while i < self.records.len()
            invariant
                i <= self@.len(),
                forall|j: int| 0 <= j < i ==> (#[trigger] self@[j]).0 != target,
            decreases self@.len() - i,
        {
            if self.records[i].0 == target {
                proof {
                    lemma_ledger_lookup_at(self@, target, i as int);
                }
                return Some(self.records[i].1);
            }
            i = i + 1;
        }
        proof {
            lemma_ledger_lookup_none(self@, target);
        }
        None
    }

    /// Record a fresh redirect.  Returns `true` and appends the record if
    /// the target was not yet patched; leaves the ledger unchanged and
    /// returns `false` if it was, so a second redirect is never stacked on
    /// the first.
    pub fn record(&mut self, target: usize, value: i64) -> (fresh: bool)
        ensures
            fresh <==> ledger_lookup(old(self)@, target) is None,
            fresh ==> final(self)@ == old(self)@.push((target, value)),
            !fresh ==> final(self)@ == old(self)@,
            old(self).wf() ==> final(self).wf(),
    {
        match self.installed_value(target) {
            Some(_) => false,
            None => {
                proof {
                    lemma_ledger_lookup_none_converse(self@, target);
                }
                self.records.push((target, value));
                true
            },
        }
    }
}

} // verus!
