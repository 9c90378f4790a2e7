//! Case normalization of native function names.
//!
//! Names arrive from the host's table in its own naming convention
//! (`GiveXP`, `OnInfoAdvancePlayingTimeByHours`).  Before any lookup they
//! are normalized to one consistent style: words separated by single
//! underscores, every letter lower case (`give_xp`).  A word break falls
//! on any non-alphanumeric byte, before an upper-case letter that follows
//! a lower-case letter or digit, and before the last upper-case letter of
//! an upper-case run that is followed by a lower-case letter.  Bytes
//! outside ASCII letters and digits only separate words and never appear
//! in the result.
//!
//! Normalization is idempotent: [`lemma_normalize_idempotent`] proves that
//! normalizing twice equals normalizing once, so table keys and discovered
//! names compare equal regardless of how often either side was normalized.

use vstd::prelude::*;

verus! {

/// ASCII lower-case letter.
pub open spec fn is_lower(b: u8) -> bool {
    97 <= b && b <= 122
}

/// ASCII upper-case letter.
pub open spec fn is_upper(b: u8) -> bool {
    65 <= b && b <= 90
}

/// ASCII decimal digit.
pub open spec fn is_digit(b: u8) -> bool {
    48 <= b && b <= 57
}

/// A byte that belongs to a word: an ASCII letter or digit.
pub open spec fn is_word_byte(b: u8) -> bool {
    is_lower(b) || is_upper(b) || is_digit(b)
}

/// The byte with upper-case letters folded to lower case.
pub open spec fn lower_byte(b: u8) -> u8 {
    if is_upper(b) {
        (b + 32) as u8
    } else {
        b
    }
}

/// Whether a new word starts at position `i` of `s` (for `0 < i < s.len()`
/// with `s[i]` a word byte): after a separator, on a case transition, or
/// before the last upper-case letter of a run followed by lower case.
pub open spec fn word_boundary(s: Seq<u8>, i: int) -> bool
    recommends
        0 < i < s.len(),
{
    ||| !is_word_byte(s[i - 1])
    ||| (is_upper(s[i]) && (is_lower(s[i - 1]) || is_digit(s[i - 1])))
    ||| (is_upper(s[i]) && is_upper(s[i - 1]) && i + 1 < s.len() && is_lower(s[i + 1]))
}

/// The normalized form of `s` from position `i` on, appended to the
/// already-produced output `out`.
pub open spec fn snake_step(s: Seq<u8>, i: int, out: Seq<u8>) -> Seq<u8>
    decreases s.len() - i,
{
    if i < 0 || i >= s.len() {
        out
    } else {
        let c = s[i];
        if !is_word_byte(c) {
            snake_step(s, i + 1, out)
        } else {
            let with_sep = if out.len() > 0 && 0 < i && word_boundary(s, i) {
                out.push(95u8)
            } else {
                out
            };
            snake_step(s, i + 1, with_sep.push(lower_byte(c)))
        }
    }
}

/// The normalized (snake case) form of a name.
pub open spec fn snake_of(s: Seq<u8>) -> Seq<u8> {
    snake_step(s, 0, Seq::empty())
}

/// A byte string already in normalized form: only lower-case letters,
/// digits and single interior underscores.
pub open spec fn normalized(t: Seq<u8>) -> bool {
    &&& forall|k: int|
        0 <= k < t.len() ==> is_lower(#[trigger] t[k]) || is_digit(t[k]) || t[k] == 95u8
    &&& t.len() > 0 ==> t[0] != 95u8
    &&& t.len() > 0 ==> t[t.len() - 1] != 95u8
    &&& forall|k: int| 0 < k < t.len() && #[trigger] t[k] == 95u8 ==> t[k - 1] != 95u8
}

/// Normalize a native name to snake case.
pub fn normalize_name(name: &[u8]) -> (r: Vec<u8>)
    ensures
        r@ == snake_of(name@),
{
    let ghost s = name@;
    let mut out: Vec<u8> = Vec::new();
    let mut i: usize = 0;
    while i < name.len()
        invariant
            i <= s.len(),
            s == name@,
            snake_step(s, i as int, out@) == snake_of(s),
        decreases s.len() - i,
    {
        let c = name[i];
        let word = (97 <= c && c <= 122) || (65 <= c && c <= 90) || (48 <= c && c <= 57);
        if word {
            let mut boundary = false;
            if out.len() > 0 && i > 0 {
                let p = name[i - 1];
                let p_word = (97 <= p && p <= 122) || (65 <= p && p <= 90) || (48 <= p && p
                    <= 57);
                if !p_word {
                    boundary = true;
                } else if 65 <= c && c <= 90 {
                    if (97 <= p && p <= 122) || (48 <= p && p <= 57) {
                        boundary = true;
                    } else if 65 <= p && p <= 90 && i + 1 < name.len() {
                        let n = name[i + 1];
                        if 97 <= n && n <= 122 {
                            boundary = true;
                        }
                    }
                }
            }
            assert(boundary == (out@.len() > 0 && 0 < i && word_boundary(s, i as int)));
            if boundary {
                out.push(95u8);
            }
            let lowered = if 65 <= c && c <= 90 {
                c + 32
            } else {
                c
            };
            assert(lowered == lower_byte(s[i as int]));
            out.push(lowered);
        }
        i = i + 1;
    }
    out
}

/// The output of normalization is itself in normalized form.
proof fn lemma_step_normalized(s: Seq<u8>, i: int, out: Seq<u8>)
    requires
        normalized(out),
    ensures
        normalized(snake_step(s, i, out)),
    decreases s.len() - i,
{
    if i < 0 || i >= s.len() {
    } else {
        let c = s[i];
        if !is_word_byte(c) {
            lemma_step_normalized(s, i + 1, out);
        } else {
            let with_sep = if out.len() > 0 && 0 < i && word_boundary(s, i) {
                out.push(95u8)
            } else {
                out
            };
            let next = with_sep.push(lower_byte(c));
            assert(lower_byte(c) != 95u8);
            assert(normalized(next));
            lemma_step_normalized(s, i + 1, next);
        }
    }
}

/// Every normalization result is in normalized form.
pub proof fn lemma_snake_normalized(s: Seq<u8>)
    ensures
        normalized(snake_of(s)),
{
    lemma_step_normalized(s, 0, Seq::empty());
}

/// Running the normalizer over an already-normalized string reproduces it,
/// step by step.
proof fn lemma_fixpoint_step(t: Seq<u8>, i: int, out: Seq<u8>)
    requires
        normalized(t),
        0 <= i <= t.len(),
        (i == 0 && out == Seq::<u8>::empty()) || (0 < i && t[i - 1] == 95u8 && out == t.take(
            i - 1,
        )) || (0 < i && t[i - 1] != 95u8 && out == t.take(i)),
    ensures
        snake_step(t, i, out) == t,
    decreases t.len() - i,
{
    if i == t.len() {
        if i == 0 {
            assert(t =~= Seq::<u8>::empty());
        } else if t[i - 1] == 95u8 {
            assert(false);
        } else {
            assert(t.take(i) =~= t);
        }
    } else {
        let c = t[i];
        if c == 95u8 {
            assert(!is_word_byte(c));
            if i == 0 {
                assert(false);
            } else if t[i - 1] == 95u8 {
                assert(false);
            } else {
                assert(t.take(i + 1 - 1) == out);
                lemma_fixpoint_step(t, i + 1, out);
            }
        } else {
            assert(is_lower(c) || is_digit(c));
            assert(is_word_byte(c));
            assert(lower_byte(c) == c);
            if i == 0 {
                let next = out.push(c);
                assert(next =~= t.take(1));
                lemma_fixpoint_step(t, 1, next);
            } else if t[i - 1] == 95u8 {
                assert(t[0] != 95u8);
                assert(i - 1 >= 1);
                assert(out.len() == i - 1 > 0);
                assert(!is_word_byte(t[i - 1]));
                assert(word_boundary(t, i));
                let with_sep = out.push(95u8);
                assert(with_sep =~= t.take(i));
                let next = with_sep.push(c);
                assert(next =~= t.take(i + 1));
                lemma_fixpoint_step(t, i + 1, next);
            } else {
                assert(is_lower(t[i - 1]) || is_digit(t[i - 1]));
                assert(!word_boundary(t, i));
                let next = out.push(c);
                assert(next =~= t.take(i + 1));
                lemma_fixpoint_step(t, i + 1, next);
            }
        }
    }
}

/// A normalized string is a fixed point of normalization.
pub proof fn lemma_normalized_fixpoint(t: Seq<u8>)
    requires
        normalized(t),
    ensures
        snake_of(t) == t,
{
    lemma_fixpoint_step(t, 0, Seq::empty());
}

/// Normalization is idempotent: for every discovered name, normalizing
/// twice equals normalizing once.
pub proof fn lemma_normalize_idempotent(s: Seq<u8>)
    ensures
        snake_of(snake_of(s)) == snake_of(s),
{
    lemma_snake_normalized(s);
    lemma_normalized_fixpoint(snake_of(s));
}

} // verus!
