//! Character-level string utilities for the window locator and the
//! configuration reader: lowercasing, equality, prefix and substring tests,
//! each stated over the character sequences the strings hold.

use vstd::prelude::*;
use vstd::string::StrSliceExecFns;

verus! {

/// The lowercase form of a character sequence, as `str::to_lowercase`
/// computes it. The mapping is involved (full Unicode case folding), so it
/// is only named here, never spelled out.
pub uninterp spec fn lower_of(s: Seq<char>) -> Seq<char>;

/// Relies on `str::to_lowercase`: the result depends on the characters of
/// `s` alone.
#[verifier::external_body]
pub(crate) fn lowercase(s: &str) -> (r: String)
    ensures
        r@ == lower_of(s@),
{
    s.to_lowercase()
}

/// Character-for-character string equality.
pub fn str_eq(a: &str, b: &str) -> (r: bool)
    ensures
        r == (a@ == b@),
{
    let an = a.unicode_len();
    let bn = b.unicode_len();
    if an != bn {
        return false;
    }
    let mut i: usize = 0;
    while i < an
        invariant
            an == a@.len(),
            an == b@.len(),
            i <= an,
            forall|j: int| 0 <= j < i ==> a@[j] == b@[j],
        decreases an - i,
    {
        if a.get_char(i) != b.get_char(i) {
            return false;
        }
        i += 1;
    }
    proof {
        assert(a@ =~= b@);
    }
    true
}

/// `p` stands at the front of `s`.
pub open spec fn is_prefix_of(p: Seq<char>, s: Seq<char>) -> bool {
    p.len() <= s.len() && s.subrange(0, p.len() as int) == p
}

/// Whether `s` starts with `p`.
pub fn has_prefix(s: &str, p: &str) -> (r: bool)
    ensures
        r == is_prefix_of(p@, s@),
{
    let sn = s.unicode_len();
    let pn = p.unicode_len();
    if pn > sn {
        return false;
    }
    let mut i: usize = 0;
    while i < pn
        invariant
            sn == s@.len(),
            pn == p@.len(),
            pn <= sn,
            i <= pn,
            forall|j: int| 0 <= j < i ==> s@[j] == p@[j],
        decreases pn - i,
    {
        if s.get_char(i) != p.get_char(i) {
            proof {
                if is_prefix_of(p@, s@) {
                    assert(s@.subrange(0, pn as int)[i as int] == s@[i as int]);
                }
            }
            return false;
        }
        i += 1;
    }
    proof {
        assert(s@.subrange(0, pn as int) =~= p@);
    }
    true
}

/// `p` occurs in `t` starting at position `i`.
pub open spec fn contains_at(t: Seq<char>, p: Seq<char>, i: int) -> bool {
    &&& 0 <= i
    &&& i + p.len() <= t.len()
    &&& t.subrange(i, i + p.len() as int) == p
}

/// `p` occurs somewhere in `t`; the empty sequence occurs in everything.
pub open spec fn seq_contains(t: Seq<char>, p: Seq<char>) -> bool {
    exists|i: int| contains_at(t, p, i)
}

/// Whether `p` stands at position `i` of `t`.
fn matches_at(t: &str, p: &str, i: usize, tn: usize, pn: usize) -> (r: bool)
    requires
        tn == t@.len(),
        pn == p@.len(),
        i + pn <= tn,
    ensures
        r == contains_at(t@, p@, i as int),
{
    let mut j: usize = 0;
    while j < pn
        invariant
            tn == t@.len(),
            pn == p@.len(),
            i + pn <= tn,
            j <= pn,
            forall|l: int| 0 <= l < j ==> t@[i + l] == p@[l],
        decreases pn - j,
    {
        if t.get_char(i + j) != p.get_char(j) {
            proof {
                if contains_at(t@, p@, i as int) {
                    assert(t@.subrange(i as int, i + pn as int)[j as int] == t@[i + j]);
                }
            }
            return false;
        }
        j += 1;
    }
    proof {
        assert(t@.subrange(i as int, i + pn as int) =~= p@) by {
            assert(forall|l: int|
                0 <= l < pn ==> #[trigger] t@.subrange(i as int, i + pn as int)[l] == t@[i
                    + l]);
        }
    }
    true
}

/// Whether `t` contains `p` as a substring of its characters.
pub fn contains_str(t: &str, p: &str) -> (r: bool)
    ensures
        r == seq_contains(t@, p@),
{
    let tn = t.unicode_len();
    let pn = p.unicode_len();
    if pn == 0 {
        proof {
            assert(t@.subrange(0, 0) =~= p@);
            assert(contains_at(t@, p@, 0));
        }
        return true;
    }
    if pn > tn {
        proof {
            assert(forall|i: int| !contains_at(t@, p@, i));
        }
        return false;
    }
    let mut i: usize = 0;
    while i <= tn - pn
        invariant
            tn == t@.len(),
            pn == p@.len(),
            0 < pn <= tn,
            i <= tn - pn + 1,
            forall|k: int| 0 <= k < i ==> !contains_at(t@, p@, k),
        decreases tn - pn + 1 - i,
    {
        if matches_at(t, p, i, tn, pn) {
            return true;
        }
        i += 1;
    }
    proof {
        assert forall|k: int| !contains_at(t@, p@, k) by {
            if 0 <= k <= tn - pn {
                assert(!contains_at(t@, p@, k));
            }
        }
    }
    false
}

} // verus!
