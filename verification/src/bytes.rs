//! Byte-string predicates shared by the command classifiers, the URL router
//! and the script scanners.
use vstd::prelude::*;
use vstd::string::StringSliceAdditionalSpecFns;

verus! {

/// `s` begins with the bytes of `p`.
pub open spec fn starts_with(s: Seq<u8>, p: Seq<u8>) -> bool {
    p.len() <= s.len() && s.subrange(0, p.len() as int) == p
}

/// The bytes of `p` occur in `s` starting at index `i`.
pub open spec fn occurs_at(s: Seq<u8>, p: Seq<u8>, i: int) -> bool {
    0 <= i && i + p.len() <= s.len() && s.subrange(i, i + p.len()) == p
}

/// The bytes of `p` occur somewhere in `s`.
pub open spec fn contains(s: Seq<u8>, p: Seq<u8>) -> bool {
    exists|i: int| occurs_at(s, p, i)
}

/// Whether `s` begins with `p`.
pub fn has_prefix(s: &[u8], p: &[u8]) -> (r: bool)
    ensures
        r == starts_with(s@, p@),
{
    if p.len() > s.len() {
        return false;
    }
    let mut i: usize = 0;
    while i < p.len()
        invariant
            p@.len() <= s@.len(),
            0 <= i <= p@.len(),
            forall|j: int| 0 <= j < i ==> s@[j] == p@[j],
        decreases p@.len() - i,
    {
        if s[i] != p[i] {
            assert(s@.subrange(0, p@.len() as int)[i as int] != p@[i as int]);
            return false;
        }
        i = i + 1;
    }
    assert(s@.subrange(0, p@.len() as int) =~= p@);
    true
}

/// Whether `p` occurs in `s` at index `i`.
fn matches_at(s: &[u8], p: &[u8], i: usize) -> (r: bool)
    requires
        i + p@.len() <= s@.len(),
    ensures
        r == occurs_at(s@, p@, i as int),
{
    let mut k: usize = 0;
    while k < p.len()
        invariant
            i + p@.len() <= s@.len(),
            0 <= k <= p@.len(),
            forall|j: int| 0 <= j < k ==> s@[i + j] == p@[j],
        decreases p@.len() - k,
    {
        let n: usize = s.len();
        assert(i + k < n);
        if s[i + k] != p[k] {
            assert(s@.subrange(i as int, i + p@.len())[k as int] != p@[k as int]);
            return false;
        }
        k = k + 1;
    }
    assert(s@.subrange(i as int, i + p@.len()) =~= p@);
    true
}

/// Whether `p` occurs anywhere in `s`, scanning every start position.
pub fn contains_bytes(s: &[u8], p: &[u8]) -> (r: bool)
    ensures
        r == contains(s@, p@),
{
    if s.len() < p.len() {
        assert(!contains(s@, p@));
        return false;
    }
    let last: usize = s.len() - p.len();
    let mut i: usize = 0;
    while i <= last
        invariant
            p@.len() <= s@.len(),
            last == s@.len() - p@.len(),
            0 <= i <= last + 1,
            forall|j: int| 0 <= j < i ==> !occurs_at(s@, p@, j),
        decreases s@.len() - p@.len() + 1 - i,
    {
        if matches_at(s, p, i) {
            return true;
        }
        if i == last {
            assert forall|j: int| !occurs_at(s@, p@, j) by {
                if 0 <= j <= i {
                }
            }
            return false;
        }
        i = i + 1;
    }
    assert forall|j: int| !occurs_at(s@, p@, j) by {
        if 0 <= j < i {
        }
    }
    false
}

} // verus!

verus! {

/// The bytes of an ASCII string are its characters, one byte each.
pub proof fn lemma_ascii_bytes(s: &str)
    requires
        vstd::string::is_ascii(s),
    ensures
        s.spec_bytes().len() == s@.len(),
        forall|i: int| 0 <= i < s@.len() ==> #[trigger] s.spec_bytes()[i] == s@[i] as u8,
{
    vstd::string::is_ascii_spec_bytes(s);
}

/// A byte that differs within the length of `p` rules out `p` as a prefix.
pub proof fn lemma_not_prefix(s: Seq<u8>, p: Seq<u8>, j: int)
    requires
        0 <= j < p.len(),
        j < s.len(),
        s[j] != p[j],
    ensures
        !starts_with(s, p),
{
    if starts_with(s, p) {
        assert(s.subrange(0, p.len() as int)[j] == s[j]);
    }
}

/// Agreement on the first `p.len()` bytes makes `p` a prefix.
pub proof fn lemma_is_prefix(s: Seq<u8>, p: Seq<u8>)
    requires
        p.len() <= s.len(),
        forall|j: int| 0 <= j < p.len() ==> s[j] == p[j],
    ensures
        starts_with(s, p),
{
    assert(s.subrange(0, p.len() as int) =~= p);
}

/// Index of the first `true` in `s`, or its length when there is none.
pub open spec fn first_true(s: Seq<bool>) -> nat
    decreases s.len(),
{
    if s.len() == 0 {
        0
    } else if s[0] {
        0
    } else {
        1 + first_true(s.skip(1))
    }
}

/// The characterisation of `first_true`: the first index holding `true`.
pub proof fn lemma_first_true(s: Seq<bool>, r: nat)
    requires
        r <= s.len(),
        forall|j: int| 0 <= j < r ==> !s[j],
        r < s.len() ==> s[r as int],
    ensures
        first_true(s) == r,
    decreases r,
{
    if r > 0 {
        let t = s.skip(1);
        assert forall|j: int| 0 <= j < r - 1 implies !t[j] by {
            assert(t[j] == s[j + 1]);
        }
        if r - 1 < t.len() {
            assert(t[r - 1] == s[r as int]);
        }
        lemma_first_true(t, (r - 1) as nat);
    }
}

/// One past the index of the last `true` in `s`, or 0 when there is none.
pub open spec fn last_true_end(s: Seq<bool>) -> nat
    decreases s.len(),
{
    if s.len() == 0 {
        0
    } else if s.last() {
        s.len()
    } else {
        last_true_end(s.drop_last())
    }
}

/// The characterisation of `last_true_end`: everything from `r` on is
/// `false`, and `r` is 0 or follows a `true`.
pub proof fn lemma_last_true_end(s: Seq<bool>, r: nat)
    requires
        r <= s.len(),
        forall|j: int| r <= j < s.len() ==> !s[j],
        r > 0 ==> s[r - 1],
    ensures
        last_true_end(s) == r,
    decreases s.len(),
{
    if s.len() > r {
        let d = s.drop_last();
        assert forall|j: int| r <= j < d.len() implies !d[j] by {
            assert(d[j] == s[j]);
        }
        if r > 0 {
            assert(d[r - 1] == s[r - 1]);
        }
        lemma_last_true_end(d, r);
    }
}

/// `first_true` is within bounds, everything before it is `false`, and it
/// holds `true` when it is not the length.
pub proof fn lemma_first_true_props(s: Seq<bool>)
    ensures
        first_true(s) <= s.len(),
        forall|j: int| 0 <= j < first_true(s) ==> !s[j],
        first_true(s) < s.len() ==> s[first_true(s) as int],
    decreases s.len(),
{
    if s.len() > 0 && !s[0] {
        let t = s.skip(1);
        lemma_first_true_props(t);
        assert forall|j: int| 0 <= j < first_true(s) implies !s[j] by {
            if j > 0 {
                assert(s[j] == t[j - 1]);
            }
        }
        if first_true(s) < s.len() {
            assert(s[first_true(s) as int] == t[first_true(t) as int]);
        }
    }
}

/// `last_true_end` is within bounds, everything from it on is `false`, and
/// the element before it is `true`.
pub proof fn lemma_last_true_end_props(s: Seq<bool>)
    ensures
        last_true_end(s) <= s.len(),
        forall|j: int| last_true_end(s) <= j < s.len() ==> !s[j],
        last_true_end(s) > 0 ==> s[last_true_end(s) - 1],
    decreases s.len(),
{
    if s.len() > 0 && !s.last() {
        let d = s.drop_last();
        lemma_last_true_end_props(d);
        assert forall|j: int| last_true_end(s) <= j < s.len() implies !s[j] by {
            if j < d.len() {
                assert(s[j] == d[j]);
            }
        }
        if last_true_end(s) > 0 {
            assert(s[last_true_end(s) - 1] == d[last_true_end(d) - 1]);
        }
    }
}

/// `s` and `p` hold the same bytes.
pub fn bytes_equal(s: &[u8], p: &[u8]) -> (r: bool)
    ensures
        r == (s@ == p@),
{
    if s.len() != p.len() {
        return false;
    }
    let mut i: usize = 0;
    while i < s.len()
        invariant
            s@.len() == p@.len(),
            0 <= i <= s@.len(),
            forall|j: int| 0 <= j < i ==> s@[j] == p@[j],
        decreases s@.len() - i,
    {
        if s[i] != p[i] {
            return false;
        }
        i = i + 1;
    }
    assert(s@ =~= p@);
    true
}

} // verus!
