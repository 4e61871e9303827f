//! Helpers over byte strings.
//!
//! Paths, command arguments and tool output are modelled as byte strings
//! (`Vec<u8>` with a `Seq<u8>` view).  This module holds the small verified
//! operations the rest of the library builds on: ASCII case folding, ASCII
//! whitespace trimming, searching for a byte or a sub-slice, appending, and
//! decimal formatting of small numbers.

use vstd::prelude::*;
use vstd::slice::slice_subrange;

verus! {

/// ASCII whitespace, the set a line of an INF-style file is trimmed by.
pub open spec fn is_space(b: u8) -> bool {
    b == 0x20 || (0x09 <= b && b <= 0x0d)
}

/// ASCII lower-casing of one byte.
pub open spec fn lower_byte(b: u8) -> u8 {
    if 0x41 <= b && b <= 0x5a {
        (b + 0x20) as u8
    } else {
        b
    }
}

/// ASCII lower-casing of a byte string.
pub open spec fn lower(s: Seq<u8>) -> Seq<u8> {
    s.map_values(|b: u8| lower_byte(b))
}

/// The byte string without its leading ASCII whitespace.
pub open spec fn trim_start(s: Seq<u8>) -> Seq<u8>
    decreases s.len(),
{
    if s.len() > 0 && is_space(s[0]) {
        trim_start(s.skip(1))
    } else {
        s
    }
}

/// The byte string without its trailing ASCII whitespace.
pub open spec fn trim_end(s: Seq<u8>) -> Seq<u8>
    decreases s.len(),
{
    if s.len() > 0 && is_space(s.last()) {
        trim_end(s.take(s.len() - 1))
    } else {
        s
    }
}

/// The byte string without leading and trailing ASCII whitespace.
pub open spec fn trim(s: Seq<u8>) -> Seq<u8> {
    trim_end(trim_start(s))
}

/// Index of the first occurrence of `b` in `s`, or -1 when `b` does not occur.
pub open spec fn find_byte(s: Seq<u8>, b: u8) -> int
    decreases s.len(),
{
    if s.len() == 0 {
        -1
    } else if s[0] == b {
        0
    } else {
        let r = find_byte(s.skip(1), b);
        if r < 0 {
            -1
        } else {
            r + 1
        }
    }
}

/// What `find_byte` returns: the first index holding `b`, if any.
pub proof fn lemma_find_byte(s: Seq<u8>, b: u8)
    ensures
        find_byte(s, b) >= 0 ==> find_byte(s, b) < s.len() && s[find_byte(s, b)] == b
            && (forall|j: int| 0 <= j < find_byte(s, b) ==> s[j] != b),
        find_byte(s, b) < 0 ==> forall|j: int| 0 <= j < s.len() ==> s[j] != b,
    decreases s.len(),
{
    if s.len() > 0 && s[0] != b {
        lemma_find_byte(s.skip(1), b);
        let r1 = find_byte(s.skip(1), b);
        if r1 >= 0 {
            assert(s[r1 + 1] == s.skip(1)[r1]);
            assert forall|j: int| 0 <= j < r1 + 1 implies s[j] != b by {
                if j > 0 {
                    assert(s.skip(1)[j - 1] == s[j]);
                }
            }
        } else {
            assert forall|j: int| 0 <= j < s.len() implies s[j] != b by {
                if j > 0 {
                    assert(s.skip(1)[j - 1] == s[j]);
                }
            }
        }
    }
}

/// `find_byte` is pinned by its characteristic properties.
pub proof fn lemma_find_byte_at(s: Seq<u8>, b: u8, i: int)
    requires
        0 <= i < s.len(),
        s[i] == b,
        forall|j: int| 0 <= j < i ==> s[j] != b,
    ensures
        find_byte(s, b) == i,
    decreases i,
{
    if i > 0 {
        assert forall|j: int| 0 <= j < i - 1 implies s.skip(1)[j] != b by {
            assert(s.skip(1)[j] == s[j + 1]);
        }
        assert(s.skip(1)[i - 1] == b);
        lemma_find_byte_at(s.skip(1), b, i - 1);
    }
}

/// When `b` occurs nowhere, `find_byte` reports -1.
pub proof fn lemma_find_byte_none(s: Seq<u8>, b: u8)
    requires
        forall|j: int| 0 <= j < s.len() ==> s[j] != b,
    ensures
        find_byte(s, b) == -1,
    decreases s.len(),
{
    if s.len() > 0 {
        assert forall|j: int| 0 <= j < s.skip(1).len() implies s.skip(1)[j] != b by {
            assert(s.skip(1)[j] == s[j + 1]);
        }
        lemma_find_byte_none(s.skip(1), b);
    }
}

/// `needle` occurs as a contiguous sub-string of `hay` at index `i`.
pub open spec fn matches_at(hay: Seq<u8>, needle: Seq<u8>, i: int) -> bool {
    0 <= i && i + needle.len() <= hay.len() && hay.subrange(i, i + needle.len()) == needle
}

/// `needle` occurs somewhere as a contiguous sub-string of `hay`.
pub open spec fn contains_sub(hay: Seq<u8>, needle: Seq<u8>) -> bool {
    exists|i: int| matches_at(hay, needle, i)
}

/// Executable ASCII whitespace test.
pub fn byte_is_space(b: u8) -> (r: bool)
    ensures
        r == is_space(b),
{
    b == 0x20 || (0x09 <= b && b <= 0x0d)
}

/// Executable ASCII lower-casing of a byte string.
pub fn to_lower(s: &[u8]) -> (r: Vec<u8>)
    ensures
        r@ == lower(s@),
{
    let mut out: Vec<u8> = Vec::new();
    let mut i: usize = 0;
    while i < s.len()
        invariant
            i <= s@.len(),
            out@ == lower(s@.take(i as int)),
        decreases s@.len() - i,
    {
        let b = s[i];
        let lb: u8 = if 0x41 <= b && b <= 0x5a {
            b + 0x20
        } else {
            b
        };
        out.push(lb);
        proof {
            assert(lower(s@.take(i + 1)) =~= lower(s@.take(i as int)).push(lower_byte(s@[i as int])));
        }
        i = i + 1;
    }
    proof {
        assert(s@.take(s@.len() as int) =~= s@);
    }
    out
}

/// Executable trim of leading and trailing ASCII whitespace.
pub fn trim_slice(s: &[u8]) -> (r: &[u8])
    ensures
        r@ == trim(s@),
{
    proof {
        assert(s@.skip(0) =~= s@);
    }
    let mut lo: usize = 0;
    while lo < s.len() && byte_is_space(s[lo])
        invariant
            lo <= s@.len(),
            trim_start(s@) == trim_start(s@.skip(lo as int)),
        decreases s@.len() - lo,
    {
        proof {
            assert(s@.skip(lo as int).skip(1) =~= s@.skip(lo + 1));
        }
        lo = lo + 1;
    }
    proof {
        assert(trim_start(s@) == s@.subrange(lo as int, s@.len() as int)) by {
            assert(s@.skip(lo as int) =~= s@.subrange(lo as int, s@.len() as int));
        }
    }
    let mut hi: usize = s.len();
    while hi > lo && byte_is_space(s[hi - 1])
        invariant
            lo <= hi <= s@.len(),
            trim_end(s@.subrange(lo as int, s@.len() as int)) == trim_end(
                s@.subrange(lo as int, hi as int),
            ),
        decreases hi,
    {
        proof {
            let cur = s@.subrange(lo as int, hi as int);
            assert(cur.last() == s@[hi - 1]);
            assert(cur.take(cur.len() - 1) =~= s@.subrange(lo as int, hi - 1));
        }
        hi = hi - 1;
    }
    slice_subrange(s, lo, hi)
}

/// Executable search for the first occurrence of a byte.
pub fn find_byte_in(s: &[u8], b: u8) -> (r: Option<usize>)
    ensures
        match r {
            Some(i) => find_byte(s@, b) == i as int,
            None => find_byte(s@, b) == -1,
        },
{
    let mut i: usize = 0;
    while i < s.len()
        invariant
            i <= s@.len(),
            forall|j: int| 0 <= j < i ==> s@[j] != b,
        decreases s@.len() - i,
    {
        if s[i] == b {
            proof {
                lemma_find_byte_at(s@, b, i as int);
            }
            return Some(i);
        }
        i = i + 1;
    }
    proof {
        lemma_find_byte_none(s@, b);
    }
    None
}

/// Executable sub-string search.
pub fn contains_subslice(hay: &[u8], needle: &[u8]) -> (r: bool)
    ensures
        r == contains_sub(hay@, needle@),
{
    if needle.len() > hay.len() {
        proof {
            assert forall|i: int| !matches_at(hay@, needle@, i) by {}
        }
        return false;
    }
    if needle.len() == 0 {
        proof {
            assert(hay@.subrange(0, 0) =~= needle@);
            assert(matches_at(hay@, needle@, 0));
        }
        return true;
    }
    let last_start: usize = hay.len() - needle.len();
    let mut i: usize = 0;
    while i <= last_start
        invariant
            i <= last_start + 1,
            1 <= needle@.len(),
            last_start == hay@.len() - needle@.len(),
            hay@.len() <= usize::MAX,
            forall|ii: int| 0 <= ii < i ==> !matches_at(hay@, needle@, ii),
        decreases last_start - i + 1,
    {
        let mut j: usize = 0;
        let mut mismatch: bool = false;
        while j < needle.len() && !mismatch
            invariant
                j <= needle@.len(),
                i + needle@.len() <= hay@.len(),
                hay@.len() <= usize::MAX,
                !mismatch ==> forall|k: int| 0 <= k < j ==> hay@[i + k] == needle@[k],
                mismatch ==> !matches_at(hay@, needle@, i as int),
            decreases needle@.len() - j + (if mismatch { 0int } else { 1int }),
        {
            if hay[i + j] != needle[j] {
                proof {
                    assert(hay@.subrange(i as int, i + needle@.len())[j as int] == hay@[i + j]);
                }
                mismatch = true;
            } else {
                j = j + 1;
            }
        }
        if !mismatch {
            proof {
                assert(hay@.subrange(i as int, i + needle@.len()) =~= needle@);
                assert(matches_at(hay@, needle@, i as int));
            }
            return true;
        }
        i = i + 1;
    }
    proof {
        assert forall|ii: int| !matches_at(hay@, needle@, ii) by {
            if ii > last_start {
                assert(ii + needle@.len() > hay@.len());
            }
        }
    }
    false
}

/// Executable equality of two byte strings.
pub fn slice_eq(a: &[u8], b: &[u8]) -> (r: bool)
    ensures
        r == (a@ == b@),
{
    if a.len() != b.len() {
        return false;
    }
    let mut i: usize = 0;
    while i < a.len()
        invariant
            i <= a@.len(),
            a@.len() == b@.len(),
            forall|j: int| 0 <= j < i ==> a@[j] == b@[j],
        decreases a@.len() - i,
    {
        if a[i] != b[i] {
            return false;
        }
        i = i + 1;
    }
    proof {
        assert(a@ =~= b@);
    }
    true
}

/// Appends a byte slice to a byte vector.
pub fn push_bytes(out: &mut Vec<u8>, s: &[u8])
    ensures
        final(out)@ == old(out)@ + s@,
{
    let mut i: usize = 0;
    while i < s.len()
        invariant
            i <= s@.len(),
            out@ == old(out)@ + s@.take(i as int),
        decreases s@.len() - i,
    {
        out.push(s[i]);
        proof {
            assert(old(out)@ + s@.take(i + 1) =~= (old(out)@ + s@.take(i as int)).push(s@[i as int]));
        }
        i = i + 1;
    }
    proof {
        assert(s@.take(s@.len() as int) =~= s@);
    }
}

/// The element-wise views of a sequence of byte vectors.
pub open spec fn views_of(v: Seq<Vec<u8>>) -> Seq<Seq<u8>> {
    v.map_values(|a: Vec<u8>| a@)
}

/// Decimal digits of `n`, most significant first.
pub open spec fn dec_rep(n: nat) -> Seq<u8>
    decreases n,
{
    if n < 10 {
        seq![(0x30 + n) as u8]
    } else {
        dec_rep(n / 10).push((0x30 + n % 10) as u8)
    }
}

/// Executable decimal formatting of a `u8`.
pub fn u8_to_dec(n: u8) -> (r: Vec<u8>)
    ensures
        r@ == dec_rep(n as nat),
{
    let mut out: Vec<u8> = Vec::new();
    if n >= 100 {
        out.push(0x30 + n / 100);
        out.push(0x30 + (n / 10) % 10);
        out.push(0x30 + n % 10);
        proof {
            let m: nat = n as nat;
            vstd::arithmetic::div_mod::lemma_div_denominator(n as int, 10, 10);
            assert(m / 10 / 10 == m / 100);
            assert(dec_rep(m / 100) == seq![(0x30 + m / 100) as u8]);
            assert(dec_rep(m / 10) == dec_rep(m / 100).push((0x30 + (m / 10) % 10) as u8));
            assert(out@ =~= dec_rep(m));
        }
    } else if n >= 10 {
        out.push(0x30 + n / 10);
        out.push(0x30 + n % 10);
        proof {
            let m: nat = n as nat;
            assert(dec_rep(m / 10) == seq![(0x30 + m / 10) as u8]);
            assert(out@ =~= dec_rep(m));
        }
    } else {
        out.push(0x30 + n);
        proof {
            assert(out@ =~= dec_rep(n as nat));
        }
    }
    out
}

} // verus!
