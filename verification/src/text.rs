//! Byte-string utilities: ASCII case folding, substring search, splitting
//! and splicing. URLs, domains and attribute text are handled as byte
//! strings throughout the library.

use vstd::prelude::*;

verus! {

/// '/' as a byte.
pub const SLASH: u8 = 47;

/// '.' as a byte.
pub const DOT: u8 = 46;

/// ASCII case folding of one byte: 'A'..='Z' map to 'a'..='z'.
pub open spec fn lower_byte(b: u8) -> u8 {
    if 65 <= b && b <= 90 {
        (b + 32) as u8
    } else {
        b
    }
}

/// ASCII case folding of a byte string.
pub open spec fn lower(s: Seq<u8>) -> Seq<u8> {
    Seq::new(s.len(), |i: int| lower_byte(s[i]))
}

/// `pat` occurs contiguously somewhere in `hay`.
pub open spec fn is_sub(hay: Seq<u8>, pat: Seq<u8>) -> bool {
    exists|i: int|
        0 <= i && i + pat.len() <= hay.len() && #[trigger] hay.subrange(
            i,
            i + pat.len() as int,
        ) == pat
}

/// `s` begins with `p`.
pub open spec fn has_prefix(s: Seq<u8>, p: Seq<u8>) -> bool {
    p.len() <= s.len() && s.subrange(0, p.len() as int) == p
}

/// The first position at or after `from` holding the byte `b`.
pub open spec fn find_from(s: Seq<u8>, from: int, b: u8) -> Option<int>
    decreases s.len() - from,
{
    if from < 0 || from >= s.len() {
        None
    } else if s[from] == b {
        Some(from)
    } else {
        find_from(s, from + 1, b)
    }
}

/// A found position lies in range, holds `b`, and nothing before it does.
pub proof fn lemma_find_from(s: Seq<u8>, from: int, b: u8)
    requires
        0 <= from,
    ensures
        match find_from(s, from, b) {
            Some(i) => from <= i < s.len() && s[i] == b && forall|j: int|
                from <= j < i ==> s[j] != b,
            None => forall|j: int| from <= j < s.len() ==> s[j] != b,
        },
    decreases s.len() - from,
{
    if 0 <= from < s.len() && s[from] != b {
        lemma_find_from(s, from + 1, b);
    }
}

/// The first position at or after `from` where `pat` occurs in `s`.
pub open spec fn first_match(s: Seq<u8>, pat: Seq<u8>, from: int) -> Option<int>
    decreases s.len() + 1 - from,
{
    if from < 0 || from + pat.len() > s.len() {
        None
    } else if s.subrange(from, from + pat.len() as int) == pat {
        Some(from)
    } else {
        first_match(s, pat, from + 1)
    }
}

/// `s` with the first occurrence of `pat`, if any, replaced by `rep`.
pub open spec fn replace_first(s: Seq<u8>, pat: Seq<u8>, rep: Seq<u8>) -> Seq<u8> {
    match first_match(s, pat, 0) {
        None => s,
        Some(i) => s.subrange(0, i) + rep + s.subrange(i + pat.len() as int, s.len() as int),
    }
}

/// ASCII case folding, executable form.
pub fn to_lower(v: &Vec<u8>) -> (r: Vec<u8>)
    ensures
        r@ == lower(v@),
{
    let mut r: Vec<u8> = Vec::new();
    let mut i: usize = 0;
    while i < v.len()
        invariant
            i <= v@.len(),
            r@.len() == i,
            forall|k: int| 0 <= k < i ==> r@[k] == lower_byte(v@[k]),
        decreases v@.len() - i,
    {
        let b = v[i];
        if 65 <= b && b <= 90 {
            r.push(b + 32);
        } else {
            r.push(b);
        }
        i = i + 1;
    }
    proof {
        assert(r@ =~= lower(v@));
    }
    r
}

/// Byte-string equality.
pub fn bytes_eq(a: &Vec<u8>, b: &Vec<u8>) -> (r: bool)
    ensures
        r == (a@ == b@),
{
    if a.len() != b.len() {
        return false;
    }
    let mut i: usize = 0;
    while i < a.len()
        invariant
            a@.len() == b@.len(),
            i <= a@.len(),
            forall|k: int| 0 <= k < i ==> a@[k] == b@[k],
        decreases a@.len() - i,
    {
        if a[i] != b[i] {
            return false;
        }
        i = i + 1;
    }
    proof {
        assert(a@ =~= b@);
    }
    true
}

/// Whether `pat` stands at position `i` of `hay`.
fn match_at(hay: &Vec<u8>, pat: &Vec<u8>, i: usize) -> (r: bool)
    requires
        i + pat@.len() <= hay@.len(),
    ensures
        r == (hay@.subrange(i as int, i as int + pat@.len() as int) == pat@),
{
    let ghost sub = hay@.subrange(i as int, i as int + pat@.len() as int);
    let hn = hay.len();
    let mut j: usize = 0;
    while j < pat.len()
        invariant
            hn == hay@.len(),
            i + pat@.len() <= hay@.len(),
            j <= pat@.len(),
            sub == hay@.subrange(i as int, i as int + pat@.len() as int),
            forall|k: int| 0 <= k < j ==> hay@[i + k] == pat@[k],
        decreases pat@.len() - j,
    {
        if hay[i + j] != pat[j] {
            proof {
                assert(sub[j as int] != pat@[j as int]);
            }
            return false;
        }
        j = j + 1;
    }
    proof {
        assert(sub =~= pat@);
    }
    true
}

/// Substring search, executable form.
pub fn contains_sub(hay: &Vec<u8>, pat: &Vec<u8>) -> (r: bool)
    ensures
        r == is_sub(hay@, pat@),
{
    if pat.len() > hay.len() {
        return false;
    }
    if pat.len() == 0 {
        proof {
            assert(hay@.subrange(0, 0 + pat@.len() as int) =~= pat@);
        }
        return true;
    }
    let bound = hay.len() - pat.len();
    let mut i: usize = 0;
    while i <= bound
        invariant
            1 <= pat@.len() <= hay@.len(),
            hay@.len() <= usize::MAX,
            bound == hay@.len() - pat@.len(),
            i <= bound + 1,
            forall|k: int|
                0 <= k < i ==> #[trigger] hay@.subrange(k, k + pat@.len() as int) != pat@,
        decreases bound + 1 - i,
    {
        if match_at(hay, pat, i) {
            return true;
        }
        i = i + 1;
    }
    false
}

/// Prefix test, executable form.
pub fn starts_with(s: &Vec<u8>, p: &Vec<u8>) -> (r: bool)
    ensures
        r == has_prefix(s@, p@),
{
    if p.len() > s.len() {
        return false;
    }
    match_at(s, p, 0)
}

/// The bytes of `v` from `a` (inclusive) to `b` (exclusive).
pub fn copy_range(v: &Vec<u8>, a: usize, b: usize) -> (r: Vec<u8>)
    requires
        a <= b <= v@.len(),
    ensures
        r@ == v@.subrange(a as int, b as int),
{
    let mut r: Vec<u8> = Vec::new();
    let mut i: usize = a;
    while i < b
        invariant
            a <= i <= b <= v@.len(),
            r@.len() == i - a,
            forall|k: int| 0 <= k < r@.len() ==> r@[k] == v@[a + k],
        decreases b - i,
    {
        r.push(v[i]);
        i = i + 1;
    }
    proof {
        assert(r@ =~= v@.subrange(a as int, b as int));
    }
    r
}

/// Appends all of `src` to `dst`.
pub fn push_all(dst: &mut Vec<u8>, src: &Vec<u8>)
    ensures
        final(dst)@ == old(dst)@ + src@,
{
    let mut i: usize = 0;
    while i < src.len()
        invariant
            i <= src@.len(),
            dst@ == old(dst)@ + src@.subrange(0, i as int),
        decreases src@.len() - i,
    {
        dst.push(src[i]);
        proof {
            assert(dst@ =~= old(dst)@ + src@.subrange(0, i + 1 as int));
        }
        i = i + 1;
    }
    proof {
        assert(src@.subrange(0, src@.len() as int) =~= src@);
    }
}

/// The first position at or after `from` holding `b`, executable form.
pub fn find_byte(v: &Vec<u8>, from: usize, b: u8) -> (r: Option<usize>)
    ensures
        match r {
            Some(i) => Some(i as int) == find_from(v@, from as int, b),
            None => find_from(v@, from as int, b) is None,
        },
{
    let mut i: usize = from;
    while i < v.len()
        invariant
            from <= i,
            find_from(v@, from as int, b) == find_from(v@, i as int, b),
        decreases v@.len() - i,
    {
        if v[i] == b {
            return Some(i);
        }
        i = i + 1;
    }
    None
}

/// `s` with the first occurrence of `pat` replaced by `rep`, executable form.
pub fn replace_first_bytes(s: &Vec<u8>, pat: &Vec<u8>, rep: &Vec<u8>) -> (r: Vec<u8>)
    ensures
        r@ == replace_first(s@, pat@, rep@),
{
    if pat.len() > s.len() {
        let mut r: Vec<u8> = Vec::new();
        push_all(&mut r, s);
        proof {
            assert(r@ =~= s@);
        }
        return r;
    }
    if pat.len() == 0 {
        let mut r: Vec<u8> = Vec::new();
        push_all(&mut r, rep);
        push_all(&mut r, s);
        proof {
            assert(s@.subrange(0, 0) =~= pat@);
            assert(r@ =~= replace_first(s@, pat@, rep@));
        }
        return r;
    }
    let bound = s.len() - pat.len();
    let mut i: usize = 0;
    while i <= bound
        invariant
            1 <= pat@.len() <= s@.len(),
            s@.len() <= usize::MAX,
            bound == s@.len() - pat@.len(),
            i <= bound + 1,
            first_match(s@, pat@, 0) == first_match(s@, pat@, i as int),
        decreases bound + 1 - i,
    {
        if match_at(s, pat, i) {
            let mut r = copy_range(s, 0, i);
            push_all(&mut r, rep);
            let tail = copy_range(s, i + pat.len(), s.len());
            push_all(&mut r, &tail);
            return r;
        }
        i = i + 1;
    }
    let mut r: Vec<u8> = Vec::new();
    push_all(&mut r, s);
    proof {
        assert(r@ =~= s@);
    }
    r
}

} // verus!
