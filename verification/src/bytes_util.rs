//! Small verified helpers on byte strings.
//!
//! All textual data in this crate is carried as bytes, so the parsing and
//! formatting primitives below are shared by the resolver, the engine
//! metadata construction and the environment-variable derivation.

use vstd::prelude::*;

verus! {

/// Compares two byte slices for equality.
pub fn bytes_eq(a: &[u8], b: &[u8]) -> (r: bool)
    ensures
        r == (a@ == b@),
{
    if a.len() != b.len() {
        assert(a@ != b@) by {
            assert(a@.len() != b@.len());
        }
        return false;
    }
    let n = a.len();
    let mut i: usize = 0;
    while i < n
        invariant
            n == a.len() == b.len(),
            i <= n,
            forall|j: int| 0 <= j < i ==> a@[j] == b@[j],
        decreases n - i,
    {
        if a[i] != b[i] {
            return false;
        }
        i += 1;
    }
    assert(a@ =~= b@);
    true
}

/// True when `a` ends with `suffix`.
pub fn ends_with(a: &[u8], suffix: &[u8]) -> (r: bool)
    ensures
        r == (suffix@.len() <= a@.len() && a@.subrange(
            a@.len() - suffix@.len(),
            a@.len() as int,
        ) == suffix@),
{
    if suffix.len() > a.len() {
        return false;
    }
    let n = suffix.len();
    let off = a.len() - n;
    let mut i: usize = 0;
    while i < n
        invariant
            n == suffix.len() <= a.len(),
            off == a.len() - n,
            i <= n,
            forall|j: int| 0 <= j < i ==> a@[off + j] == suffix@[j],
        decreases n - i,
    {
        if a[off + i] != suffix[i] {
            assert(a@.subrange(a@.len() - n, a@.len() as int)[i as int] != suffix@[i as int]);
            return false;
        }
        i += 1;
    }
    assert(a@.subrange(a@.len() - n, a@.len() as int) =~= suffix@);
    true
}

/// First index of `b` in `a`, if any.
pub fn find_byte(a: &[u8], b: u8) -> (r: Option<usize>)
    ensures
        match r {
            Some(i) => i < a@.len() && a@[i as int] == b && forall|j: int|
                0 <= j < i ==> a@[j] != b,
            None => forall|j: int| 0 <= j < a@.len() ==> a@[j] != b,
        },
{
    let n = a.len();
    let mut i: usize = 0;
    while i < n
        invariant
            n == a.len(),
            i <= n,
            forall|j: int| 0 <= j < i ==> a@[j] != b,
        decreases n - i,
    {
        if a[i] == b {
            return Some(i);
        }
        i += 1;
    }
    None
}

/// True when `a` contains the byte `b`.
pub fn contains_byte(a: &[u8], b: u8) -> (r: bool)
    ensures
        r == a@.contains(b),
{
    let found = find_byte(a, b);
    match found {
        Some(i) => {
            assert(a@[i as int] == b);
            true
        },
        None => {
            assert(!a@.contains(b)) by {
                assert(forall|j: int| 0 <= j < a@.len() ==> a@[j] != b);
            }
            false
        },
    }
}

/// `needle` occurs in `haystack` at offset `i`.
pub open spec fn matches_at(haystack: Seq<u8>, needle: Seq<u8>, i: int) -> bool {
    0 <= i && i + needle.len() <= haystack.len() && haystack.subrange(i, i + needle.len())
        == needle
}

/// First offset at which `needle` occurs in `haystack`, if any.
pub fn find_subslice(haystack: &[u8], needle: &[u8]) -> (r: Option<usize>)
    requires
        needle@.len() > 0,
    ensures
        match r {
            Some(i) => matches_at(haystack@, needle@, i as int) && forall|j: int|
                0 <= j < i ==> !matches_at(haystack@, needle@, j),
            None => forall|j: int| !matches_at(haystack@, needle@, j),
        },
{
    if needle.len() > haystack.len() {
        return None;
    }
    let last = haystack.len() - needle.len();
    let mut i: usize = 0;
    while i <= last
        invariant
            needle@.len() > 0,
            needle@.len() <= haystack@.len(),
            last == haystack@.len() - needle@.len(),
            i <= last + 1,
            forall|j: int| 0 <= j < i ==> !matches_at(haystack@, needle@, j),
        decreases last - i,
    {
        if subslice_eq_at(haystack, needle, i) {
            return Some(i);
        }
        if i == last {
            return None;
        }
        i += 1;
    }
    None
}

/// Compares `needle` against `haystack` at offset `i`.
fn subslice_eq_at(haystack: &[u8], needle: &[u8], i: usize) -> (r: bool)
    requires
        i + needle@.len() <= haystack@.len(),
    ensures
        r == matches_at(haystack@, needle@, i as int),
{
    let n = needle.len();
    let hlen = haystack.len();
    let mut k: usize = 0;
    while k < n
        invariant
            n == needle@.len(),
            hlen == haystack@.len(),
            i + n <= hlen,
            k <= n,
            forall|j: int| 0 <= j < k ==> haystack@[i + j] == needle@[j],
        decreases n - k,
    {
        if haystack[i + k] != needle[k] {
            proof {
                if matches_at(haystack@, needle@, i as int) {
                    assert(haystack@.subrange(i as int, i + n)[k as int] == needle@[k as int]);
                }
            }
            return false;
        }
        k += 1;
    }
    assert(haystack@.subrange(i as int, i + n) =~= needle@);
    true
}

/// Decimal digits of `n`, most significant first.
pub open spec fn dec_digits(n: nat) -> Seq<u8>
    decreases n,
{
    if n < 10 {
        seq![(48 + n) as u8]
    } else {
        dec_digits(n / 10).push((48 + n % 10) as u8)
    }
}

/// Renders `n` in decimal.
pub fn u64_to_dec(n: u64) -> (r: Vec<u8>)
    ensures
        r@ == dec_digits(n as nat),
    decreases n,
{
    if n < 10 {
        let mut v: Vec<u8> = Vec::new();
        v.push(48 + n as u8);
        assert(v@ =~= dec_digits(n as nat));
        v
    } else {
        let mut v = u64_to_dec(n / 10);
        v.push(48 + (n % 10) as u8);
        v
    }
}

/// Every byte is an ASCII decimal digit and there is at least one.
pub open spec fn is_dec_digits(s: Seq<u8>) -> bool {
    s.len() > 0 && forall|i: int| 0 <= i < s.len() ==> 48 <= #[trigger] s[i] <= 57
}

/// Numeric value of a digit string, most significant first.
pub open spec fn dec_value(s: Seq<u8>) -> nat
    decreases s.len(),
{
    if s.len() == 0 {
        0
    } else {
        dec_value(s.drop_last()) * 10 + (s.last() - 48) as nat
    }
}

proof fn lemma_dec_value_take_step(s: Seq<u8>, j: int)
    requires
        0 <= j < s.len(),
    ensures
        dec_value(s.take(j + 1)) == dec_value(s.take(j)) * 10 + (s[j] - 48) as nat,
{
    assert(s.take(j + 1).drop_last() =~= s.take(j));
    assert(s.take(j + 1).last() == s[j]);
}

proof fn lemma_dec_value_take_monotone(s: Seq<u8>, j: int)
    requires
        is_dec_digits(s),
        0 <= j <= s.len(),
    ensures
        dec_value(s) >= dec_value(s.take(j)),
    decreases s.len() - j,
{
    if j == s.len() {
        assert(s.take(j) =~= s);
    } else {
        lemma_dec_value_take_step(s, j);
        lemma_dec_value_take_monotone(s, j + 1);
    }
}

/// Parses a nonempty all-digit byte string as a `u64`.
///
/// Returns `None` when the input is empty, holds a non-digit, or its value
/// does not fit in a `u64`.
pub fn parse_u64(s: &[u8]) -> (r: Option<u64>)
    ensures
        match r {
            Some(v) => is_dec_digits(s@) && v as nat == dec_value(s@),
            None => !is_dec_digits(s@) || dec_value(s@) > u64::MAX,
        },
{
    if s.len() == 0 {
        return None;
    }
    let n = s.len();
    let mut acc: u64 = 0;
    let mut i: usize = 0;
    while i < n
        invariant
            n == s@.len(),
            0 < n,
            i <= n,
            forall|j: int| 0 <= j < i ==> 48 <= #[trigger] s@[j] <= 57,
            acc as nat == dec_value(s@.take(i as int)),
        decreases n - i,
    {
        let b = s[i];
        if b < 48 || b > 57 {
            return None;
        }
        let d = (b - 48) as u64;
        proof {
            lemma_dec_value_take_step(s@, i as int);
        }
        let shifted = match acc.checked_mul(10) {
            Some(x) => x,
            None => {
                proof {
                    assert(dec_value(s@.take(i + 1)) > u64::MAX);
                    if is_dec_digits(s@) {
                        lemma_dec_value_take_monotone(s@, i + 1);
                    }
                }
                return None;
            },
        };
        let next = match shifted.checked_add(d) {
            Some(x) => x,
            None => {
                proof {
                    assert(dec_value(s@.take(i + 1)) > u64::MAX);
                    if is_dec_digits(s@) {
                        lemma_dec_value_take_monotone(s@, i + 1);
                    }
                }
                return None;
            },
        };
        acc = next;
        i += 1;
    }
    assert(s@.take(n as int) =~= s@);
    Some(acc)
}

/// Appends all bytes of `s` to `v`.
pub fn push_all(v: &mut Vec<u8>, s: &[u8])
    ensures
        final(v)@ == old(v)@ + s@,
{
    v.extend_from_slice(s);
    assert(v@ =~= old(v)@ + s@);
}

/// Copies a byte slice into a fresh vector.
pub fn to_vec(s: &[u8]) -> (r: Vec<u8>)
    ensures
        r@ == s@,
{
    let mut v: Vec<u8> = Vec::new();
    push_all(&mut v, s);
    assert(v@ =~= s@);
    v
}

/// The deep view of a byte vector is its ordinary view.
pub broadcast proof fn lemma_bytes_deep_view(v: Vec<u8>)
    ensures
        #[trigger] v.deep_view() == v@,
{
    assert(v.deep_view() =~= v@);
}

/// Concatenation of a sequence of byte strings.
pub open spec fn concat_seqs(frames: Seq<Seq<u8>>) -> Seq<u8>
    decreases frames.len(),
{
    if frames.len() == 0 {
        Seq::empty()
    } else {
        concat_seqs(frames.drop_last()) + frames.last()
    }
}

/// Appending one more byte string extends the concatenation.
pub proof fn lemma_concat_push(frames: Seq<Seq<u8>>, b: Seq<u8>)
    ensures
        concat_seqs(frames.push(b)) == concat_seqs(frames) + b,
{
    assert(frames.push(b).drop_last() =~= frames);
    assert(frames.push(b).last() == b);
}

} // verus!
