//! Byte-level primitives for the fixed wire layouts: little-endian and
//! big-endian integer fields, and NUL-terminated strings inside fixed
//! windows.  Every reader has a spec-level counterpart, and every writer
//! is proved to invert the corresponding reader.

use vstd::assert_seqs_equal;
use vstd::prelude::*;

verus! {

/// The little-endian `u16` stored at offset `i` of `s`.
pub open spec fn le_u16_at(s: Seq<u8>, i: int) -> u16
    recommends
        0 <= i,
        i + 2 <= s.len(),
{
    (s[i] as u16) | (s[i + 1] as u16) << 8
}

/// The little-endian `u32` stored at offset `i` of `s`.
pub open spec fn le_u32_at(s: Seq<u8>, i: int) -> u32
    recommends
        0 <= i,
        i + 4 <= s.len(),
{
    (s[i] as u32) | (s[i + 1] as u32) << 8 | (s[i + 2] as u32) << 16 | (s[i + 3] as u32) << 24
}

/// The big-endian (network order) `u32` stored at offset `i` of `s`.
pub open spec fn be_u32_at(s: Seq<u8>, i: int) -> u32
    recommends
        0 <= i,
        i + 4 <= s.len(),
{
    (s[i] as u32) << 24 | (s[i + 1] as u32) << 16 | (s[i + 2] as u32) << 8 | (s[i + 3] as u32)
}

/// The little-endian `u64` stored at offset `i` of `s`.
pub open spec fn le_u64_at(s: Seq<u8>, i: int) -> u64
    recommends
        0 <= i,
        i + 8 <= s.len(),
{
    (s[i] as u64) | (s[i + 1] as u64) << 8 | (s[i + 2] as u64) << 16 | (s[i + 3] as u64) << 24
        | (s[i + 4] as u64) << 32 | (s[i + 5] as u64) << 40 | (s[i + 6] as u64) << 48
        | (s[i + 7] as u64) << 56
}

pub fn read_le_u16(s: &[u8], i: usize) -> (r: u16)
    requires
        i + 2 <= s@.len(),
    ensures
        r == le_u16_at(s@, i as int),
{
    (s[i] as u16) | (s[i + 1] as u16) << 8u16
}

pub fn read_le_u32(s: &[u8], i: usize) -> (r: u32)
    requires
        i + 4 <= s@.len(),
    ensures
        r == le_u32_at(s@, i as int),
{
    (s[i] as u32) | (s[i + 1] as u32) << 8u32 | (s[i + 2] as u32) << 16u32
        | (s[i + 3] as u32) << 24u32
}

pub fn read_be_u32(s: &[u8], i: usize) -> (r: u32)
    requires
        i + 4 <= s@.len(),
    ensures
        r == be_u32_at(s@, i as int),
{
    (s[i] as u32) << 24u32 | (s[i + 1] as u32) << 16u32 | (s[i + 2] as u32) << 8u32
        | (s[i + 3] as u32)
}

pub fn read_le_u64(s: &[u8], i: usize) -> (r: u64)
    requires
        i + 8 <= s@.len(),
    ensures
        r == le_u64_at(s@, i as int),
{
    (s[i] as u64) | (s[i + 1] as u64) << 8u64 | (s[i + 2] as u64) << 16u64
        | (s[i + 3] as u64) << 24u64 | (s[i + 4] as u64) << 32u64 | (s[i + 5] as u64) << 40u64
        | (s[i + 6] as u64) << 48u64 | (s[i + 7] as u64) << 56u64
}

/// Append `x` in little-endian order.
pub fn push_le_u16(v: &mut Vec<u8>, x: u16)
    ensures
        final(v)@.len() == old(v)@.len() + 2,
        final(v)@ == old(v)@ + le_u16_bytes(x),
{
    v.push((x & 0xff) as u8);
    v.push(((x >> 8u16) & 0xff) as u8);
    proof {
        assert_seqs_equal!(v@ == old(v)@ + le_u16_bytes(x));
    }
}

/// Append `x` in little-endian order.
pub fn push_le_u32(v: &mut Vec<u8>, x: u32)
    ensures
        final(v)@.len() == old(v)@.len() + 4,
        final(v)@ == old(v)@ + le_u32_bytes(x),
{
    v.push((x & 0xff) as u8);
    v.push(((x >> 8u32) & 0xff) as u8);
    v.push(((x >> 16u32) & 0xff) as u8);
    v.push(((x >> 24u32) & 0xff) as u8);
    proof {
        assert_seqs_equal!(v@ == old(v)@ + le_u32_bytes(x));
    }
}

/// Append `x` in big-endian (network) order.
pub fn push_be_u32(v: &mut Vec<u8>, x: u32)
    ensures
        final(v)@.len() == old(v)@.len() + 4,
        final(v)@ == old(v)@ + be_u32_bytes(x),
{
    v.push(((x >> 24u32) & 0xff) as u8);
    v.push(((x >> 16u32) & 0xff) as u8);
    v.push(((x >> 8u32) & 0xff) as u8);
    v.push((x & 0xff) as u8);
    proof {
        assert_seqs_equal!(v@ == old(v)@ + be_u32_bytes(x));
    }
}

/// Append `x` in little-endian order.
pub fn push_le_u64(v: &mut Vec<u8>, x: u64)
    ensures
        final(v)@.len() == old(v)@.len() + 8,
        final(v)@ == old(v)@ + le_u64_bytes(x),
{
    v.push((x & 0xff) as u8);
    v.push(((x >> 8u64) & 0xff) as u8);
    v.push(((x >> 16u64) & 0xff) as u8);
    v.push(((x >> 24u64) & 0xff) as u8);
    v.push(((x >> 32u64) & 0xff) as u8);
    v.push(((x >> 40u64) & 0xff) as u8);
    v.push(((x >> 48u64) & 0xff) as u8);
    v.push(((x >> 56u64) & 0xff) as u8);
    proof {
        assert_seqs_equal!(v@ == old(v)@ + le_u64_bytes(x));
    }
}

/// The little-endian encoding of `x`.
pub open spec fn le_u16_bytes(x: u16) -> Seq<u8> {
    seq![(x & 0xff) as u8, ((x >> 8u16) & 0xff) as u8]
}

/// The little-endian encoding of `x`.
pub open spec fn le_u32_bytes(x: u32) -> Seq<u8> {
    seq![
        (x & 0xff) as u8,
        ((x >> 8u32) & 0xff) as u8,
        ((x >> 16u32) & 0xff) as u8,
        ((x >> 24u32) & 0xff) as u8,
    ]
}

/// The big-endian encoding of `x`.
pub open spec fn be_u32_bytes(x: u32) -> Seq<u8> {
    seq![
        ((x >> 24u32) & 0xff) as u8,
        ((x >> 16u32) & 0xff) as u8,
        ((x >> 8u32) & 0xff) as u8,
        (x & 0xff) as u8,
    ]
}

/// The little-endian encoding of `x`.
pub open spec fn le_u64_bytes(x: u64) -> Seq<u8> {
    seq![
        (x & 0xff) as u8,
        ((x >> 8u64) & 0xff) as u8,
        ((x >> 16u64) & 0xff) as u8,
        ((x >> 24u64) & 0xff) as u8,
        ((x >> 32u64) & 0xff) as u8,
        ((x >> 40u64) & 0xff) as u8,
        ((x >> 48u64) & 0xff) as u8,
        ((x >> 56u64) & 0xff) as u8,
    ]
}

/// Reading the bytes written by `le_u16_bytes` gives back `x`.
pub proof fn lemma_le_u16_roundtrip(s: Seq<u8>, i: int, x: u16)
    requires
        0 <= i,
        i + 2 <= s.len(),
        s.subrange(i, i + 2) == le_u16_bytes(x),
    ensures
        le_u16_at(s, i) == x,
{
    assert(s[i] == le_u16_bytes(x)[0] && s[i + 1] == le_u16_bytes(x)[1]) by {
        assert(s.subrange(i, i + 2)[0] == s[i]);
        assert(s.subrange(i, i + 2)[1] == s[i + 1]);
    }
    let b0 = (x & 0xff) as u8;
    let b1 = ((x >> 8u16) & 0xff) as u8;
    assert((b0 as u16) | (b1 as u16) << 8 == x) by (bit_vector)
        requires
            b0 == (x & 0xff) as u8 && b1 == ((x >> 8u16) & 0xff) as u8,
    ;
}

/// Reading the bytes written by `le_u32_bytes` gives back `x`.
pub proof fn lemma_le_u32_roundtrip(s: Seq<u8>, i: int, x: u32)
    requires
        0 <= i,
        i + 4 <= s.len(),
        s.subrange(i, i + 4) == le_u32_bytes(x),
    ensures
        le_u32_at(s, i) == x,
{
    assert(s[i] == le_u32_bytes(x)[0] && s[i + 1] == le_u32_bytes(x)[1] && s[i + 2]
        == le_u32_bytes(x)[2] && s[i + 3] == le_u32_bytes(x)[3]) by {
        assert(s.subrange(i, i + 4)[0] == s[i]);
        assert(s.subrange(i, i + 4)[1] == s[i + 1]);
        assert(s.subrange(i, i + 4)[2] == s[i + 2]);
        assert(s.subrange(i, i + 4)[3] == s[i + 3]);
    }
    let b0 = (x & 0xff) as u8;
    let b1 = ((x >> 8u32) & 0xff) as u8;
    let b2 = ((x >> 16u32) & 0xff) as u8;
    let b3 = ((x >> 24u32) & 0xff) as u8;
    assert((b0 as u32) | (b1 as u32) << 8 | (b2 as u32) << 16 | (b3 as u32) << 24 == x)
        by (bit_vector)
        requires
            b0 == (x & 0xff) as u8 && b1 == ((x >> 8u32) & 0xff) as u8 && b2 == ((x >> 16u32)
                & 0xff) as u8 && b3 == ((x >> 24u32) & 0xff) as u8,
    ;
}

/// Reading the bytes written by `be_u32_bytes` gives back `x`.
pub proof fn lemma_be_u32_roundtrip(s: Seq<u8>, i: int, x: u32)
    requires
        0 <= i,
        i + 4 <= s.len(),
        s.subrange(i, i + 4) == be_u32_bytes(x),
    ensures
        be_u32_at(s, i) == x,
{
    assert(s[i] == be_u32_bytes(x)[0] && s[i + 1] == be_u32_bytes(x)[1] && s[i + 2]
        == be_u32_bytes(x)[2] && s[i + 3] == be_u32_bytes(x)[3]) by {
        assert(s.subrange(i, i + 4)[0] == s[i]);
        assert(s.subrange(i, i + 4)[1] == s[i + 1]);
        assert(s.subrange(i, i + 4)[2] == s[i + 2]);
        assert(s.subrange(i, i + 4)[3] == s[i + 3]);
    }
    let b0 = ((x >> 24u32) & 0xff) as u8;
    let b1 = ((x >> 16u32) & 0xff) as u8;
    let b2 = ((x >> 8u32) & 0xff) as u8;
    let b3 = (x & 0xff) as u8;
    assert((b0 as u32) << 24 | (b1 as u32) << 16 | (b2 as u32) << 8 | (b3 as u32) == x)
        by (bit_vector)
        requires
            b0 == ((x >> 24u32) & 0xff) as u8 && b1 == ((x >> 16u32) & 0xff) as u8 && b2 == ((x
                >> 8u32) & 0xff) as u8 && b3 == (x & 0xff) as u8,
    ;
}

/// Reading the bytes written by `le_u64_bytes` gives back `x`.
pub proof fn lemma_le_u64_roundtrip(s: Seq<u8>, i: int, x: u64)
    requires
        0 <= i,
        i + 8 <= s.len(),
        s.subrange(i, i + 8) == le_u64_bytes(x),
    ensures
        le_u64_at(s, i) == x,
{
    assert(s[i] == le_u64_bytes(x)[0] && s[i + 1] == le_u64_bytes(x)[1] && s[i + 2]
        == le_u64_bytes(x)[2] && s[i + 3] == le_u64_bytes(x)[3] && s[i + 4] == le_u64_bytes(x)[4]
        && s[i + 5] == le_u64_bytes(x)[5] && s[i + 6] == le_u64_bytes(x)[6] && s[i + 7]
        == le_u64_bytes(x)[7]) by {
        assert(s.subrange(i, i + 8)[0] == s[i]);
        assert(s.subrange(i, i + 8)[1] == s[i + 1]);
        assert(s.subrange(i, i + 8)[2] == s[i + 2]);
        assert(s.subrange(i, i + 8)[3] == s[i + 3]);
        assert(s.subrange(i, i + 8)[4] == s[i + 4]);
        assert(s.subrange(i, i + 8)[5] == s[i + 5]);
        assert(s.subrange(i, i + 8)[6] == s[i + 6]);
        assert(s.subrange(i, i + 8)[7] == s[i + 7]);
    }
    let b0 = (x & 0xff) as u8;
    let b1 = ((x >> 8u64) & 0xff) as u8;
    let b2 = ((x >> 16u64) & 0xff) as u8;
    let b3 = ((x >> 24u64) & 0xff) as u8;
    let b4 = ((x >> 32u64) & 0xff) as u8;
    let b5 = ((x >> 40u64) & 0xff) as u8;
    let b6 = ((x >> 48u64) & 0xff) as u8;
    let b7 = ((x >> 56u64) & 0xff) as u8;
    assert((b0 as u64) | (b1 as u64) << 8 | (b2 as u64) << 16 | (b3 as u64) << 24 | (b4 as u64)
        << 32 | (b5 as u64) << 40 | (b6 as u64) << 48 | (b7 as u64) << 56 == x) by (bit_vector)
        requires
            b0 == (x & 0xff) as u8 && b1 == ((x >> 8u64) & 0xff) as u8 && b2 == ((x >> 16u64)
                & 0xff) as u8 && b3 == ((x >> 24u64) & 0xff) as u8 && b4 == ((x >> 32u64)
                & 0xff) as u8 && b5 == ((x >> 40u64) & 0xff) as u8 && b6 == ((x >> 48u64)
                & 0xff) as u8 && b7 == ((x >> 56u64) & 0xff) as u8,
    ;
}

/// The index of the first zero byte of `s`, or `s.len()` when `s` holds none.
pub open spec fn nul_pos(s: Seq<u8>) -> int
    decreases s.len(),
{
    if s.len() == 0 {
        0
    } else if s[0] == 0 {
        0
    } else {
        1 + nul_pos(s.skip(1))
    }
}

/// The prefix of `s` before its first zero byte: how a NUL-terminated
/// string field reads out of its fixed window.
pub open spec fn take_to_nul(s: Seq<u8>) -> Seq<u8> {
    s.take(nul_pos(s))
}

/// `nul_pos` points at the first zero byte, or past the end when there is none.
pub proof fn lemma_nul_pos(s: Seq<u8>)
    ensures
        0 <= nul_pos(s) <= s.len(),
        forall|j: int| 0 <= j < nul_pos(s) ==> s[j] != 0,
        nul_pos(s) < s.len() ==> s[nul_pos(s)] == 0,
    decreases s.len(),
{
    if s.len() == 0 || s[0] == 0 {
    } else {
        lemma_nul_pos(s.skip(1));
        assert forall|j: int| 0 <= j < nul_pos(s) implies s[j] != 0 by {
            if j > 0 {
                assert(s.skip(1)[j - 1] != 0);
            }
        }
        if nul_pos(s) < s.len() {
            assert(s.skip(1)[nul_pos(s) - 1] == 0);
        }
    }
}

/// Any position with the first-zero property is `nul_pos`.
pub proof fn lemma_nul_pos_unique(s: Seq<u8>, p: int)
    requires
        0 <= p <= s.len(),
        forall|j: int| 0 <= j < p ==> s[j] != 0,
        p < s.len() ==> s[p] == 0,
    ensures
        nul_pos(s) == p,
{
    lemma_nul_pos(s);
    if nul_pos(s) < p {
        assert(s[nul_pos(s)] != 0);
    }
    if p < nul_pos(s) {
        assert(s[p] != 0);
    }
}

/// A window with no zero byte reads out whole.
pub proof fn lemma_take_to_nul_no_nul(s: Seq<u8>)
    requires
        forall|j: int| 0 <= j < s.len() ==> s[j] != 0,
    ensures
        take_to_nul(s) == s,
{
    lemma_nul_pos_unique(s, s.len() as int);
    assert_seqs_equal!(take_to_nul(s) == s);
}

/// A zero-padded string reads back out of its window unchanged, provided
/// it holds no zero byte of its own.
pub proof fn lemma_take_to_nul_padded(b: Seq<u8>, w: int)
    requires
        b.len() <= w,
        forall|j: int| 0 <= j < b.len() ==> b[j] != 0,
    ensures
        take_to_nul(b + zeroes(w - b.len())) == b,
{
    let s = b + zeroes(w - b.len());
    assert(forall|j: int| 0 <= j < b.len() ==> s[j] == b[j]);
    if b.len() < w {
        assert(s[b.len() as int] == zeroes(w - b.len())[0]);
    }
    lemma_nul_pos_unique(s, b.len() as int);
    assert_seqs_equal!(take_to_nul(s) == b);
}

/// `n` zero bytes.
pub open spec fn zeroes(n: int) -> Seq<u8> {
    Seq::new(n as nat, |j: int| 0u8)
}

/// Copy the window `s[i .. i + w]` up to (and excluding) its first zero
/// byte: the decoded value of a NUL-terminated string field.
pub fn read_cstr(s: &[u8], i: usize, w: usize) -> (r: Vec<u8>)
    requires
        i + w <= s@.len(),
    ensures
        r@ == take_to_nul(s@.subrange(i as int, i + w)),
        r@.len() <= w,
        forall|j: int| 0 <= j < r@.len() ==> r@[j] != 0,
{
    let window_ghost = Ghost(s@.subrange(i as int, i + w));
    let slen: usize = s.len();
    let mut r: Vec<u8> = Vec::new();
    let mut j: usize = 0;
    while j < w
        invariant
            i + w <= s@.len(),
            s@.len() == slen,
            0 <= j <= w,
            window_ghost@ == s@.subrange(i as int, i + w),
            r@ == window_ghost@.take(j as int),
            forall|k: int| 0 <= k < j ==> window_ghost@[k] != 0,
        decreases w - j,
    {
        let b = s[i + j];
        assert(b == window_ghost@[j as int]);
        if b == 0 {
            proof {
                lemma_nul_pos_unique(window_ghost@, j as int);
            }
            return r;
        }
        r.push(b);
        proof {
            assert_seqs_equal!(r@ == window_ghost@.take(j + 1));
        }
        j = j + 1;
    }
    proof {
        lemma_nul_pos_unique(window_ghost@, w as int);
        assert(r@ == window_ghost@.take(w as int));
        assert_seqs_equal!(window_ghost@.take(w as int) == window_ghost@);
    }
    r
}

/// Append `b` and then zero padding out to a window of `w` bytes.
pub fn push_padded(v: &mut Vec<u8>, b: &Vec<u8>, w: usize)
    requires
        b@.len() <= w,
    ensures
        final(v)@ == old(v)@ + b@ + zeroes(w - b@.len()),
        final(v)@.len() == old(v)@.len() + w,
{
    let n = b.len();
    let mut j: usize = 0;
    while j < n
        invariant
            n == b@.len() <= w,
            0 <= j <= n,
            v@ == old(v)@ + b@.take(j as int),
        decreases n - j,
    {
        v.push(b[j]);
        proof {
            assert_seqs_equal!(v@ == old(v)@ + b@.take(j + 1));
        }
        j = j + 1;
    }
    proof {
        assert_seqs_equal!(b@.take(n as int) == b@);
    }
    while j < w
        invariant
            n == b@.len() <= w,
            n <= j <= w,
            v@ == old(v)@ + b@ + zeroes(j - n),
        decreases w - j,
    {
        v.push(0);
        proof {
            assert_seqs_equal!(v@ == old(v)@ + b@ + zeroes(j + 1 - n));
        }
        j = j + 1;
    }
}

} // verus!
