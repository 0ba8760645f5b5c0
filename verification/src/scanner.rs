//! Signature scanning and RIP-relative symbol resolution.
//!
//! The host's game-load routine is located by its 12-byte prologue pattern.
//! A `mov` instruction at a fixed offset inside the match carries a 32-bit
//! RIP-relative displacement; adding the sign-extended displacement to the
//! address of the following instruction yields the absolute address of the
//! static data symbol the routine reads.

use vstd::prelude::*;

verus! {

/// Truncation of a mathematical integer to a 64-bit machine address.
pub open spec fn wrap64(x: int) -> u64 {
    (x % 0x1_0000_0000_0000_0000) as u64
}

/// The signed value encoded by a 32-bit displacement field.
pub open spec fn sext32(d: u32) -> int {
    if d < 0x8000_0000 {
        d as int
    } else {
        d as int - 0x1_0000_0000
    }
}

/// The little-endian 32-bit value stored at byte offset `i`.
pub open spec fn le32_at(b: Seq<u8>, i: int) -> u32
    recommends
        0 <= i,
        i + 4 <= b.len(),
{
    (b[i] + b[i + 1] * 0x100 + b[i + 2] * 0x1_0000 + b[i + 3] * 0x100_0000) as u32
}

/// The pattern occurs in `text` at offset `i`.
pub open spec fn matches_at(text: Seq<u8>, pat: Seq<u8>, i: int) -> bool {
    &&& 0 <= i
    &&& i + pat.len() <= text.len()
    &&& forall|k: int| 0 <= k < pat.len() ==> text[i + k] == pat[k]
}

/// `i` is the offset of the first occurrence of the pattern in `text`.
pub open spec fn is_first_match(text: Seq<u8>, pat: Seq<u8>, i: int) -> bool {
    &&& matches_at(text, pat, i)
    &&& forall|j: int| 0 <= j < i ==> !matches_at(text, pat, j)
}

/// Offset of the first window of `text` equal to `pat`, scanning forward.
pub fn find_pattern(text: &Vec<u8>, pat: &Vec<u8>) -> (r: Option<usize>)
    requires
        pat@.len() >= 1,
    ensures
        match r {
            Some(i) => is_first_match(text@, pat@, i as int),
            None => forall|j: int| !matches_at(text@, pat@, j),
        },
{
    let n: usize = text.len();
    let m: usize = pat.len();
    if n < m {
        return None;
    }
    let last: usize = n - m;
    let mut i: usize = 0;
    while i <= last
        invariant
            n == text@.len(),
            m == pat@.len(),
            1 <= m <= n,
            last == n - m,
            i <= last + 1,
            forall|j: int| 0 <= j < i ==> !matches_at(text@, pat@, j),
        decreases last + 1 - i,
    {
        let mut k: usize = 0;
        let mut hit = true;
        while k < m
            invariant
                n == text@.len(),
                m == pat@.len(),
                i + m <= n,
                k <= m,
                hit <==> forall|w: int| 0 <= w < k ==> text@[i + w] == pat@[w],
            decreases m - k,
        {
            if text[i + k] != pat[k] {
                hit = false;
                k = m;
            } else {
                k = k + 1;
            }
        }
        if hit {
            return Some(i);
        }
        i = i + 1;
    }
    assert forall|j: int| !matches_at(text@, pat@, j) by {
        assert(forall|j: int| j > last ==> !matches_at(text@, pat@, j));
    }
    None
}

/// The little-endian 32-bit value at offset `off`.
pub fn read_u32_le(b: &Vec<u8>, off: usize) -> (r: u32)
    requires
        off + 4 <= b@.len(),
    ensures
        r == le32_at(b@, off as int),
{
    let n = b.len();
    (b[off] as u32) + (b[off + 1] as u32) * 0x100 + (b[off + 2] as u32) * 0x1_0000 + (b[off + 3]
        as u32) * 0x100_0000
}

/// A machine address `off` bytes past `base`.
pub fn wrapping_offset(base: u64, off: u64) -> (r: u64)
    ensures
        r == wrap64(base + off),
{
    let total: u128 = base as u128 + off as u128;
    let r: u64 = (total % 0x1_0000_0000_0000_0000u128) as u64;
    proof {
        let m: int = 0x1_0000_0000_0000_0000;
        vstd::arithmetic::div_mod::lemma_mod_bound(base + off, m);
    }
    r
}

/// Absolute address referenced by the RIP-relative `mov` inside a pattern
/// match: the match lies at `base + hit`, the instruction's displacement
/// field holds `disp`, and the following instruction begins `0x1f` bytes
/// into the match.
pub fn resolve_rip(base: u64, hit: usize, disp: u32) -> (r: u64)
    ensures
        r == wrap64(base + hit + 0x1f + sext32(disp)),
{
    let adj: u64 = if disp < 0x8000_0000 {
        disp as u64
    } else {
        (disp as u64) + 0xffff_ffff_0000_0000u64
    };
    let total: u128 = base as u128 + hit as u128 + 0x1f + adj as u128;
    let r: u64 = (total % 0x1_0000_0000_0000_0000u128) as u64;
    proof {
        let m: int = 0x1_0000_0000_0000_0000;
        let x: int = base + hit + 0x1f + sext32(disp);
        if disp >= 0x8000_0000 {
            assert(total == m + x);
            vstd::arithmetic::div_mod::lemma_mod_multiples_vanish(1, x, m);
        }
        vstd::arithmetic::div_mod::lemma_mod_bound(x, m);
    }
    r
}

} // verus!
