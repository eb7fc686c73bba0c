//! Power-of-two arithmetic on sizes, as `usize::next_power_of_two`,
//! `usize::is_power_of_two` and left shifts compute it on a 64-bit target
//! (sizes are carried as `u64`).

use vstd::prelude::*;

verus! {

/// Smallest value `p * 2^k >= n` (for `p > 0`).
pub open spec fn npot_from(n: nat, p: nat) -> nat
    decreases n - p,
{
    if p == 0 || p >= n {
        p
    } else if 2 * p >= n {
        2 * p
    } else {
        npot_from(n, 2 * p)
    }
}

/// `usize::next_power_of_two`: the smallest power of two `>= n` (1 for 0);
/// 0 when it does not fit in 64 bits.
pub open spec fn spec_npot(n: nat) -> nat {
    if n > 0x8000_0000_0000_0000 {
        0
    } else {
        npot_from(n, 1)
    }
}

/// `usize::is_power_of_two`.
pub open spec fn spec_is_pow2(n: nat) -> bool {
    n > 0 && spec_npot(n) == n
}

/// `v` shifted left by `k`, keeping the low 64 bits.
pub open spec fn shl_wrap(v: nat, k: nat) -> nat
    decreases k,
{
    if k == 0 {
        v
    } else {
        (shl_wrap(v, (k - 1) as nat) * 2) % 0x1_0000_0000_0000_0000
    }
}

pub fn next_pow2(n: u64) -> (r: u64)
    ensures
        r == spec_npot(n as nat),
{
    if n > 0x8000_0000_0000_0000 {
        return 0;
    }
    let mut p: u64 = 1;
    while p < n
        invariant
            1 <= p,
            n <= 0x8000_0000_0000_0000,
            npot_from(n as nat, p as nat) == npot_from(n as nat, 1),
        decreases 0x1_0000_0000_0000_0000 - p,
    {
        p = p * 2;
    }
    p
}

pub fn is_pow2(n: u64) -> (r: bool)
    ensures
        r == spec_is_pow2(n as nat),
{
    n > 0 && next_pow2(n) == n
}

/// `v.wrapping_shl(k)` for a shift below 64.
pub fn shl_wrapping(v: u64, k: u32) -> (r: u64)
    requires
        k < 64,
    ensures
        r == shl_wrap(v as nat, k as nat),
{
    let mut r = v;
    let mut i: u32 = 0;
    while i < k
        invariant
            i <= k,
            r == shl_wrap(v as nat, i as nat),
        decreases k - i,
    {
        r = r.wrapping_mul(2);
        i += 1;
    }
    r
}

/// Half the next power of two of `n` does not exceed `n`.
pub proof fn lemma_npot_half_le(n: nat)
    ensures
        spec_npot(n) / 2 <= n,
{
    if n <= 0x8000_0000_0000_0000 {
        lemma_npot_from_half(n, 1);
    }
}

proof fn lemma_npot_from_half(n: nat, p: nat)
    requires
        p >= 1,
        p / 2 <= n,
    ensures
        npot_from(n, p) / 2 <= n,
    decreases n - p,
{
    if p >= n {
    } else if 2 * p >= n {
    } else {
        lemma_npot_from_half(n, 2 * p);
    }
}

/// `2^e`.
pub open spec fn pow2n(e: nat) -> nat
    decreases e,
{
    if e == 0 {
        1
    } else {
        2 * pow2n((e - 1) as nat)
    }
}

/// `2^e` for `e < 16`.
pub fn pow2_u16(e: u8) -> (r: u16)
    requires
        e < 16,
    ensures
        r == pow2n(e as nat),
{
    let mut r: u16 = 1;
    let mut i: u8 = 0;
    while i < e
        invariant
            i <= e < 16,
            r == pow2n(i as nat),
        decreases e - i,
    {
        proof {
            lemma_pow2n_bound((i + 1) as nat);
        }
        r = r * 2;
        i += 1;
    }
    r
}

pub proof fn lemma_pow2n_bound(e: nat)
    ensures
        e < 16 ==> pow2n(e) <= 0x8000,
        pow2n(e) >= 1,
{
    lemma_pow2n_mono(e, 15);
    lemma_pow2n_mono(0, e);
    reveal_with_fuel(pow2n, 16);
    assert(pow2n(15) == 0x8000);
}

/// `2^e` grows with `e`.
pub proof fn lemma_pow2n_mono(e1: nat, e2: nat)
    ensures
        e1 <= e2 ==> pow2n(e1) <= pow2n(e2),
    decreases e2,
{
    if e1 < e2 {
        lemma_pow2n_mono(e1, (e2 - 1) as nat);
        lemma_pow2n_mono(0, (e2 - 1) as nat);
    }
}

/// The largest power of two not above `n` (0 for 0): `n` itself when it is
/// a power of two, half the next power of two otherwise.
pub open spec fn spec_pow2_floor(n: nat) -> nat {
    if spec_is_pow2(n) {
        n
    } else {
        spec_npot(n) / 2
    }
}

/// `npot_from` started at a power of two ends at a power of two that is at
/// least `n` and whose half is below `n`.
proof fn lemma_npot_from_shape(n: nat, e: nat) -> (e2: nat)
    requires
        1 <= n,
        e == 0 || pow2n((e - 1) as nat) < n,
    ensures
        npot_from(n, pow2n(e)) == pow2n(e2),
        pow2n(e2) >= n,
        e2 == 0 || pow2n((e2 - 1) as nat) < n,
    decreases n - pow2n(e),
{
    lemma_pow2n_mono(0, e);
    let p = pow2n(e);
    assert(pow2n(e + 1) == 2 * p);
    if p >= n {
        e
    } else if 2 * p >= n {
        e + 1
    } else {
        lemma_npot_from_shape(n, e + 1)
    }
}

/// The largest power of two not above `n`: for `0 < n <= 2^63` it is a power
/// of two `p` with `p <= n < 2 * p`.
pub proof fn law_pow2_floor_is_largest_power_below(n: nat)
    requires
        1 <= n <= 0x8000_0000_0000_0000,
    ensures
        exists|e: nat| spec_pow2_floor(n) == #[trigger] pow2n(e),
        spec_pow2_floor(n) <= n < 2 * spec_pow2_floor(n),
{
    let e2 = lemma_npot_from_shape(n, 0);
    assert(pow2n(0) == 1);
    let p = pow2n(e2);
    if p == n {
        assert(spec_pow2_floor(n) == pow2n(e2));
    } else {
        assert(e2 != 0);
        assert(pow2n(e2) == 2 * pow2n((e2 - 1) as nat));
        assert(spec_pow2_floor(n) == pow2n((e2 - 1) as nat));
    }
}

/// The largest power of two not above `n`, as `spec_pow2_floor` states it.
pub fn pow2_floor(n: u64) -> (r: u64)
    ensures
        r == spec_pow2_floor(n as nat),
{
    let np = next_pow2(n);
    if n > 0 && np == n {
        n
    } else {
        np / 2
    }
}

} // verus!
