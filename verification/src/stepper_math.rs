//! Integer square roots, ramp delay recurrences and the per-axis ramp
//! generator.

use vstd::prelude::*;
use vstd::arithmetic::power2::{pow2, lemma_pow2_unfold, lemma2_to64, lemma_pow2_pos};

verus! {

/// `r` is the integer nearest to the square root of `x`.
pub open spec fn is_nearest_sqrt(x: int, r: int) -> bool {
    &&& 0 <= r
    &&& r * r - r < x || (x == 0 && r == 0)
    &&& x <= r * r + r
}

/// The integer nearest to the square root of `x`.
pub open spec fn nearest_sqrt(x: int) -> int {
    choose|r: int| is_nearest_sqrt(x, r)
}

/// No number has two nearest roots.
pub proof fn lemma_nearest_sqrt_unique(x: int, a: int, b: int)
    requires
        is_nearest_sqrt(x, a),
        is_nearest_sqrt(x, b),
    ensures
        a == b,
        a == nearest_sqrt(x),
{
    if a < b {
        assert(b * b - b >= a * a + a) by (nonlinear_arith)
            requires
                0 <= a,
                a + 1 <= b,
        ;
    }
    if b < a {
        assert(a * a - a >= b * b + b) by (nonlinear_arith)
            requires
                0 <= b,
                b + 1 <= a,
        ;
    }
    let c = nearest_sqrt(x);
    if a < c {
        assert(c * c - c >= a * a + a) by (nonlinear_arith)
            requires
                0 <= a,
                a + 1 <= c,
        ;
    }
    if c < a {
        assert(a * a - a >= c * c + c) by (nonlinear_arith)
            requires
                0 <= c,
                c + 1 <= a,
        ;
    }
}

/// `r` is the largest integer whose square does not exceed `x`.
pub open spec fn is_floor_sqrt(x: int, r: int) -> bool {
    &&& 0 <= r
    &&& r * r <= x
    &&& x < (r + 1) * (r + 1)
}

/// State of the digit-by-digit root extraction before the digit of weight
/// `pow2(k)` is decided: `p` is the part of the root found so far.
spec fn root_scan(x0: int, x: int, xr: int, q2: int, p: int, k: nat, top: int) -> bool {
    let b = pow2(k) as int;
    &&& q2 == b * b
    &&& xr == 2 * p * b
    &&& 0 <= p
    &&& p + 2 * b <= top
    &&& x == x0 - p * p
    &&& p * p <= x0
    &&& x0 < (p + 2 * b) * (p + 2 * b)
}

proof fn lemma_root_scan_step(x0: int, x: int, xr: int, q2: int, p: int, k: nat, top: int)
    requires
        root_scan(x0, x, xr, q2, p, k, top),
    ensures
        0 < q2,
        0 <= xr,
        xr + q2 <= (top - 1) * (top - 1),
        xr + q2 <= x <==> (p + pow2(k)) * (p + pow2(k)) <= x0,
        x - (xr + q2) == x0 - (p + pow2(k)) * (p + pow2(k)),
        xr / 2 + q2 == (p + pow2(k)) * pow2(k),
        xr / 2 == p * pow2(k),
        p + pow2(k) < top,
{
    let b = pow2(k) as int;
    lemma_pow2_pos(k);
    assert((p + b) * (p + b) == p * p + 2 * p * b + b * b) by (nonlinear_arith);
    assert((p + b) * (p + b) <= (top - 1) * (top - 1)) by (nonlinear_arith)
        requires
            0 <= p,
            1 <= b,
            p + 2 * b <= top,
    ;
    assert(0 <= p * p) by (nonlinear_arith);
    assert(0 <= p * b) by (nonlinear_arith)
        requires
            0 <= p,
            0 < b,
    ;
    assert(2 * p * b == 2 * (p * b)) by (nonlinear_arith);
    assert((p + b) * b == p * b + b * b) by (nonlinear_arith);
    assert(0 < b * b) by (nonlinear_arith)
        requires
            0 < b,
    ;
}

/// One digit of the root has been decided: either the scan goes on with the
/// next lower digit, or the root is complete.
proof fn lemma_root_scan_advance(
    x0: int,
    x: int,
    xr: int,
    q2: int,
    p: int,
    k: nat,
    top: int,
    taken: bool,
)
    requires
        root_scan(x0, x, xr, q2, p, k, top),
        taken <==> xr + q2 <= x,
    ensures
        ({
            let grown = if taken { p + pow2(k) } else { p };
            let left_over = if taken { x - (xr + q2) } else { x };
            let halved = if taken { xr / 2 + q2 } else { xr / 2 };
            if k > 0 {
                root_scan(x0, left_over, halved, q2 / 4, grown, (k - 1) as nat, top) && q2 / 4 != 0
            } else {
                q2 / 4 == 0 && halved == grown && left_over == x0 - grown * grown
                    && is_floor_sqrt(x0, grown) && grown
                    < top
            }
        }),
{
    lemma_root_scan_step(x0, x, xr, q2, p, k, top);
    let b = pow2(k) as int;
    let grown = if taken { p + b } else { p };
    lemma_pow2_pos(k);
    assert(0 <= grown * grown) by (nonlinear_arith);
    if k > 0 {
        lemma_pow2_unfold(k);
        let c = pow2((k - 1) as nat) as int;
        lemma_pow2_pos((k - 1) as nat);
        assert((2 * c) * (2 * c) == 4 * (c * c)) by (nonlinear_arith);
        assert(grown * (2 * c) == 2 * grown * c) by (nonlinear_arith);
        assert(0 < c * c) by (nonlinear_arith)
            requires
                0 < c,
        ;
    } else {
        lemma2_to64();
        assert(b == 1);
        assert(grown * 1 == grown);
        assert(q2 == 1) by (nonlinear_arith)
            requires
                q2 == b * b,
                b == 1,
        ;
    }
}

/// Square root of `x0`, rounded to the nearest integer.
pub fn u32sqrt(x0: u32) -> (r: u32)
    ensures
        is_nearest_sqrt(x0 as int, r as int),
        r == nearest_sqrt(x0 as int),
{
    let mut x: u32 = x0;
    let mut xr: u32 = 0;
    let mut q2: u32 = 0x4000_0000u32;
    let ghost mut p: int = 0;
    let ghost mut k: nat = 15;
    proof {
        lemma2_to64();
        assert(pow2(15) * pow2(15) == 0x4000_0000) by (nonlinear_arith)
            requires pow2(15) == 0x8000;
    }
    while q2 != 0
        invariant
            q2 != 0 ==> root_scan(x0 as int, x as int, xr as int, q2 as int, p, k, 0x10000),
            q2 == 0 ==> xr == p && x == x0 - p * p && is_floor_sqrt(x0 as int, p) && p < 0x10000,
        decreases q2,
    {
        proof {
            lemma_root_scan_step(x0 as int, x as int, xr as int, q2 as int, p, k, 0x10000);
            lemma_root_scan_advance(
                x0 as int,
                x as int,
                xr as int,
                q2 as int,
                p,
                k,
                0x10000,
                xr + q2 <= x,
            );
            assert(xr >> 1 == xr / 2) by (bit_vector);
            assert(q2 >> 2 == q2 / 4) by (bit_vector);
        }
        if xr + q2 <= x {
            x -= xr + q2;
            xr >>= 1;
            xr += q2;
            proof {
                p = p + pow2(k);
            }
        } else {
            xr >>= 1;
        }
        q2 >>= 2;
        proof {
            if k > 0 {
                k = (k - 1) as nat;
            }
        }
    }
    proof {
        assert((p + 1) * (p + 1) == p * p + 2 * p + 1) by (nonlinear_arith);
    }
    if xr < x {
        proof {
            assert((p + 1) * (p + 1) - (p + 1) == p * p + p) by (nonlinear_arith);
            assert((p + 1) * (p + 1) + (p + 1) == p * p + 3 * p + 2) by (nonlinear_arith);
            lemma_nearest_sqrt_unique(x0 as int, p + 1, p + 1);
        }
        xr + 1
    } else {
        proof {
            assert(0 <= p * p) by (nonlinear_arith);
            lemma_nearest_sqrt_unique(x0 as int, p, p);
        }
        xr
    }
}

/// Square root of `x0`, rounded to the nearest integer.
pub fn u64sqrt(x0: u64) -> (r: u64)
    ensures
        is_nearest_sqrt(x0 as int, r as int),
        r == nearest_sqrt(x0 as int),
{
    let mut x: u64 = x0;
    let mut xr: u64 = 0;
    let mut q2: u64 = 0x4000_0000_0000_0000u64;
    let ghost mut p: int = 0;
    let ghost mut k: nat = 31;
    proof {
        lemma2_to64();
        assert(pow2(31) * pow2(31) == 0x4000_0000_0000_0000) by (nonlinear_arith)
            requires pow2(31) == 0x8000_0000;
    }
    while q2 != 0
        invariant
            q2 != 0 ==> root_scan(x0 as int, x as int, xr as int, q2 as int, p, k, 0x1_0000_0000),
            q2 == 0 ==> xr == p && x == x0 - p * p && is_floor_sqrt(x0 as int, p) && p
                < 0x1_0000_0000,
        decreases q2,
    {
        proof {
            lemma_root_scan_step(x0 as int, x as int, xr as int, q2 as int, p, k, 0x1_0000_0000);
            lemma_root_scan_advance(
                x0 as int,
                x as int,
                xr as int,
                q2 as int,
                p,
                k,
                0x1_0000_0000,
                xr + q2 <= x,
            );
            assert(xr >> 1 == xr / 2) by (bit_vector);
            assert(q2 >> 2 == q2 / 4) by (bit_vector);
        }
        if xr + q2 <= x {
            x -= xr + q2;
            xr >>= 1;
            xr += q2;
            proof {
                p = p + pow2(k);
            }
        } else {
            xr >>= 1;
        }
        q2 >>= 2;
        proof {
            if k > 0 {
                k = (k - 1) as nat;
            }
        }
    }
    proof {
        assert((p + 1) * (p + 1) == p * p + 2 * p + 1) by (nonlinear_arith);
    }
    if xr < x {
        proof {
            assert((p + 1) * (p + 1) - (p + 1) == p * p + p) by (nonlinear_arith);
            assert((p + 1) * (p + 1) + (p + 1) == p * p + 3 * p + 2) by (nonlinear_arith);
            lemma_nearest_sqrt_unique(x0 as int, p + 1, p + 1);
        }
        xr + 1
    } else {
        proof {
            assert(0 <= p * p) by (nonlinear_arith);
            lemma_nearest_sqrt_unique(x0 as int, p, p);
        }
        xr
    }
}

/// The square of `scaler * sqrt(10 / acc)`, truncated to an integer.
pub open spec fn first_step_radicand(scaler: int, acc: int) -> int
    recommends
        acc > 0,
{
    (scaler * scaler * 10) / acc
}

/// `r` is the delay of the first step from rest under acceleration `acc`:
/// the whole part of `scaler * sqrt(10 / acc)`, saturated at `u32::MAX`. A
/// zero acceleration gives the saturated delay, or `0` when `scaler` is zero
/// too.
pub open spec fn is_first_step_delay(scaler: int, acc: int, r: int) -> bool {
    if acc == 0 {
        r == (if scaler == 0 { 0int } else { u32::MAX as int })
    } else if first_step_radicand(scaler, acc) <= u64::MAX {
        is_floor_sqrt(first_step_radicand(scaler, acc), r)
    } else {
        r == u32::MAX
    }
}

/// The whole part of `SCALER * sqrt(10 / acc)`, computed with integers only.
/// The result saturates at `u32::MAX`; a zero acceleration gives the
/// saturated delay (and `0` when `SCALER` is zero as well).
pub fn first_step_delay<const SCALER: u32>(acc: u32) -> (r: u32)
    ensures
        is_first_step_delay(SCALER as int, acc as int, r as int),
{
    if acc == 0 {
        return if SCALER == 0 { 0 } else { u32::MAX };
    }
    let s: u128 = SCALER as u128;
    assert(s * s <= 0xFFFF_FFFF * 0xFFFF_FFFF) by (nonlinear_arith)
        requires
            0 <= s <= 0xFFFF_FFFF,
    ;
    let q: u128 = (s * s * 10) / (acc as u128);
    if q > u64::MAX as u128 {
        return u32::MAX;
    }
    let near: u64 = u64sqrt(q as u64);
    let ghost n = near as int;
    assert(near <= 0x1_0000_0000) by (nonlinear_arith)
        requires
            n * n - n < q || n == 0,
            q <= 0xFFFF_FFFF_FFFF_FFFF,
            n == near,
    ;
    let wide: u128 = near as u128;
    assert(wide * wide <= 0x1_0000_0000 * 0x1_0000_0000) by (nonlinear_arith)
        requires
            0 <= wide <= 0x1_0000_0000,
    ;
    assert(wide == 0 ==> wide * wide == 0) by (nonlinear_arith);
    let floor: u64 = if wide * wide > q { near - 1 } else { near };
    proof {
        let f = floor as int;
        assert((n - 1) * (n - 1) == n * n - 2 * n + 1) by (nonlinear_arith);
        assert((n + 1) * (n + 1) == n * n + 2 * n + 1) by (nonlinear_arith);
        assert(is_floor_sqrt(q as int, f));
        assert(f <= 0xFFFF_FFFF) by (nonlinear_arith)
            requires
                f * f <= q,
                q <= 0xFFFF_FFFF_FFFF_FFFF,
                0 <= f,
        ;
    }
    floor as u32
}

/// Delay of step `n` of an accelerating ramp, from the delay before it.
pub open spec fn acc_delay(previous_delay: int, step_number: int) -> int
    recommends
        step_number >= 1,
{
    (previous_delay * (4 * step_number - 1)) / (4 * step_number + 1)
}

/// Delay of step `n` of a decelerating ramp, from the delay before it.
pub open spec fn dec_delay(previous_delay: int, step_number: int) -> int
    recommends
        step_number >= 1,
{
    (previous_delay * (4 * step_number + 1)) / (4 * step_number - 1)
}

/// The delay shrinks by the factor `(4n - 1) / (4n + 1)`, truncated.
pub fn inter_step_acc_delay(previous_delay: u32, step_number: u32) -> (r: u32)
    requires
        step_number >= 1,
    ensures
        r == acc_delay(previous_delay as int, step_number as int),
        r <= previous_delay,
{
    let fourx: u64 = 4 * (step_number as u64);
    let numerator: u64 = fourx - 1;
    let denominator: u64 = fourx + 1;
    let prev: u128 = previous_delay as u128;
    assert(prev * numerator <= prev * denominator <= 0xFFFF_FFFF * 0x4_0000_0000)
        by (nonlinear_arith)
        requires
            0 <= prev <= 0xFFFF_FFFF,
            0 <= numerator < denominator <= 0x4_0000_0000,
    ;
    let product: u128 = prev * (numerator as u128);
    let quotient: u128 = product / (denominator as u128);
    assert(quotient <= prev) by (nonlinear_arith)
        requires
            quotient == product / (denominator as u128),
            product <= prev * denominator,
            denominator > 0,
    ;
    quotient as u32
}

/// The delay grows by the factor `(4n + 1) / (4n - 1)`, truncated: the
/// inverse of the accelerating recurrence.
pub fn inter_step_dec_delay(previous_delay: u32, step_number: u32) -> (r: u32)
    requires
        step_number >= 1,
        dec_delay(previous_delay as int, step_number as int) <= u32::MAX,
    ensures
        r == dec_delay(previous_delay as int, step_number as int),
        r >= previous_delay,
{
    let fourx: u64 = 4 * (step_number as u64);
    let numerator: u64 = fourx + 1;
    let denominator: u64 = fourx - 1;
    let prev: u128 = previous_delay as u128;
    assert(prev * denominator <= prev * numerator <= 0xFFFF_FFFF * 0x4_0000_0000)
        by (nonlinear_arith)
        requires
            0 <= prev <= 0xFFFF_FFFF,
            0 < denominator < numerator <= 0x4_0000_0000,
    ;
    let product: u128 = prev * (numerator as u128);
    let quotient: u128 = product / (denominator as u128);
    assert(quotient >= prev) by (nonlinear_arith)
        requires
            quotient == product / (denominator as u128),
            product >= prev * denominator,
            denominator > 0,
    ;
    quotient as u32
}

/// The decelerating recurrence undoes the accelerating one up to rounding:
/// it gives back the delay before the step, or up to two units less.
pub proof fn lemma_dec_undoes_acc(previous_delay: int, step_number: int)
    requires
        0 <= previous_delay,
        1 <= step_number,
    ensures
        previous_delay - 2 <= dec_delay(acc_delay(previous_delay, step_number), step_number)
            <= previous_delay,
{
    let up = 4 * step_number + 1;
    let down = 4 * step_number - 1;
    let shrunk = acc_delay(previous_delay, step_number);
    let back = dec_delay(shrunk, step_number);
    assert(shrunk * up <= previous_delay * down < shrunk * up + up) by (nonlinear_arith)
        requires
            shrunk == (previous_delay * down) / up,
            up > 0,
    ;
    assert(back * down <= shrunk * up < back * down + down) by (nonlinear_arith)
        requires
            back == (shrunk * up) / down,
            down > 0,
    ;
    assert(back <= previous_delay) by (nonlinear_arith)
        requires
            back * down <= previous_delay * down,
            down > 0,
    ;
    assert(back >= previous_delay - 2) by (nonlinear_arith)
        requires
            previous_delay * down < back * down + down + up,
            up == down + 2,
            down >= 3,
    ;
}

/// Entry `i` of the ramp table that starts with the delay `first`.
pub open spec fn ramp_entry(first: int, i: nat) -> int
    decreases i,
{
    if i == 0 {
        first
    } else {
        acc_delay(ramp_entry(first, (i - 1) as nat), i as int)
    }
}

/// Builds the table of per-step delays of a ramp from rest: the first entry
/// is the first-step delay for `acc`, each later entry follows from the one
/// before it by the accelerating recurrence. The delays never grow.
pub fn initialize_acc_curve<const SCALER: u32>(acc: u32, len: usize) -> (table: Vec<u32>)
    requires
        0 < len <= u32::MAX,
    ensures
        table@.len() == len,
        is_first_step_delay(SCALER as int, acc as int, table@[0] as int),
        forall|i: int|
            0 <= i < len ==> #[trigger] table@[i] == ramp_entry(table@[0] as int, i as nat),
        forall|i: int, j: int| 0 <= i <= j < len ==> table@[i] >= table@[j],
{
    let first: u32 = first_step_delay::<SCALER>(acc);
    let mut table: Vec<u32> = Vec::new();
    table.push(first);
    let mut i: usize = 1;
    while i < len
        invariant
            1 <= i <= len <= u32::MAX,
            table@.len() == i,
            table@[0] == first,
            forall|n: int| 0 <= n < i ==> table@[n] == ramp_entry(first as int, n as nat),
            forall|n: int, m: int| 0 <= n <= m < i ==> table@[n] >= table@[m],
        decreases len - i,
    {
        let next: u32 = inter_step_acc_delay(table[i - 1], i as u32);
        table.push(next);
        i += 1;
    }
    table
}

} // verus!
