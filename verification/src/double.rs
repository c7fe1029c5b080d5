//! Exact results of double-precision arithmetic on whole numbers.
//!
//! Durations and rates are worked out in double precision before they are
//! printed, and which way a tie is rounded depends on the double nearest to the
//! true value. This module computes those doubles with integers, so that the
//! printed digits are determined by a contract.

use vstd::prelude::*;

verus! {

/// `2^n`.
pub open spec fn two_to(n: nat) -> nat
    decreases n,
{
    if n == 0 {
        1
    } else {
        2 * two_to((n - 1) as nat)
    }
}

/// `n / d`, rounded to the nearest whole number, ties to the even one.
pub open spec fn half_even(n: nat, d: nat) -> nat {
    let q = n / d;
    let r = n % d;
    if 2 * r < d || (2 * r == d && q % 2 == 0) {
        q
    } else {
        q + 1
    }
}

/// A positive double or zero: `m * 2^x / 2^128`.
pub struct DoubleModel {
    pub m: nat,
    pub x: nat,
}

/// Whether doubles around `n / d` are `2^x / 2^128` apart, so that 53 bits are
/// left for the value.
pub open spec fn binade(n: nat, d: nat, x: nat) -> bool {
    d * two_to(x + 52) <= n * two_to(128) < d * two_to(x + 53)
}

/// The double nearest to `n / d`, ties to even.
pub open spec fn nearest_double(n: nat, d: nat) -> DoubleModel {
    if n == 0 {
        DoubleModel { m: 0, x: 0 }
    } else {
        let x = choose|x: nat| binade(n, d, x);
        DoubleModel { m: half_even(n * two_to(128), d * two_to(x)), x }
    }
}

/// The double that a division of two doubles gives.
pub open spec fn quotient(a: DoubleModel, b: DoubleModel) -> DoubleModel {
    nearest_double(a.m * two_to(a.x), b.m * two_to(b.x))
}

/// A double times `k`, rounded to a whole number, ties to even: what printing
/// with as many decimals as `k` has zeros shows.
pub open spec fn scaled_whole(a: DoubleModel, k: nat) -> nat {
    half_even(a.m * k * two_to(a.x), two_to(128))
}

pub proof fn lemma_two_to_pos(n: nat)
    ensures
        two_to(n) > 0,
    decreases n,
{
    if n > 0 {
        lemma_two_to_pos((n - 1) as nat);
    }
}

pub proof fn lemma_two_to_add(a: nat, b: nat)
    ensures
        two_to(a + b) == two_to(a) * two_to(b),
    decreases a,
{
    if a > 0 {
        lemma_two_to_add((a - 1) as nat, b);
        let t = two_to((a - 1) as nat);
        let u = two_to(b);
        assert(2 * (t * u) == (2 * t) * u) by (nonlinear_arith);
        assert((a + b - 1) as nat == (a - 1) as nat + b);
    } else {
        assert(1 * two_to(b) == two_to(b));
    }
}

pub proof fn lemma_two_to_mono(a: nat, b: nat)
    requires
        a <= b,
    ensures
        two_to(a) <= two_to(b),
    decreases b,
{
    if a < b {
        lemma_two_to_mono(a, (b - 1) as nat);
    }
}

pub proof fn lemma_two_to_values()
    ensures
        two_to(0) == 1,
        two_to(10) == 1024,
        two_to(32) == 0x1_0000_0000,
        two_to(52) == 0x10_0000_0000_0000,
        two_to(53) == 0x20_0000_0000_0000,
        two_to(64) == 0x1_0000_0000_0000_0000,
{
    reveal_with_fuel(two_to, 11);
    lemma_two_to_add(10, 10);
    lemma_two_to_add(20, 10);
    lemma_two_to_add(30, 2);
    lemma_two_to_add(32, 20);
    lemma_two_to_add(52, 1);
    lemma_two_to_add(32, 32);
}

/// At most one spacing fits a value.
pub proof fn lemma_binade_unique(n: nat, d: nat, x: nat, y: nat)
    requires
        d > 0,
        binade(n, d, x),
        binade(n, d, y),
    ensures
        x == y,
{
    if x < y {
        lemma_two_to_mono(x + 53, y + 52);
        let a = two_to(x + 53);
        let b = two_to(y + 52);
        assert(d * a <= d * b) by (nonlinear_arith)
            requires
                a <= b,
        ;
    } else if y < x {
        lemma_two_to_mono(y + 53, x + 52);
        let a = two_to(y + 53);
        let b = two_to(x + 52);
        assert(d * a <= d * b) by (nonlinear_arith)
            requires
                a <= b,
        ;
    }
}

/// Rounding does not change when both numbers are multiplied.
pub proof fn lemma_half_even_scale(n: nat, d: nat, k: nat)
    requires
        d > 0,
        k > 0,
    ensures
        half_even(n * k, d * k) == half_even(n, d),
{
    let q = n / d;
    let r = n % d;
    assert(n == q * d + r) by (nonlinear_arith)
        requires
            q == n / d,
            r == n % d,
            d > 0,
    ;
    assert(n * k == q * (d * k) + r * k) by (nonlinear_arith)
        requires
            n == q * d + r,
    ;
    assert(0 <= r * k < d * k) by (nonlinear_arith)
        requires
            0 <= r < d,
            k > 0,
    ;
    vstd::arithmetic::div_mod::lemma_fundamental_div_mod_converse(
        (n * k) as int,
        (d * k) as int,
        q as int,
        (r * k) as int,
    );
    assert((2 * (r * k) < d * k) == (2 * r < d)) by (nonlinear_arith)
        requires
            k > 0,
    ;
    assert((2 * (r * k) == d * k) == (2 * r == d)) by (nonlinear_arith)
        requires
            k > 0,
    ;
}

/// `n / d` brought to the form `a / b` with `2^52 <= a / b < 2^53` has the
/// rounded `a / b` as its significand.
proof fn lemma_normalised(n: nat, d: nat, a: nat, b: nat, p: nat, q: nat)
    requires
        n > 0,
        d > 0,
        a == n * two_to(p),
        b == d * two_to(q),
        p <= 128,
        b * two_to(52) <= a < b * two_to(53),
    ensures
        nearest_double(n, d) == (DoubleModel { m: half_even(a, b), x: (128 + q - p) as nat }),
{
    let x = (128 + q - p) as nat;
    let k = two_to((128 - p) as nat);
    lemma_two_to_pos((128 - p) as nat);
    lemma_two_to_pos(q);
    lemma_two_to_add(p, (128 - p) as nat);
    assert(n * two_to(128) == a * k) by (nonlinear_arith)
        requires
            a == n * two_to(p),
            two_to(128) == two_to(p) * k,
    ;
    lemma_two_to_add(q, (128 - p) as nat);
    assert(q + (128 - p) as nat == x);
    assert(d * two_to(x) == b * k) by (nonlinear_arith)
        requires
            b == d * two_to(q),
            two_to(x) == two_to(q) * k,
    ;
    lemma_two_to_add(x, 52);
    lemma_two_to_add(x, 53);
    let t = two_to(52);
    let u = two_to(53);
    assert(d * two_to(x + 52) == (b * t) * k) by (nonlinear_arith)
        requires
            two_to(x + 52) == two_to(x) * t,
            d * two_to(x) == b * k,
    ;
    assert(d * two_to(x + 53) == (b * u) * k) by (nonlinear_arith)
        requires
            two_to(x + 53) == two_to(x) * u,
            d * two_to(x) == b * k,
    ;
    assert((b * t) * k <= a * k < (b * u) * k) by (nonlinear_arith)
        requires
            b * t <= a < b * u,
            k > 0,
    ;
    assert(binade(n, d, x));
    let y = choose|y: nat| binade(n, d, y);
    lemma_binade_unique(n, d, x, y);
    assert(b > 0) by (nonlinear_arith)
        requires
            b == d * two_to(q),
            d > 0,
            two_to(q) > 0,
    ;
    lemma_half_even_scale(a, b, k);
}

/// A positive double: `m * 2^x / 2^128`.
#[derive(Debug, Clone, Copy)]
pub struct Double {
    pub m: u64,
    pub x: u32,
}

impl View for Double {
    type V = DoubleModel;

    open spec fn view(&self) -> DoubleModel {
        DoubleModel { m: self.m as nat, x: self.x as nat }
    }
}

impl Double {
    /// A number that can be divided and printed.
    pub open spec fn wf(self) -> bool {
        &&& 0x10_0000_0000_0000 <= self.m <= 0x20_0000_0000_0000
        &&& 1 <= self.x <= 180
    }
}

/// `n / d`, rounded to the nearest whole number, ties to the even one.
pub fn round_half_even(n: u128, d: u128) -> (r: u128)
    requires
        0 < d < 0x8000_0000_0000_0000_0000_0000_0000_0000,
        n < 0x8000_0000_0000_0000_0000_0000_0000_0000,
    ensures
        r == half_even(n as nat, d as nat),
{
    let q: u128 = n / d;
    let rest: u128 = n % d;
    assert(q <= n) by (nonlinear_arith)
        requires
            q == n / d,
            d > 0,
    ;
    if 2 * rest < d || (2 * rest == d && q % 2 == 0) {
        q
    } else {
        q + 1
    }
}

/// The double nearest to `n / d`.
pub fn nearest(n: u64, d: u64) -> (r: Double)
    requires
        n > 0,
        d > 0,
    ensures
        r@ == nearest_double(n as nat, d as nat),
        0x10_0000_0000_0000 <= r.m <= 0x20_0000_0000_0000,
        12 <= r.x <= 139,
        binade(n as nat, d as nat, r.x as nat),
{
    let mut a: u128 = n as u128;
    let mut b: u128 = d as u128;
    let mut x: u32 = 128;
    let ghost mut p: nat = 0;
    let ghost mut q: nat = 0;
    proof {
        lemma_two_to_values();
    }
    while a >= b * 0x20_0000_0000_0000
        invariant
            n > 0,
            d > 0,
            a == n,
            p == 0,
            b == d * two_to(q),
            0 < b <= 0xffff_ffff_ffff_ffff,
            a <= 0xffff_ffff_ffff_ffff,
            x == 128 + q,
            q <= 11,
            q > 0 ==> b * 0x10_0000_0000_0000 <= a,
            b >= two_to(q),
        decreases a - b,
    {
        proof {
            lemma_two_to_values();
            assert(two_to(q + 1) == 2 * two_to(q));
            let t = two_to(q);
            assert(d * (2 * t) == 2 * (d * t)) by (nonlinear_arith);
            if q == 11 {
                reveal_with_fuel(two_to, 12);
                assert(two_to(11) == 2048);
            }
            q = q + 1;
        }
        b = b * 2;
        x = x + 1;
    }
    let ghost grown = q;
    while a < b * 0x10_0000_0000_0000
        invariant
            n > 0,
            d > 0,
            a == n * two_to(p),
            b == d * two_to(q),
            q == grown,
            q > 0 ==> b * 0x10_0000_0000_0000 <= a,
            q <= 11,
            0 < b <= 0xffff_ffff_ffff_ffff,
            a < b * 0x20_0000_0000_0000,
            a > 0,
            x == 128 + q - p,
            p <= 116,
            a >= two_to(p),
        decreases 117 - p,
    {
        proof {
            assert(two_to(p + 1) == 2 * two_to(p));
            let t = two_to(p);
            assert(n * (2 * t) == 2 * (n * t)) by (nonlinear_arith);
            lemma_two_to_values();
            lemma_two_to_add(64, 52);
            if p == 116 {
                assert(a >= two_to(116));
                assert(two_to(64) * two_to(52) == 0x10_0000_0000_0000 * 0x1_0000_0000_0000_0000);
            }
            p = p + 1;
        }
        a = a * 2;
        x = x - 1;
    }
    proof {
        lemma_two_to_values();
        lemma_normalised(n as nat, d as nat, a as nat, b as nat, p, q);
        lemma_binade_here(n as nat, d as nat, a as nat, b as nat, p, q);
        lemma_significand_range(a as nat, b as nat);
    }
    let m: u128 = round_half_even(a, b);
    Double { m: m as u64, x }
}

/// The spacing that normalising arrives at fits the value.
proof fn lemma_binade_here(n: nat, d: nat, a: nat, b: nat, p: nat, q: nat)
    requires
        n > 0,
        d > 0,
        a == n * two_to(p),
        b == d * two_to(q),
        p <= 128,
        b * two_to(52) <= a < b * two_to(53),
    ensures
        binade(n, d, (128 + q - p) as nat),
{
    let x = (128 + q - p) as nat;
    let k = two_to((128 - p) as nat);
    lemma_two_to_pos((128 - p) as nat);
    lemma_two_to_add(p, (128 - p) as nat);
    lemma_two_to_add(q, (128 - p) as nat);
    assert(q + (128 - p) as nat == x);
    lemma_two_to_add(x, 52);
    lemma_two_to_add(x, 53);
    let t = two_to(52);
    let u = two_to(53);
    assert(n * two_to(128) == a * k) by (nonlinear_arith)
        requires
            a == n * two_to(p),
            two_to(128) == two_to(p) * k,
    ;
    assert(d * two_to(x) == b * k) by (nonlinear_arith)
        requires
            b == d * two_to(q),
            two_to(x) == two_to(q) * k,
    ;
    assert(d * two_to(x + 52) == (b * t) * k) by (nonlinear_arith)
        requires
            two_to(x + 52) == two_to(x) * t,
            d * two_to(x) == b * k,
    ;
    assert(d * two_to(x + 53) == (b * u) * k) by (nonlinear_arith)
        requires
            two_to(x + 53) == two_to(x) * u,
            d * two_to(x) == b * k,
    ;
    assert((b * t) * k <= a * k < (b * u) * k) by (nonlinear_arith)
        requires
            b * t <= a < b * u,
            k > 0,
    ;
}

/// A quotient of at least `2^52` and below `2^53` rounds to 53 bits.
proof fn lemma_significand_range(a: nat, b: nat)
    requires
        b > 0,
        b * 0x10_0000_0000_0000 <= a < b * 0x20_0000_0000_0000,
    ensures
        0x10_0000_0000_0000 <= half_even(a, b) <= 0x20_0000_0000_0000,
{
    assert(0x10_0000_0000_0000 <= a / b < 0x20_0000_0000_0000) by (nonlinear_arith)
        requires
            b > 0,
            b * 0x10_0000_0000_0000 <= a < b * 0x20_0000_0000_0000,
    ;
}

/// A power of two in the numerator or the denominator moves the spacing and
/// nothing else.
proof fn lemma_shifted(n: nat, d: nat, p: nat, q: nat, x: nat)
    requires
        n > 0,
        d > 0,
        binade(n, d, x),
        x + p >= q,
    ensures
        nearest_double(n * two_to(p), d * two_to(q)) == (DoubleModel {
            m: nearest_double(n, d).m,
            x: (x + p - q) as nat,
        }),
        nearest_double(n, d).x == x,
{
    let z = (x + p - q) as nat;
    let np = n * two_to(p);
    let dq = d * two_to(q);
    let k = two_to(p);
    let big = two_to(128);
    lemma_two_to_pos(p);
    lemma_two_to_pos(q);
    lemma_two_to_pos(x);
    assert(np > 0 && dq > 0) by (nonlinear_arith)
        requires
            np == n * two_to(p),
            dq == d * two_to(q),
            n > 0,
            d > 0,
            two_to(p) > 0,
            two_to(q) > 0,
    ;
    lemma_two_to_add(q, z);
    lemma_two_to_add(x, p);
    assert(q + z == x + p);
    assert(dq * two_to(z) == (d * two_to(x)) * k) by (nonlinear_arith)
        requires
            dq == d * two_to(q),
            two_to(q) * two_to(z) == two_to(x) * k,
    ;
    assert(np * big == (n * big) * k) by (nonlinear_arith)
        requires
            np == n * k,
    ;
    lemma_two_to_add(z, 52);
    lemma_two_to_add(z, 53);
    lemma_two_to_add(x, 52);
    lemma_two_to_add(x, 53);
    let t = two_to(52);
    let u = two_to(53);
    assert(dq * two_to(z + 52) == (d * two_to(x + 52)) * k) by (nonlinear_arith)
        requires
            two_to(z + 52) == two_to(z) * t,
            two_to(x + 52) == two_to(x) * t,
            dq * two_to(z) == (d * two_to(x)) * k,
    ;
    assert(dq * two_to(z + 53) == (d * two_to(x + 53)) * k) by (nonlinear_arith)
        requires
            two_to(z + 53) == two_to(z) * u,
            two_to(x + 53) == two_to(x) * u,
            dq * two_to(z) == (d * two_to(x)) * k,
    ;
    let lo = d * two_to(x + 52);
    let hi = d * two_to(x + 53);
    let mid = n * big;
    assert(lo * k <= mid * k < hi * k) by (nonlinear_arith)
        requires
            lo <= mid < hi,
            k > 0,
    ;
    assert(binade(np, dq, z));
    let y = choose|y: nat| binade(np, dq, y);
    lemma_binade_unique(np, dq, z, y);
    let w = choose|w: nat| binade(n, d, w);
    lemma_binade_unique(n, d, x, w);
    assert(d * two_to(x) > 0) by (nonlinear_arith)
        requires
            d > 0,
            two_to(x) > 0,
    ;
    lemma_half_even_scale(n * big, d * two_to(x), k);
}

/// A whole number as a double.
pub fn from_whole(n: u64) -> (r: Double)
    requires
        n > 0,
    ensures
        r@ == nearest_double(n as nat, 1),
        0x10_0000_0000_0000 <= r.m <= 0x20_0000_0000_0000,
        76 <= r.x <= 139,
        binade(n as nat, 1, r.x as nat),
{
    let r: Double = nearest(n, 1);
    proof {
        let x = r.x as nat;
        lemma_two_to_values();
        assert(1 * two_to(x + 53) == two_to(x + 53));
        if x < 76 {
            lemma_two_to_mono(x + 53, 128);
            let big = two_to(128);
            assert(big <= n * big) by (nonlinear_arith)
                requires
                    n > 0,
            ;
        }
    }
    r
}

/// The double that a division of two doubles gives.
pub fn divide(a: Double, b: Double) -> (r: Double)
    requires
        a.wf(),
        b.wf(),
        b.x <= a.x + 70,
        a.x <= b.x + 100,
    ensures
        r@ == quotient(a@, b@),
        0x10_0000_0000_0000 <= r.m <= 0x20_0000_0000_0000,
        a.x + 74 <= r.x + b.x <= a.x + 77,
{
    let q: Double = nearest(a.m, b.m);
    proof {
        lemma_ratio_spacing(a.m as nat, b.m as nat, q.x as nat);
        lemma_shifted(a.m as nat, b.m as nat, a.x as nat, b.x as nat, q.x as nat);
    }
    Double { m: q.m, x: (q.x + a.x) - b.x }
}

/// The ratio of two significands lies around one.
proof fn lemma_ratio_spacing(a: nat, b: nat, x: nat)
    requires
        0x10_0000_0000_0000 <= a <= 0x20_0000_0000_0000,
        0x10_0000_0000_0000 <= b <= 0x20_0000_0000_0000,
        binade(a, b, x),
    ensures
        74 <= x <= 77,
{
    lemma_two_to_values();
    let big = two_to(128);
    lemma_two_to_pos(128);
    if x < 74 {
        let u = two_to(x + 53);
        lemma_two_to_mono(x + 53, 126);
        lemma_two_to_add(126, 2);
        reveal_with_fuel(two_to, 3);
        assert(b * u <= a * big) by (nonlinear_arith)
            requires
                u <= two_to(126),
                big == two_to(126) * 4,
                b <= 2 * a,
                u >= 0,
        ;
    } else if x > 77 {
        let t = two_to(x + 52);
        lemma_two_to_mono(130, x + 52);
        lemma_two_to_add(128, 2);
        reveal_with_fuel(two_to, 3);
        assert(b * t > a * big) by (nonlinear_arith)
            requires
                t >= big * 4,
                a <= 2 * b,
                big > 0,
                b > 0,
        ;
    }
}

/// A double times `k`, rounded to a whole number, ties to even.
pub fn print_scaled(a: Double, k: u64) -> (r: u128)
    requires
        a.m <= 0x20_0000_0000_0000,
        2 <= a.x <= 180,
        0 < k <= 1000,
    ensures
        r == scaled_whole(a@, k as nat),
{
    let ghost start = a.m as nat * k as nat;
    assert(start <= 0x20_0000_0000_0000 * 1000) by (nonlinear_arith)
        requires
            start == a.m as nat * k as nat,
            a.m <= 0x20_0000_0000_0000,
            k <= 1000,
    ;
    let mut top: u128 = a.m as u128 * k as u128;
    let mut bottom: u128 = 1;
    let mut x: u32 = a.x;
    let ghost mut p: nat = 0;
    let ghost mut q: nat = 0;
    assert(top == start);
    proof {
        lemma_two_to_values();
    }
    while x > 128
        invariant
            top == start * two_to(p),
            start <= 0x20_0000_0000_0000 * 1000,
            x + p == a.x,
            x >= 128 || p == 0,
            bottom == 1,
            q == 0,
            a.x <= 180,
            p <= 52,
        decreases x,
    {
        proof {
            let t = two_to(p);
            assert(two_to(p + 1) == 2 * t);
            assert(start * (2 * t) == 2 * (start * t)) by (nonlinear_arith);
            lemma_two_to_mono(p, 52);
            lemma_two_to_values();
            assert(start * t <= 0x20_0000_0000_0000 * 1000 * 0x10_0000_0000_0000) by (nonlinear_arith)
                requires
                    start <= 0x20_0000_0000_0000 * 1000,
                    t <= 0x10_0000_0000_0000,
            ;
            p = p + 1;
        }
        top = top * 2;
        x = x - 1;
    }
    while x < 128
        invariant
            top == start * two_to(p),
            x + p == a.x + q,
            q > 0 ==> p == 0,
            x <= 128,
            p > 0 ==> x == 128,
            p <= 52,
            start <= 0x20_0000_0000_0000 * 1000,
            bottom == two_to(q),
            2 <= a.x,
            q <= 126,
        decreases 128 - x,
    {
        proof {
            assert(two_to(q + 1) == 2 * two_to(q));
            lemma_two_to_mono(q, 125);
            lemma_two_to_values();
            lemma_two_to_add(64, 61);
            lemma_two_to_add(52, 9);
            reveal_with_fuel(two_to, 10);
            q = q + 1;
        }
        bottom = bottom * 2;
        x = x + 1;
    }
    proof {
        lemma_two_to_values();
        lemma_two_to_mono(p, 52);
        lemma_two_to_mono(q, 126);
        lemma_two_to_add(64, 62);
        lemma_two_to_add(52, 10);
        let t = two_to(p);
        assert(start * t <= 0x20_0000_0000_0000 * 1000 * 0x10_0000_0000_0000) by (nonlinear_arith)
            requires
                start <= 0x20_0000_0000_0000 * 1000,
                t <= 0x10_0000_0000_0000,
        ;
        lemma_two_to_pos(q);
        lemma_printed(start, a.x as nat, p, q);
    }
    round_half_even(top, bottom)
}

/// Shifting the point does not change what is printed.
proof fn lemma_printed(start: nat, x: nat, p: nat, q: nat)
    requires
        x + q == 128 + p,
        q <= 128,
    ensures
        half_even(start * two_to(p), two_to(q)) == half_even(start * two_to(x), two_to(128)),
{
    let k = two_to((128 - q) as nat);
    lemma_two_to_pos((128 - q) as nat);
    lemma_two_to_pos(q);
    lemma_two_to_add(q, (128 - q) as nat);
    lemma_two_to_add(p, (128 - q) as nat);
    assert(p + (128 - q) as nat == x);
    lemma_half_even_scale(start * two_to(p), two_to(q), k);
    assert((start * two_to(p)) * k == start * two_to(x)) by (nonlinear_arith)
        requires
            two_to(x) == two_to(p) * k,
    ;
}

} // verus!
