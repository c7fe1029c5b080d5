//! What holds of sizes, durations and rates as text.

use vstd::prelude::*;

use crate::double;
use crate::double::DoubleModel;
use crate::figures;
use crate::text;

verus! {

broadcast use vstd::string::group_string_axioms;

// ---------------------------------------------------------------------------
// Rounding
// ---------------------------------------------------------------------------

/// The distance of two numbers.
pub open spec fn apart(a: nat, b: nat) -> nat {
    if a < b {
        (b - a) as nat
    } else {
        (a - b) as nat
    }
}

/// Rounding takes the nearest whole number, and of two that are as near the even
/// one.
pub proof fn law_rounding_takes_the_nearest(n: nat, d: nat)
    requires
        d > 0,
    ensures
        2 * apart(n, double::half_even(n, d) * d) <= d,
        2 * apart(n, double::half_even(n, d) * d) == d ==> double::half_even(n, d) % 2
            == 0,
{
    let q = n / d;
    let r = n % d;
    assert(n == q * d + r && 0 <= r < d) by (nonlinear_arith)
        requires
            q == n / d,
            r == n % d,
            d > 0,
    ;
    assert((q + 1) * d == q * d + d) by (nonlinear_arith);
}

/// A number of tenths shows the whole ones, a point and the tenths that are left.
pub proof fn law_tenths_stand_behind_the_point(whole: nat, tenths: nat)
    requires
        tenths < 10,
    ensures
        figures::tenths_shown(10 * whole + tenths) == text::decimal(whole) + "."@
            + text::decimal(tenths),
{
    assert((10 * whole + tenths) / 10 == whole && (10 * whole + tenths) % 10 == tenths);
}

// ---------------------------------------------------------------------------
// Doubles
// ---------------------------------------------------------------------------

/// What a double stands for, times `2^128`.
pub open spec fn worth(a: DoubleModel) -> nat {
    a.m * double::two_to(a.x)
}

proof fn lemma_spacing(a: nat, d: nat, y: nat)
    requires
        d > 0,
        y >= 52,
        d * double::two_to(y) <= a,
    ensures
        exists|x: nat|
            d * #[trigger] double::two_to(x + 52) <= a < d * double::two_to(x + 53),
    decreases a - d * double::two_to(y),
{
    let here = double::two_to(y);
    double::lemma_two_to_pos(y);
    assert(double::two_to(y + 1) == 2 * here);
    if a < d * double::two_to(y + 1) {
        let x = (y - 52) as nat;
        assert(double::two_to(x + 52) == here);
        assert(double::two_to(x + 53) == double::two_to(y + 1));
    } else {
        assert(d * (2 * here) > d * here) by (nonlinear_arith)
            requires
                d > 0,
                here > 0,
        ;
        lemma_spacing(a, d, y + 1);
    }
}

proof fn lemma_double_spaced(n: nat, d: nat)
    requires
        n > 0,
        d > 0,
        d * double::two_to(52) <= n * double::two_to(128),
    ensures
        double::binade(n, d, double::nearest_double(n, d).x),
{
    lemma_spacing(n * double::two_to(128), d, 52);
    let x = choose|x: nat|
        d * #[trigger] double::two_to(x + 52) <= n * double::two_to(128) < d * double::two_to(
            x + 53,
        );
    assert(double::binade(n, d, x));
}

/// A double is as near to its quotient as 53 bits allow.
pub proof fn law_double_is_near_its_quotient(n: nat, d: nat)
    requires
        n > 0,
        d > 0,
        d * double::two_to(52) <= n * double::two_to(128),
    ensures
        double::two_to(53) * apart(
            n * double::two_to(128),
            d * worth(double::nearest_double(n, d)),
        ) <= n * double::two_to(128),
{
    lemma_double_spaced(n, d);
    let r = double::nearest_double(n, d);
    let p = double::two_to(r.x);
    let a = n * double::two_to(128);
    let b = d * p;
    double::lemma_two_to_pos(r.x);
    double::lemma_two_to_add(r.x, 52);
    double::lemma_two_to_add(52, 1);
    assert(double::two_to(1) == 2) by {
        reveal_with_fuel(double::two_to, 2);
    }
    let c = double::two_to(52);
    assert(b > 0) by (nonlinear_arith)
        requires
            b == d * p,
            d > 0,
            p > 0,
    ;
    law_rounding_takes_the_nearest(a, b);
    assert(r.m * b == d * (r.m * p)) by (nonlinear_arith)
        requires
            b == d * p,
    ;
    let e = apart(a, r.m * b);
    assert(d * (p * c) == b * c) by (nonlinear_arith)
        requires
            b == d * p,
    ;
    assert((c * 2) * e <= b * c) by (nonlinear_arith)
        requires
            2 * e <= b,
            c >= 0,
    ;
}

/// A whole number below `2^53` is a double itself.
pub proof fn law_whole_numbers_are_exact(k: nat, d: nat)
    requires
        0 < k < double::two_to(53),
        d > 0,
    ensures
        worth(double::nearest_double(k * d, d)) == k * double::two_to(128),
{
    let n = k * d;
    let t = double::two_to(128);
    let c = double::two_to(52);
    double::lemma_two_to_mono(52, 128);
    assert(n > 0 && d * c <= n * t) by (nonlinear_arith)
        requires
            n == k * d,
            k > 0,
            d > 0,
            c <= t,
            c >= 0,
    ;
    lemma_double_spaced(n, d);
    let r = double::nearest_double(n, d);
    let x = r.x;
    let p = double::two_to(x);
    if x > 128 {
        double::lemma_two_to_mono(181, x + 52);
        double::lemma_two_to_add(53, 128);
        let big = double::two_to(x + 52);
        let limit = double::two_to(53);
        double::lemma_two_to_pos(128);
        assert(k * t < limit * t) by (nonlinear_arith)
            requires
                k < limit,
                t > 0,
        ;
        assert((k * d) * t == d * (k * t)) by (nonlinear_arith);
        assert(d * (k * t) < d * big) by (nonlinear_arith)
            requires
                k * t < big,
                d > 0,
        ;
        assert(n * t < d * big);
    } else {
        let s = double::two_to((128 - x) as nat);
        double::lemma_two_to_add((128 - x) as nat, x);
        double::lemma_two_to_pos(x);
        let b = d * p;
        assert(b > 0) by (nonlinear_arith)
            requires
                b == d * p,
                d > 0,
                p > 0,
        ;
        assert(n * t == (k * s) * b) by (nonlinear_arith)
            requires
                n == k * d,
                t == s * p,
                b == d * p,
        ;
        vstd::arithmetic::div_mod::lemma_fundamental_div_mod_converse(
            (n * t) as int,
            b as int,
            (k * s) as int,
            0,
        );
        assert(r.m == k * s);
        assert((k * s) * p == k * t) by (nonlinear_arith)
            requires
                t == s * p,
        ;
    }
}

proof fn lemma_apart_scaled(a: nat, b: nat, t: nat)
    ensures
        apart(a * t, b * t) == apart(a, b) * t,
{
    if a < b {
        let gap = (b - a) as nat;
        assert(b * t == a * t + gap * t) by (nonlinear_arith)
            requires
                b == a + gap,
        ;
        assert(gap * t >= 0) by (nonlinear_arith);
    } else {
        let gap = (a - b) as nat;
        assert(a * t == b * t + gap * t) by (nonlinear_arith)
            requires
                a == b + gap,
        ;
        assert(gap * t >= 0) by (nonlinear_arith);
    }
}

proof fn lemma_seconds(ms: nat)
    requires
        0 < ms < double::two_to(53),
    ensures
        figures::seconds_of(ms) == double::nearest_double(
            ms * double::two_to(128),
            1000 * double::two_to(128),
        ),
        apart(ms * double::two_to(128), 1000 * worth(figures::seconds_of(ms))) < double::two_to(
            128,
        ),
        double::two_to(128) > 0,
{
    let t = double::two_to(128);
    double::lemma_two_to_values();
    double::lemma_two_to_pos(128);
    double::lemma_two_to_add(64, 64);
    law_whole_numbers_are_exact(ms, 1);
    law_whole_numbers_are_exact(1000, 1);
    let n = ms * t;
    let d = 1000 * t;
    let c = double::two_to(52);
    assert((1000 * t) * c == t * (1000 * c)) by (nonlinear_arith);
    assert(t * (1000 * c) <= t * t) by (nonlinear_arith)
        requires
            1000 * c <= t,
            t > 0,
    ;
    assert(ms * t >= t) by (nonlinear_arith)
        requires
            ms > 0,
            t > 0,
    ;
    assert(t * t <= n * t) by (nonlinear_arith)
        requires
            t <= n,
            t > 0,
    ;
    assert(n > 0 && d * c <= n * t);
    law_double_is_near_its_quotient(n, d);
    let w = worth(double::nearest_double(n, d));
    let f = double::two_to(53);
    let e = apart(n, 1000 * w);
    assert(d * w == (1000 * w) * t) by (nonlinear_arith)
        requires
            d == 1000 * t,
    ;
    lemma_apart_scaled(n, 1000 * w, t);
    assert(apart(n * t, d * w) == e * t);
    assert(f * e <= n) by (nonlinear_arith)
        requires
            f * (e * t) <= n * t,
            t > 0,
    ;
    assert(e < t) by (nonlinear_arith)
        requires
            f * e <= ms * t,
            ms < f,
            t > 0,
            e >= 0,
            n == ms * t,
    ;
}

/// Seconds are shown to the nearest tenth: what is shown is off by no more than
/// fifty milliseconds. The times for which this is stated are those below `2^53`
/// milliseconds, which doubles count one by one.
pub proof fn law_seconds_are_shown_to_a_tenth(ms: nat)
    requires
        ms < double::two_to(53),
    ensures
        exists|tenths: nat|
            figures::seconds_shown(ms) == #[trigger] figures::tenths_shown(tenths) && apart(
                ms,
                100 * tenths,
            ) <= 50,
{
    if ms == 0 {
        assert(figures::seconds_shown(ms) == figures::tenths_shown(0));
    } else {
        lemma_seconds(ms);
        let t = double::two_to(128);
        let s = figures::seconds_of(ms);
        let w = worth(s);
        let tenths = double::scaled_whole(s, 10);
        assert(s.m * 10 * double::two_to(s.x) == 10 * w) by (nonlinear_arith)
            requires
                w == s.m * double::two_to(s.x),
        ;
        law_rounding_takes_the_nearest(10 * w, t);
        lemma_off_by_fifty(ms, w, tenths, t);
        assert(figures::seconds_shown(ms) == figures::tenths_shown(tenths));
    }
}

proof fn lemma_off_by_fifty(ms: nat, w: nat, tenths: nat, t: nat)
    requires
        t > 0,
        apart(ms * t, 1000 * w) < t,
        2 * apart(10 * w, tenths * t) <= t,
    ensures
        apart(ms, 100 * tenths) <= 50,
{
    if ms > 100 * tenths + 50 {
        assert(ms * t >= (100 * tenths + 51) * t) by (nonlinear_arith)
            requires
                ms >= 100 * tenths + 51,
                t > 0,
        ;
        assert((100 * tenths + 51) * t == 100 * (tenths * t) + 51 * t) by (nonlinear_arith);
    }
    if ms + 50 < 100 * tenths {
        assert((ms + 51) * t <= (100 * tenths) * t) by (nonlinear_arith)
            requires
                ms + 51 <= 100 * tenths,
                t > 0,
        ;
        assert((ms + 51) * t == ms * t + 51 * t) by (nonlinear_arith);
        assert((100 * tenths) * t == 100 * (tenths * t)) by (nonlinear_arith);
    }
}

/// A time on the axis shows whole minutes from the first one on, and the seconds
/// that are left to the nearest tenth.
pub proof fn law_axis_shows_minutes_and_seconds(minutes: nat, rest: nat)
    requires
        rest < 60_000,
        60_000 * minutes + rest < double::two_to(53),
    ensures
        ({
            let shown = figures::axis_time_shown(60_000 * minutes + rest);
            exists|tenths: nat| #[trigger]
                figures::tenths_shown(tenths).len() > 0 && apart(rest, 100 * tenths) <= 50
                    && shown == if minutes == 0 {
                    figures::tenths_shown(tenths) + "s"@
                } else {
                    text::decimal(minutes) + "m "@ + text::two_digits(tenths / 10) + "."@ + seq![
                        text::digit(tenths % 10),
                    ] + "s"@
                }
        }),
{
    let ms = 60_000 * minutes + rest;
    if ms == 0 {
        assert(figures::tenths_shown(0).len() > 0);
        assert(apart(0, 100 * 0nat) <= 50);
    } else {
        lemma_seconds(ms);
        let t = double::two_to(128);
        let s = figures::seconds_of(ms);
        let w = worth(s);
        let minute = figures::minute_scaled();
        assert(minute == 60 * t);
        assert(ms * t == 60_000 * (minutes * t) + rest * t) by (nonlinear_arith)
            requires
                ms == 60_000 * minutes + rest,
        ;
        if rest == 0 {
            lemma_whole_seconds(60 * minutes);
            assert((60 * minutes) * t == 60 * (minutes * t)) by (nonlinear_arith);
            assert(w == 60 * (minutes * t));
        } else {
            assert(rest * t >= t && (rest + 1) * t <= 60_000 * t) by (nonlinear_arith)
                requires
                    1 <= rest < 60_000,
                    t > 0,
            ;
            assert((rest + 1) * t == rest * t + t) by (nonlinear_arith);
            assert(60 * (minutes * t) <= w);
        }
        if rest == 0 {
            assert(w < 60 * (minutes * t) + 60 * t);
        }
        let left = (w - 60 * (minutes * t)) as nat;
        assert(left < minute);
        assert(w == minutes * minute + left) by (nonlinear_arith)
            requires
                minute == 60 * t,
                left == w - 60 * (minutes * t),
        ;
        vstd::arithmetic::div_mod::lemma_fundamental_div_mod_converse(
            w as int,
            minute as int,
            minutes as int,
            left as int,
        );
        assert(apart(rest * t, 1000 * left) < t);
        let tenths = double::half_even(10 * left, t);
        law_rounding_takes_the_nearest(10 * left, t);
        lemma_off_by_fifty(rest, left, tenths, t);
        assert(minutes == 0 <==> w < minute) by (nonlinear_arith)
            requires
                w == minutes * minute + left,
                left < minute,
                left >= 0,
        ;
        assert(figures::tenths_shown(tenths).len() > 0) by {
            text::lemma_decimal_nonempty(tenths / 10);
        }
    }
}

proof fn lemma_whole_seconds(seconds: nat)
    requires
        0 < seconds,
        1000 * seconds < double::two_to(53),
    ensures
        worth(figures::seconds_of(1000 * seconds)) == seconds * double::two_to(128),
{
    let t = double::two_to(128);
    lemma_seconds(1000 * seconds);
    let d = 1000 * t;
    assert((1000 * seconds) * t == seconds * d) by (nonlinear_arith)
        requires
            d == 1000 * t,
    ;
    law_whole_numbers_are_exact(seconds, d);
}

/// As many things as a number of seconds times a rate are shown as that rate.
pub proof fn law_rate_is_things_per_second(rate: nat, seconds: nat)
    requires
        0 < rate,
        0 < seconds,
        1000 * seconds < double::two_to(53),
        rate * seconds < double::two_to(53),
    ensures
        figures::per_second_shown(rate * seconds, 1000 * seconds) == text::decimal(rate),
{
    let t = double::two_to(128);
    double::lemma_two_to_pos(128);
    let count = rate * seconds;
    assert(count > 0 && rate <= count) by (nonlinear_arith)
        requires
            count == rate * seconds,
            rate > 0,
            seconds > 0,
    ;
    law_whole_numbers_are_exact(count, 1);
    lemma_whole_seconds(seconds);
    let d = seconds * t;
    assert(d > 0) by (nonlinear_arith)
        requires
            d == seconds * t,
            seconds > 0,
            t > 0,
    ;
    assert(count * t == rate * d) by (nonlinear_arith)
        requires
            count == rate * seconds,
            d == seconds * t,
    ;
    law_whole_numbers_are_exact(rate, d);
    let q = double::nearest_double(rate * d, d);
    assert(q.m * 1 * double::two_to(q.x) == worth(q)) by (nonlinear_arith)
        requires
            worth(q) == q.m * double::two_to(q.x),
    ;
    vstd::arithmetic::div_mod::lemma_fundamental_div_mod_converse(
        (rate * t) as int,
        t as int,
        rate as int,
        0,
    );
    assert(double::scaled_whole(q, 1) == rate);
}

} // verus!
