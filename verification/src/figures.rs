//! Sizes, durations and rates as text.

use vstd::prelude::*;

use crate::double;
use crate::double::{divide, from_whole, print_scaled, round_half_even, Double, DoubleModel};
use crate::text;
use crate::text::{concat, decimal_text, two_digit_text};

verus! {

broadcast use vstd::string::group_string_axioms;

/// A number of tenths, with a point before the last digit.
pub open spec fn tenths_shown(t: nat) -> Seq<char> {
    text::decimal(t / 10) + "."@ + seq![text::digit(t % 10)]
}

/// A number of tenths, with a point before the last digit.
pub fn tenths_text(t: u128) -> (r: String)
    ensures
        r@ == tenths_shown(t as nat),
{
    let mut s: String = concat(decimal_text(t / 10).as_str(), ".");
    let d: u8 = (t % 10) as u8;
    let ghost head = s@;
    s.push((48u8 + d) as char);
    assert(s@ =~= head + seq![text::digit(t as nat % 10)]);
    s
}

// ---------------------------------------------------------------------------
// Sizes
// ---------------------------------------------------------------------------

/// How often a size can be divided by 1024, up to four times.
pub open spec fn size_step(bytes: nat) -> nat {
    if bytes < 0x400 {
        0
    } else if bytes < 0x10_0000 {
        1
    } else if bytes < 0x4000_0000 {
        2
    } else if bytes < 0x100_0000_0000 {
        3
    } else {
        4
    }
}

/// The size of a unit.
pub open spec fn unit_size(step: nat) -> nat {
    if step == 0 {
        1
    } else if step == 1 {
        0x400
    } else if step == 2 {
        0x10_0000
    } else if step == 3 {
        0x4000_0000
    } else {
        0x100_0000_0000
    }
}

/// The name of a unit, with the space before it.
pub open spec fn unit_name(step: nat) -> Seq<char> {
    if step == 0 {
        " B"@
    } else if step == 1 {
        " KB"@
    } else if step == 2 {
        " MB"@
    } else if step == 3 {
        " GB"@
    } else {
        " TB"@
    }
}

/// A size in the largest unit that it fills, to one decimal (ties to even);
/// bytes are shown whole. This is the format that this library gives to sizes;
/// no standard fixes it.
pub open spec fn bytes_shown(bytes: nat) -> Seq<char> {
    let step = size_step(bytes);
    if step == 0 {
        text::decimal(bytes) + unit_name(0)
    } else {
        tenths_shown(double::half_even(bytes * 10, unit_size(step))) + unit_name(step)
    }
}

/// A size as text.
pub fn fmt_bytes(bytes: u64) -> (r: String)
    ensures
        r@ == bytes_shown(bytes as nat),
{
    if bytes < 0x400 {
        return concat(decimal_text(bytes as u128).as_str(), " B");
    }
    let tenfold: u128 = bytes as u128 * 10;
    if bytes < 0x10_0000 {
        concat(tenths_text(round_half_even(tenfold, 0x400)).as_str(), " KB")
    } else if bytes < 0x4000_0000 {
        concat(tenths_text(round_half_even(tenfold, 0x10_0000)).as_str(), " MB")
    } else if bytes < 0x100_0000_0000 {
        concat(tenths_text(round_half_even(tenfold, 0x4000_0000)).as_str(), " GB")
    } else {
        concat(tenths_text(round_half_even(tenfold, 0x100_0000_0000)).as_str(), " TB")
    }
}

// ---------------------------------------------------------------------------
// Durations
// ---------------------------------------------------------------------------

/// A number of milliseconds in seconds, in double precision.
pub open spec fn seconds_of(ms: nat) -> DoubleModel {
    double::quotient(double::nearest_double(ms, 1), double::nearest_double(1000, 1))
}

/// A number of milliseconds in seconds, in double precision.
fn seconds(ms: u64) -> (r: Double)
    requires
        ms > 0,
    ensures
        r@ == seconds_of(ms as nat),
        0x10_0000_0000_0000 <= r.m <= 0x20_0000_0000_0000,
        64 <= r.x <= 131,
{
    let a: Double = from_whole(ms);
    let b: Double = from_whole(1000);
    proof {
        lemma_thousand(b.x as nat);
    }
    divide(a, b)
}

/// A thousand lies in the binade of 512.
proof fn lemma_thousand(x: nat)
    requires
        double::binade(1000, 1, x),
    ensures
        x == 85,
{
    double::lemma_two_to_add(128, 9);
    double::lemma_two_to_add(128, 10);
    reveal_with_fuel(double::two_to, 11);
    assert(double::two_to(9) == 512);
    assert(double::two_to(10) == 1024);
    double::lemma_two_to_pos(128);
    assert(double::binade(1000, 1, 85)) by {
        assert(85nat + 52 == 128nat + 9);
        assert(85nat + 53 == 128nat + 10);
        assert(1 * double::two_to(137) == double::two_to(137));
        assert(1 * double::two_to(138) == double::two_to(138));
    }
    double::lemma_binade_unique(1000, 1, x, 85);
}

/// A number of milliseconds in seconds, to one decimal.
pub open spec fn seconds_shown(ms: nat) -> Seq<char> {
    if ms == 0 {
        tenths_shown(0)
    } else {
        tenths_shown(double::scaled_whole(seconds_of(ms), 10))
    }
}

/// A number of milliseconds in seconds, to one decimal.
pub fn seconds_text(ms: u64) -> (r: String)
    ensures
        r@ == seconds_shown(ms as nat),
{
    if ms == 0 {
        tenths_text(0)
    } else {
        tenths_text(print_scaled(seconds(ms), 10))
    }
}

/// How many of `count` things a second sees that took `ms` milliseconds, as a
/// whole number.
pub open spec fn per_second_shown(count: nat, ms: nat) -> Seq<char> {
    if count == 0 {
        text::decimal(0)
    } else {
        text::decimal(
            double::scaled_whole(
                double::quotient(double::nearest_double(count, 1), seconds_of(ms)),
                1,
            ),
        )
    }
}

/// How many of `count` things a second sees that took `ms` milliseconds.
pub fn per_second_text(count: u64, ms: u64) -> (r: String)
    requires
        ms > 0,
    ensures
        r@ == per_second_shown(count as nat, ms as nat),
{
    if count == 0 {
        return decimal_text(0);
    }
    let a: Double = from_whole(count);
    let b: Double = seconds(ms);
    decimal_text(print_scaled(divide(a, b), 1))
}

/// Sixty seconds, as doubles are scaled.
pub open spec fn minute_scaled() -> nat {
    60 * double::two_to(128)
}

/// A time on the axis of the speed history: seconds to one decimal, from a
/// minute on with the whole minutes before them and the seconds in two digits.
pub open spec fn axis_time_shown(ms: nat) -> Seq<char> {
    if ms == 0 {
        tenths_shown(0) + "s"@
    } else {
        let d = seconds_of(ms);
        let value = d.m * double::two_to(d.x);
        if value < minute_scaled() {
            tenths_shown(double::half_even(10 * value, double::two_to(128))) + "s"@
        } else {
            let t = double::half_even(10 * (value % minute_scaled()), double::two_to(128));
            text::decimal(value / minute_scaled()) + "m "@ + text::two_digits(t / 10) + "."@
                + seq![text::digit(t % 10)] + "s"@
        }
    }
}

/// The digits of a double: `10 * m * 2^x` in units of `2^128`, with the whole
/// minutes split off. `unit` is `2^128` over the common power of two.
proof fn lemma_split_minutes(m: nat, x: nat, top: nat, unit: nat, k: nat)
    requires
        m * double::two_to(x) == top * k,
        double::two_to(128) == unit * k,
        k > 0,
        unit > 0,
    ensures
        (m * double::two_to(x) < minute_scaled()) == (top < 60 * unit),
        (m * double::two_to(x)) / minute_scaled() == top / (60 * unit),
        double::half_even(10 * ((m * double::two_to(x)) % minute_scaled()), double::two_to(128))
            == double::half_even(10 * (top % (60 * unit)), unit),
        double::half_even(10 * (m * double::two_to(x)), double::two_to(128))
            == double::half_even(10 * top, unit),
{
    let value = m * double::two_to(x);
    let minute = 60 * unit;
    assert(minute_scaled() == minute * k) by (nonlinear_arith)
        requires
            minute_scaled() == 60 * double::two_to(128),
            double::two_to(128) == unit * k,
            minute == 60 * unit,
    ;
    assert((top * k < minute * k) == (top < minute)) by (nonlinear_arith)
        requires
            k > 0,
    ;
    let q = top / minute;
    let r = top % minute;
    assert(top == q * minute + r) by (nonlinear_arith)
        requires
            q == top / minute,
            r == top % minute,
            minute > 0,
    ;
    assert(top * k == q * (minute * k) + r * k) by (nonlinear_arith)
        requires
            top == q * minute + r,
    ;
    assert(0 <= r * k < minute * k) by (nonlinear_arith)
        requires
            0 <= r < minute,
            k > 0,
    ;
    vstd::arithmetic::div_mod::lemma_fundamental_div_mod_converse(
        (top * k) as int,
        (minute * k) as int,
        q as int,
        (r * k) as int,
    );
    assert(10 * (r * k) == (10 * r) * k) by (nonlinear_arith);
    assert(10 * (top * k) == (10 * top) * k) by (nonlinear_arith);
    double::lemma_half_even_scale(10 * r, unit, k);
    double::lemma_half_even_scale(10 * top, unit, k);
}

/// A time on the axis of the speed history.
pub fn format_summary_elapsed_seconds(elapsed_ms: u64) -> (r: String)
    ensures
        r@ == axis_time_shown(elapsed_ms as nat),
{
    if elapsed_ms == 0 {
        return concat(tenths_text(0).as_str(), "s");
    }
    let d: Double = seconds(elapsed_ms);
    let mut top: u128 = d.m as u128;
    let mut unit: u128 = 1;
    let mut x: u32 = d.x;
    let ghost mut p: nat = 0;
    let ghost mut q: nat = 0;
    assert(d.m as nat * 1 == d.m as nat);
    while x > 128
        invariant
            top == d.m as nat * double::two_to(p),
            x + p == d.x,
            x >= 128 || p == 0,
            d.x <= 131,
            d.m <= 0x20_0000_0000_0000,
            p <= 3,
            unit == 1,
            q == 0,
            top <= 0x20_0000_0000_0000 * 8,
        decreases x,
    {
        proof {
            let t = double::two_to(p);
            assert(double::two_to(p + 1) == 2 * t);
            let m = d.m as nat;
            assert(m * (2 * t) == 2 * (m * t)) by (nonlinear_arith);
            reveal_with_fuel(double::two_to, 5);
            double::lemma_two_to_mono(p, 2);
            assert(double::two_to(2) == 4);
            assert(m * t <= 0x20_0000_0000_0000 * 4) by (nonlinear_arith)
                requires
                    m <= 0x20_0000_0000_0000,
                    t <= 4,
            ;
            p = p + 1;
        }
        top = top * 2;
        x = x - 1;
    }
    while x < 128
        invariant
            top == d.m as nat * double::two_to(p),
            x + p == d.x + q,
            x <= 128,
            q > 0 ==> p == 0,
            p > 0 ==> x == 128,
            64 <= d.x,
            p <= 3,
            q <= 64,
            unit == double::two_to(q),
            unit <= 0x1_0000_0000_0000_0000,
            top <= 0x20_0000_0000_0000 * 8,
        decreases 128 - x,
    {
        proof {
            assert(double::two_to(q + 1) == 2 * double::two_to(q));
            double::lemma_two_to_mono(q, 63);
            double::lemma_two_to_values();
            double::lemma_two_to_add(63, 1);
            reveal_with_fuel(double::two_to, 2);
            q = q + 1;
        }
        unit = unit * 2;
        x = x + 1;
    }
    proof {
        let k = double::two_to((128 - q) as nat);
        double::lemma_two_to_pos((128 - q) as nat);
        double::lemma_two_to_pos(q);
        double::lemma_two_to_add(q, (128 - q) as nat);
        double::lemma_two_to_add(p, (128 - q) as nat);
        assert(p + (128 - q) as nat == d.x);
        let m = d.m as nat;
        let t = double::two_to(p);
        assert((m * t) * k == m * (t * k)) by (nonlinear_arith);
        lemma_split_minutes(m, d.x as nat, top as nat, unit as nat, k);
    }
    let minute: u128 = 60 * unit;
    if top < minute {
        return concat(tenths_text(round_half_even(10 * top, unit)).as_str(), "s");
    }
    let minutes: u128 = top / minute;
    let rest: u128 = top % minute;
    let t: u128 = round_half_even(10 * rest, unit);
    proof {
        lemma_at_most_sixty(rest as nat, unit as nat);
    }
    let mut s: String = concat(decimal_text(minutes).as_str(), "m ");
    s.append(two_digit_text((t / 10) as u64).as_str());
    s.append(".");
    let digit: u8 = (t % 10) as u8;
    let ghost head = s@;
    s.push((48u8 + digit) as char);
    assert(s@ =~= head + seq![text::digit(t as nat % 10)]);
    s.append("s");
    s
}

/// Less than a minute rounds to at most sixty seconds.
proof fn lemma_at_most_sixty(rest: nat, unit: nat)
    requires
        unit > 0,
        rest < 60 * unit,
    ensures
        double::half_even(10 * rest, unit) <= 600,
{
    let q = (10 * rest) / unit;
    assert(q < 600) by (nonlinear_arith)
        requires
            unit > 0,
            rest < 60 * unit,
            q == (10 * rest) / unit,
    ;
}

} // verus!
