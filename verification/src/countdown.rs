//! Reset countdowns: the compact two-unit text shown next to each usage
//! window, and how long that text stays unchanged.

use vstd::prelude::*;
use vstd::arithmetic::div_mod::{lemma_div_denominator, lemma_mod_breakdown, lemma_fundamental_div_mod};
use crate::clock::{UnixTime, now_unix_time};
use crate::text::{nat_option, decimal, push_char, push_decimal, is_ascii_digit, lemma_decimal_digits, lemma_decimal_injective, lemma_digits_then_separator};

verus! {

pub const SECS_PER_MINUTE: u64 = 60;
pub const SECS_PER_HOUR: u64 = 3_600;
pub const SECS_PER_DAY: u64 = 86_400;

/// `primary` with its unit, followed by `secondary` with its unit unless it is zero.
pub open spec fn two_units_text(primary: nat, primary_suffix: char, secondary: nat, secondary_suffix: char) -> Seq<char> {
    if secondary == 0 {
        decimal(primary).push(primary_suffix)
    } else {
        decimal(primary).push(primary_suffix) + decimal(secondary).push(secondary_suffix)
    }
}

/// Countdown text for `total` remaining seconds: days and hours from one day
/// on, hours and minutes from one hour on, minutes and seconds from one
/// minute on, and plain seconds below that.
pub open spec fn countdown_text(total: nat) -> Seq<char> {
    if total >= 86_400 {
        two_units_text(total / 86_400, 'd', total % 86_400 / 3_600, 'h')
    } else if total >= 3_600 {
        two_units_text(total / 3_600, 'h', total % 3_600 / 60, 'm')
    } else if total >= 60 {
        two_units_text(total / 60, 'm', total % 60, 's')
    } else {
        decimal(total).push('s')
    }
}

/// The last remaining-seconds value at which the countdown text still reads
/// as it does for `total`: the start of the current hour from one day on, of
/// the current minute from one hour on, and `total` itself below that.
pub open spec fn display_bucket(total: nat) -> nat {
    if total >= 86_400 {
        total / 3_600 * 3_600
    } else if total >= 3_600 {
        total / 60 * 60
    } else {
        total
    }
}

/// Seconds to wait before the countdown text for `total` changes.
pub open spec fn display_change_delay(total: nat) -> nat {
    (total - display_bucket(total)) as nat + 1
}

/// Whole seconds from `now` until `reset`, or `None` once `reset` has passed.
pub open spec fn seconds_until_spec(reset: nat, now: UnixTime) -> Option<nat> {
    if reset > now.secs {
        if now.nanos == 0 {
            Some((reset - now.secs) as nat)
        } else {
            Some((reset - now.secs - 1) as nat)
        }
    } else if reset == now.secs && now.nanos == 0 {
        Some(0)
    } else {
        None
    }
}

/// Renders one or two countdown units.
pub fn format_two_units(primary: u64, primary_suffix: char, secondary: u64, secondary_suffix: char) -> (s: String)
    ensures
        s@ == two_units_text(primary as nat, primary_suffix, secondary as nat, secondary_suffix),
{
    let mut s = String::new();
    push_decimal(&mut s, primary);
    push_char(&mut s, primary_suffix);
    if secondary != 0 {
        push_decimal(&mut s, secondary);
        push_char(&mut s, secondary_suffix);
    }
    s
}

/// Countdown text for `total` remaining seconds, e.g. `4d17h`, `25m49s`, `49s`.
pub fn format_countdown_from_secs(total: u64) -> (s: String)
    ensures
        s@ == countdown_text(total as nat),
{
    if total >= SECS_PER_DAY {
        format_two_units(total / SECS_PER_DAY, 'd', total % SECS_PER_DAY / SECS_PER_HOUR, 'h')
    } else if total >= SECS_PER_HOUR {
        format_two_units(total / SECS_PER_HOUR, 'h', total % SECS_PER_HOUR / SECS_PER_MINUTE, 'm')
    } else if total >= SECS_PER_MINUTE {
        format_two_units(total / SECS_PER_MINUTE, 'm', total % SECS_PER_MINUTE, 's')
    } else {
        let mut s = String::new();
        push_decimal(&mut s, total);
        push_char(&mut s, 's');
        s
    }
}

/// Seconds until the countdown text for `total` remaining seconds changes.
pub fn display_change_delay_from_secs(total: u64) -> (delay: u64)
    ensures
        delay == display_change_delay(total as nat),
        1 <= delay <= 3_600,
{
    let bucket = if total >= SECS_PER_DAY {
        total / SECS_PER_HOUR * SECS_PER_HOUR
    } else if total >= SECS_PER_HOUR {
        total / SECS_PER_MINUTE * SECS_PER_MINUTE
    } else {
        total
    };
    proof {
        lemma_fundamental_div_mod(total as int, 3_600);
        lemma_fundamental_div_mod(total as int, 60);
    }
    total.saturating_sub(bucket) + 1
}

/// Whole seconds from `now` until `reset` (Unix seconds), or `None` once the
/// reset time has passed.
pub fn seconds_until(reset: u64, now: UnixTime) -> (remaining: Option<u64>)
    requires
        now.wf(),
    ensures
        nat_option(remaining) == seconds_until_spec(reset as nat, now),
        remaining is Some ==> remaining->0 <= reset,
{
    if reset > now.secs {
        if now.nanos == 0 {
            Some(reset - now.secs)
        } else {
            Some(reset - now.secs - 1)
        }
    } else if reset == now.secs && now.nanos == 0 {
        Some(0)
    } else {
        None
    }
}

/// How long the countdown for `resets_at` stays unchanged when read at `now`.
pub open spec fn display_change_delay_at_spec(resets_at: Option<u64>, now: UnixTime) -> Option<nat> {
    match resets_at {
        None => None,
        Some(reset) => match seconds_until_spec(reset as nat, now) {
            None => None,
            Some(total) => Some(display_change_delay(total)),
        },
    }
}

/// Delay before the countdown for `resets_at` changes, read at `now`.
pub fn display_change_delay_at(resets_at: Option<u64>, now: UnixTime) -> (delay: Option<u64>)
    requires
        now.wf(),
    ensures
        nat_option(delay) == display_change_delay_at_spec(resets_at, now),
{
    match resets_at {
        None => None,
        Some(reset) => match seconds_until(reset, now) {
            None => None,
            Some(total) => Some(display_change_delay_from_secs(total)),
        },
    }
}

/// Seconds until the countdown for `resets_at` next changes, measured from
/// the current time; `None` when there is no reset time or it has passed.
pub fn time_until_display_change(resets_at: Option<u64>) -> (delay: Option<u64>)
    ensures
        exists|now: UnixTime| now.wf() && nat_option(delay) == display_change_delay_at_spec(resets_at, now),
        resets_at is None ==> delay is None,
{
    let now = now_unix_time();
    display_change_delay_at(resets_at, now)
}

/// Countdown text for `resets_at` read at `now`: empty without a reset time,
/// `now_text` once it has passed.
pub open spec fn countdown_at_spec(resets_at: Option<u64>, now_text: Seq<char>, now: UnixTime) -> Seq<char> {
    match resets_at {
        None => Seq::empty(),
        Some(reset) => match seconds_until_spec(reset as nat, now) {
            None => now_text,
            Some(total) => countdown_text(total),
        },
    }
}

/// Countdown text for `resets_at` read at `now`.
pub fn format_countdown_at(resets_at: Option<u64>, now_text: &str, now: UnixTime) -> (s: String)
    requires
        now.wf(),
    ensures
        s@ == countdown_at_spec(resets_at, now_text@, now),
{
    match resets_at {
        None => String::new(),
        Some(reset) => match seconds_until(reset, now) {
            None => String::from_str(now_text),
            Some(total) => format_countdown_from_secs(total),
        },
    }
}

/// Countdown text for `resets_at` measured from the current time.
pub fn format_countdown(resets_at: Option<u64>, now_text: &str) -> (s: String)
    ensures
        exists|now: UnixTime| now.wf() && s@ == countdown_at_spec(resets_at, now_text@, now),
        resets_at is None ==> s@ == Seq::<char>::empty(),
{
    let now = now_unix_time();
    format_countdown_at(resets_at, now_text, now)
}

/// One usage row's text: the percentage, followed by ` · ` and the
/// countdown when there is a countdown.
pub open spec fn usage_line_spec(percent_text: Seq<char>, countdown: Seq<char>) -> Seq<char> {
    if countdown.len() == 0 {
        percent_text
    } else {
        percent_text + " · "@ + countdown
    }
}

/// The text of one usage row from its formatted percentage and countdown.
pub fn usage_line(percent_text: &str, countdown: &str) -> (line: String)
    ensures
        line@ == usage_line_spec(percent_text@, countdown@),
{
    let mut line = String::from_str(percent_text);
    if !countdown.is_empty() {
        line.append(" · ");
        line.append(countdown);
    }
    line
}

proof fn lemma_two_levels(x: nat, y: nat, z: nat)
    requires
        y > 0,
        z > 0,
    ensures
        x / (y * z) == x / y / z,
        x % (y * z) / y == (x / y) % z,
{
    lemma_div_denominator(x as int, y as int, z as int);
    lemma_mod_breakdown(x as int, y as int, z as int);
    lemma_fundamental_div_mod(x as int, y as int);
    let q = (x / y) % z;
    let r = x % y;
    assert(x % (y * z) == y * q + r);
    vstd::arithmetic::div_mod::lemma_div_multiples_vanish_fancy(q as int, r as int, y as int);
}

/// The countdown text does not change while fewer seconds than the scheduled
/// delay have elapsed: for every `elapsed` below `display_change_delay(total)`,
/// the text at `total - elapsed` equals the text at `total`.
pub proof fn lemma_countdown_stable_until_delay(total: nat, elapsed: nat)
    requires
        elapsed < display_change_delay(total),
    ensures
        elapsed <= total,
        countdown_text((total - elapsed) as nat) == countdown_text(total),
{
    let t = (total - elapsed) as nat;
    if total >= 86_400 {
        vstd::arithmetic::div_mod::lemma_fundamental_div_mod(total as int, 3_600);
        assert(t / 3_600 == total / 3_600) by {
            let q = total / 3_600;
            assert(q * 3_600 <= t);
            assert(t < q * 3_600 + 3_600);
            vstd::arithmetic::div_mod::lemma_fundamental_div_mod(t as int, 3_600);
            vstd::arithmetic::mul::lemma_mul_is_commutative(q as int, 3_600);
        }
        lemma_two_levels(t, 3_600, 24);
        lemma_two_levels(total, 3_600, 24);
        assert(t >= 86_400);
    } else if total >= 3_600 {
        vstd::arithmetic::div_mod::lemma_fundamental_div_mod(total as int, 60);
        assert(t / 60 == total / 60) by {
            let q = total / 60;
            assert(q * 60 <= t);
            assert(t < q * 60 + 60);
            vstd::arithmetic::div_mod::lemma_fundamental_div_mod(t as int, 60);
        }
        lemma_two_levels(t, 60, 60);
        lemma_two_levels(total, 60, 60);
        assert(t >= 3_600);
    } else {
        assert(elapsed == 0);
    }
}

/// What follows the first unit of a two-unit text.
spec fn second_unit(secondary: nat, secondary_suffix: char) -> Seq<char> {
    if secondary == 0 {
        Seq::empty()
    } else {
        decimal(secondary) + seq![secondary_suffix]
    }
}

/// A two-unit text determines its numbers and its first unit.
proof fn lemma_two_units_injective(p1: nat, a1: char, s1: nat, b1: char, p2: nat, a2: char, s2: nat, b2: char)
    requires
        !is_ascii_digit(a1),
        !is_ascii_digit(a2),
        !is_ascii_digit(b1),
        !is_ascii_digit(b2),
        two_units_text(p1, a1, s1, b1) == two_units_text(p2, a2, s2, b2),
    ensures
        p1 == p2,
        a1 == a2,
        s1 == s2,
{
    lemma_decimal_digits(p1);
    lemma_decimal_digits(p2);
    lemma_decimal_digits(s1);
    lemma_decimal_digits(s2);
    assert(two_units_text(p1, a1, s1, b1) =~= decimal(p1) + seq![a1] + second_unit(s1, b1));
    assert(two_units_text(p2, a2, s2, b2) =~= decimal(p2) + seq![a2] + second_unit(s2, b2));
    lemma_digits_then_separator(decimal(p1), a1, second_unit(s1, b1), decimal(p2), a2, second_unit(s2, b2));
    lemma_decimal_injective(p1, p2);
    if s1 != 0 && s2 != 0 {
        assert(second_unit(s1, b1) =~= decimal(s1) + seq![b1] + Seq::<char>::empty());
        assert(second_unit(s2, b2) =~= decimal(s2) + seq![b2] + Seq::<char>::empty());
        lemma_digits_then_separator(decimal(s1), b1, Seq::empty(), decimal(s2), b2, Seq::empty());
        lemma_decimal_injective(s1, s2);
    } else if s1 != 0 || s2 != 0 {
        assert(second_unit(s1, b1).len() != second_unit(s2, b2).len());
    }
}

/// The countdown text changes exactly when the scheduled delay has passed:
/// with `display_change_delay(total)` seconds elapsed (and no further than
/// zero), the text differs from the text at `total`.
pub proof fn lemma_countdown_changes_at_delay(total: nat)
    requires
        display_change_delay(total) <= total,
    ensures
        countdown_text((total - display_change_delay(total)) as nat) != countdown_text(total),
{
    let t = (total - display_change_delay(total)) as nat;
    if countdown_text(t) == countdown_text(total) {
        if total >= 86_400 {
            let h = total / 3_600;
            assert(t == h * 3_600 - 1);
            assert(total / 86_400 == h / 24 && total % 86_400 / 3_600 == h % 24) by {
                lemma_two_levels(total, 3_600, 24);
            }
            if t >= 86_400 {
                assert(t / 3_600 == h - 1);
                assert(t / 86_400 == (h - 1) / 24 && t % 86_400 / 3_600 == (h - 1) % 24) by {
                    lemma_two_levels(t, 3_600, 24);
                }
                lemma_two_units_injective(t / 86_400, 'd', t % 86_400 / 3_600, 'h', total / 86_400, 'd', total % 86_400 / 3_600, 'h');
            } else {
                lemma_two_units_injective(t / 3_600, 'h', t % 3_600 / 60, 'm', total / 86_400, 'd', total % 86_400 / 3_600, 'h');
            }
        } else if total >= 3_600 {
            let m = total / 60;
            assert(t == m * 60 - 1);
            assert(total / 3_600 == m / 60 && total % 3_600 / 60 == m % 60) by {
                lemma_two_levels(total, 60, 60);
            }
            if t >= 3_600 {
                assert(t / 60 == m - 1);
                assert(t / 3_600 == (m - 1) / 60 && t % 3_600 / 60 == (m - 1) % 60) by {
                    lemma_two_levels(t, 60, 60);
                }
                lemma_two_units_injective(t / 3_600, 'h', t % 3_600 / 60, 'm', total / 3_600, 'h', total % 3_600 / 60, 'm');
            } else {
                lemma_two_units_injective(t / 60, 'm', t % 60, 's', total / 3_600, 'h', total % 3_600 / 60, 'm');
            }
        } else if total >= 60 {
            assert(t == total - 1);
            if t >= 60 {
                lemma_two_units_injective(t / 60, 'm', t % 60, 's', total / 60, 'm', total % 60, 's');
            } else {
                assert(countdown_text(t) == two_units_text(t, 's', 0, 's'));
                lemma_two_units_injective(t, 's', 0, 's', total / 60, 'm', total % 60, 's');
            }
        } else {
            assert(t == total - 1);
            assert(countdown_text(t) == two_units_text(t, 's', 0, 's'));
            assert(countdown_text(total) == two_units_text(total, 's', 0, 's'));
            lemma_two_units_injective(t, 's', 0, 's', total, 's', 0, 's');
        }
    }
}

} // verus!
