//! Decimal and duration rendering for the access log, with an exact
//! character-level specification.

use vstd::prelude::*;
use vstd::arithmetic::div_mod::lemma_div_is_ordered;

verus! {

/// The character for one decimal digit.
pub open spec fn spec_digit(d: nat) -> char
    recommends
        d < 10,
{
    if d == 0 {
        '0'
    } else if d == 1 {
        '1'
    } else if d == 2 {
        '2'
    } else if d == 3 {
        '3'
    } else if d == 4 {
        '4'
    } else if d == 5 {
        '5'
    } else if d == 6 {
        '6'
    } else if d == 7 {
        '7'
    } else if d == 8 {
        '8'
    } else {
        '9'
    }
}

/// The usual decimal rendering of a number: most significant digit first,
/// no leading zeroes except for the number 0 itself.
pub open spec fn spec_dec(n: nat) -> Seq<char>
    decreases n,
{
    if n < 10 {
        seq![spec_digit(n)]
    } else {
        spec_dec(n / 10).push(spec_digit(n % 10))
    }
}

/// A duration of `n` nanoseconds rendered as milliseconds with one
/// fractional digit, e.g. `12.4ms`.
pub open spec fn spec_duration(n: nat) -> Seq<char> {
    spec_dec(n / 1000000) + seq!['.'] + seq![spec_digit((n / 100000) % 10)] + seq!['m', 's']
}

/// The numeric value a rendered duration displays, in tenths of a
/// millisecond: the whole of what `spec_duration` prints.
pub open spec fn spec_duration_value(n: nat) -> nat {
    n / 100000
}

/// Rendered durations are drawn from the measured time without ever
/// inverting it: a longer measurement never displays as a smaller value,
/// and the displayed value is never negative.
pub proof fn lemma_duration_display_monotone(n1: nat, n2: nat)
    requires
        n1 <= n2,
    ensures
        spec_duration_value(n1) <= spec_duration_value(n2),
        spec_duration_value(n1) >= 0,
{
    lemma_div_is_ordered(n1 as int, n2 as int, 100000);
}

/// The one-character string for a decimal digit.
fn digit_str(d: u64) -> (r: &'static str)
    requires
        d < 10,
    ensures
        r@ =~= seq![spec_digit(d as nat)],
{
    proof {
        reveal_strlit("0");
        reveal_strlit("1");
        reveal_strlit("2");
        reveal_strlit("3");
        reveal_strlit("4");
        reveal_strlit("5");
        reveal_strlit("6");
        reveal_strlit("7");
        reveal_strlit("8");
        reveal_strlit("9");
    }
    if d == 0 {
        "0"
    } else if d == 1 {
        "1"
    } else if d == 2 {
        "2"
    } else if d == 3 {
        "3"
    } else if d == 4 {
        "4"
    } else if d == 5 {
        "5"
    } else if d == 6 {
        "6"
    } else if d == 7 {
        "7"
    } else if d == 8 {
        "8"
    } else {
        "9"
    }
}

/// Renders a number in decimal.
pub fn u64_to_string(n: u64) -> (s: String)
    ensures
        s@ == spec_dec(n as nat),
    decreases n,
{
    if n < 10 {
        String::from_str(digit_str(n))
    } else {
        let prefix = u64_to_string(n / 10);
        let s = prefix.concat(digit_str(n % 10));
        proof {
            assert(s@ =~= spec_dec(n as nat));
        }
        s
    }
}

/// Renders `n` nanoseconds as milliseconds with one fractional digit.
pub fn format_duration(n: u64) -> (s: String)
    ensures
        s@ == spec_duration(n as nat),
{
    proof {
        reveal_strlit(".");
        reveal_strlit("ms");
    }
    let whole = u64_to_string(n / 1000000);
    let tenth = digit_str((n / 100000) % 10);
    let s = whole.concat(".").concat(tenth).concat("ms");
    proof {
        assert(s@ =~= spec_duration(n as nat));
    }
    s
}

} // verus!
