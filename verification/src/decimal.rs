//! Decimal rendering of counters and channel indices.
//!
//! Prediction counts and channel keys both carry a number into a displayed
//! string, so the decimal form is specified once here and proved injective:
//! two different numbers never render to the same text.

use vstd::prelude::*;

verus! {

/// The character for one decimal digit.
pub open spec fn spec_digit(d: nat) -> char {
    if d == 0 {
        '0'
    } else if d == 1 {
        '1'
    } else if d == 2 {
        '2'
    } else if d == 3 {
        '3'
    } else if d == 4 {
        '4'
    } else if d == 5 {
        '5'
    } else if d == 6 {
        '6'
    } else if d == 7 {
        '7'
    } else if d == 8 {
        '8'
    } else {
        '9'
    }
}

/// The usual decimal representation, most significant digit first, with no
/// leading zeros (zero itself renders as a single digit).
pub open spec fn spec_decimal(n: nat) -> Seq<char>
    decreases n,
{
    if n < 10 {
        seq![spec_digit(n)]
    } else {
        spec_decimal(n / 10).push(spec_digit(n % 10))
    }
}

fn digit_str(d: usize) -> (r: &'static str)
    requires
        d < 10,
    ensures
        r@ == seq![spec_digit(d as nat)],
{
    let r: &'static str = if d == 0 {
        "0"
    } else if d == 1 {
        "1"
    } else if d == 2 {
        "2"
    } else if d == 3 {
        "3"
    } else if d == 4 {
        "4"
    } else if d == 5 {
        "5"
    } else if d == 6 {
        "6"
    } else if d == 7 {
        "7"
    } else if d == 8 {
        "8"
    } else {
        "9"
    };
    proof {
        reveal_strlit("0");
        reveal_strlit("1");
        reveal_strlit("2");
        reveal_strlit("3");
        reveal_strlit("4");
        reveal_strlit("5");
        reveal_strlit("6");
        reveal_strlit("7");
        reveal_strlit("8");
        reveal_strlit("9");
        assert(r@ =~= seq![spec_digit(d as nat)]);
    }
    r
}

/// Renders a number in decimal.
pub fn decimal_string(n: usize) -> (s: String)
    ensures
        s@ == spec_decimal(n as nat),
    decreases n,
{
    if n < 10 {
        let s = digit_str(n).to_owned();
        s
    } else {
        let mut s = decimal_string(n / 10);
        s.append(digit_str(n % 10));
        proof {
            assert(s@ =~= spec_decimal((n / 10) as nat).push(spec_digit((n % 10) as nat)));
        }
        s
    }
}

/// Every decimal rendering is non-empty, and a number of ten or more renders
/// to at least two digits.
pub proof fn lemma_decimal_len(n: nat)
    ensures
        spec_decimal(n).len() >= 1,
        n >= 10 ==> spec_decimal(n).len() >= 2,
    decreases n,
{
    if n >= 10 {
        lemma_decimal_len(n / 10);
    }
}

/// Distinct digits render to distinct characters.
proof fn lemma_digit_injective(a: nat, b: nat)
    requires
        a < 10,
        b < 10,
        spec_digit(a) == spec_digit(b),
    ensures
        a == b,
{
}

/// The decimal form is injective: two different numbers never render to the
/// same sequence of characters.
pub proof fn lemma_decimal_injective(a: nat, b: nat)
    requires
        spec_decimal(a) == spec_decimal(b),
    ensures
        a == b,
    decreases a,
{
    lemma_decimal_len(a);
    lemma_decimal_len(b);
    if a < 10 && b < 10 {
        assert(seq![spec_digit(a)][0] == spec_digit(a));
        assert(seq![spec_digit(b)][0] == spec_digit(b));
        assert(spec_decimal(a)[0] == spec_decimal(b)[0]);
        lemma_digit_injective(a, b);
    } else if a < 10 {
        assert(spec_decimal(a).len() == 1);
        assert(false);
    } else if b < 10 {
        assert(spec_decimal(b).len() == 1);
        assert(false);
    } else {
        let pa = spec_decimal(a / 10);
        let pb = spec_decimal(b / 10);
        assert(pa.push(spec_digit(a % 10)).drop_last() =~= pa);
        assert(pb.push(spec_digit(b % 10)).drop_last() =~= pb);
        assert(pa == pb);
        assert(pa.push(spec_digit(a % 10)).last() == spec_digit(a % 10));
        assert(pb.push(spec_digit(b % 10)).last() == spec_digit(b % 10));
        lemma_digit_injective(a % 10, b % 10);
        lemma_decimal_injective(a / 10, b / 10);
        assert(a == (a / 10) * 10 + a % 10);
        assert(b == (b / 10) * 10 + b % 10);
    }
}

} // verus!
