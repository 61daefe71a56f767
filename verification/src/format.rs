//! Decimal rendering of byte counts as gigabytes with two fractional
//! digits, computed exactly over integers.

use vstd::prelude::*;
use vstd::string::StringExecFns;

verus! {

/// The character for one decimal digit.
pub open spec fn spec_digit(d: nat) -> char {
    if d == 0 {
        '0'
    } else if d == 1 {
        '1'
    } else if d == 2 {
        '2'
    } else if d == 3 {
        '3'
    } else if d == 4 {
        '4'
    } else if d == 5 {
        '5'
    } else if d == 6 {
        '6'
    } else if d == 7 {
        '7'
    } else if d == 8 {
        '8'
    } else {
        '9'
    }
}

/// The decimal digits of a number, most significant first, with no
/// leading zero except on zero itself.
pub open spec fn spec_decimal(n: nat) -> Seq<char>
    decreases n,
{
    if n < 10 {
        seq![spec_digit(n)]
    } else {
        spec_decimal(n / 10).push(spec_digit(n % 10))
    }
}

/// A byte count in hundredths of a gigabyte (1 gigabyte being
/// 1,000,000,000 bytes), rounded to the nearest hundredth with halves
/// rounded up.
pub open spec fn spec_gb_hundredths(bytes: nat) -> nat {
    bytes / 10_000_000 + if bytes % 10_000_000 >= 5_000_000 {
        1nat
    } else {
        0nat
    }
}

/// A byte count rendered as gigabytes with exactly two fractional
/// digits, such as `0.00` or `2.00`.
pub open spec fn spec_gb_string(bytes: nat) -> Seq<char> {
    let h = spec_gb_hundredths(bytes);
    spec_decimal(h / 100) + seq!['.', spec_digit((h / 10) % 10), spec_digit(h % 10)]
}

fn digit_str(d: u64) -> (r: &'static str)
    requires
        d < 10,
    ensures
        r@ == seq![spec_digit(d as nat)],
{
    if d == 0 {
        proof {
            reveal_strlit("0");
            assert("0"@ =~= seq![spec_digit(0)]);
        }
        "0"
    } else if d == 1 {
        proof {
            reveal_strlit("1");
            assert("1"@ =~= seq![spec_digit(1)]);
        }
        "1"
    } else if d == 2 {
        proof {
            reveal_strlit("2");
            assert("2"@ =~= seq![spec_digit(2)]);
        }
        "2"
    } else if d == 3 {
        proof {
            reveal_strlit("3");
            assert("3"@ =~= seq![spec_digit(3)]);
        }
        "3"
    } else if d == 4 {
        proof {
            reveal_strlit("4");
            assert("4"@ =~= seq![spec_digit(4)]);
        }
        "4"
    } else if d == 5 {
        proof {
            reveal_strlit("5");
            assert("5"@ =~= seq![spec_digit(5)]);
        }
        "5"
    } else if d == 6 {
        proof {
            reveal_strlit("6");
            assert("6"@ =~= seq![spec_digit(6)]);
        }
        "6"
    } else if d == 7 {
        proof {
            reveal_strlit("7");
            assert("7"@ =~= seq![spec_digit(7)]);
        }
        "7"
    } else if d == 8 {
        proof {
            reveal_strlit("8");
            assert("8"@ =~= seq![spec_digit(8)]);
        }
        "8"
    } else {
        proof {
            reveal_strlit("9");
            assert("9"@ =~= seq![spec_digit(9)]);
        }
        "9"
    }
}

/// The decimal digits of a number as a string.
pub fn decimal_string(n: u64) -> (r: String)
    ensures
        r@ == spec_decimal(n as nat),
    decreases n,
{
    if n < 10 {
        String::from_str(digit_str(n))
    } else {
        let mut r = decimal_string(n / 10);
        r.append(digit_str(n % 10));
        proof {
            assert(r@ =~= spec_decimal((n / 10) as nat).push(spec_digit((n % 10) as nat)));
        }
        r
    }
}

/// Renders a byte count as gigabytes with two fractional digits.
pub fn format_size(bytes: u64) -> (r: String)
    ensures
        r@ == spec_gb_string(bytes as nat),
{
    let whole_part = bytes / 10_000_000;
    let remainder = bytes % 10_000_000;
    let hundredths = if remainder >= 5_000_000 {
        whole_part + 1
    } else {
        whole_part
    };
    assert(hundredths as nat == spec_gb_hundredths(bytes as nat));
    let mut r = decimal_string(hundredths / 100);
    r.append(".");
    r.append(digit_str((hundredths / 10) % 10));
    r.append(digit_str(hundredths % 10));
    proof {
        reveal_strlit(".");
        assert("."@ =~= seq!['.']);
        assert(r@ =~= spec_gb_string(bytes as nat));
    }
    r
}

} // verus!
