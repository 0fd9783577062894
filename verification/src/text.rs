//! Small helpers on text values.

use vstd::prelude::*;

verus! {

/// Compare two string slices by their characters.
pub fn text_equals(a: &str, b: &str) -> (r: bool)
    ensures
        r == (a@ == b@),
{
    let x = a.to_owned();
    let y = b.to_owned();
    x == y
}

/// The decimal digit character for a value below ten.
pub open spec fn spec_digit(d: nat) -> char
    recommends
        d < 10,
{
    if d == 0 { '0' } else if d == 1 { '1' } else if d == 2 { '2' } else if d == 3 { '3' }
    else if d == 4 { '4' } else if d == 5 { '5' } else if d == 6 { '6' } else if d == 7 { '7' }
    else if d == 8 { '8' } else { '9' }
}

/// The decimal representation of a number, without sign or leading zeros.
pub open spec fn spec_decimal(v: nat) -> Seq<char>
    decreases v,
{
    if v < 10 {
        seq![spec_digit(v)]
    } else {
        spec_decimal(v / 10).push(spec_digit(v % 10))
    }
}

/// The text of one decimal digit.
fn digit_text(d: u64) -> (r: &'static str)
    requires
        d < 10,
    ensures
        r@ == seq![spec_digit(d as nat)],
{
    if d == 0 {
        proof {
            reveal_strlit("0");
        }
        "0"
    } else if d == 1 {
        proof {
            reveal_strlit("1");
        }
        "1"
    } else if d == 2 {
        proof {
            reveal_strlit("2");
        }
        "2"
    } else if d == 3 {
        proof {
            reveal_strlit("3");
        }
        "3"
    } else if d == 4 {
        proof {
            reveal_strlit("4");
        }
        "4"
    } else if d == 5 {
        proof {
            reveal_strlit("5");
        }
        "5"
    } else if d == 6 {
        proof {
            reveal_strlit("6");
        }
        "6"
    } else if d == 7 {
        proof {
            reveal_strlit("7");
        }
        "7"
    } else if d == 8 {
        proof {
            reveal_strlit("8");
        }
        "8"
    } else {
        proof {
            reveal_strlit("9");
        }
        "9"
    }
}

/// The decimal representation of a number above nine is the representation of its tenth
/// followed by its last digit.
proof fn lemma_decimal_step(v: nat)
    requires
        v >= 10,
    ensures
        spec_decimal(v) == spec_decimal(v / 10).push(spec_digit(v % 10)),
{
}

/// The decimal representation of the value, as `u64::to_string` gives it.
pub(crate) fn decimal_text(value: u64) -> (r: String)
    ensures
        r@ == spec_decimal(value as nat),
{
    let mut v: u64 = value;
    let mut text = digit_text(v % 10).to_owned();
    v = v / 10;
    proof {
        if value >= 10 {
            lemma_decimal_step(value as nat);
        }
    }
    while v > 0
        invariant
            v > 0 ==> spec_decimal(value as nat) == spec_decimal(v as nat) + text@,
            v == 0 ==> spec_decimal(value as nat) == text@,
        decreases v,
    {
        let digit = digit_text(v % 10);
        proof {
            if v >= 10 {
                lemma_decimal_step(v as nat);
                assert(spec_decimal(v as nat) + text@ =~= spec_decimal((v / 10) as nat) + (digit@ + text@));
            } else {
                assert(spec_decimal(v as nat) + text@ =~= digit@ + text@);
            }
        }
        text = join_text(digit, &text);
        v = v / 10;
    }
    text
}

/// Concatenate two texts.
pub fn join_text(a: &str, b: &str) -> (r: String)
    ensures
        r@ == a@ + b@,
{
    let s = a.to_owned();
    s.concat(b)
}

/// The decimal representation of a signed number: a minus sign before the magnitude of a negative number.
pub open spec fn spec_signed_decimal(v: int) -> Seq<char> {
    if v < 0 {
        seq!['-'] + spec_decimal((-v) as nat)
    } else {
        spec_decimal(v as nat)
    }
}

/// `i64::to_string`: the decimal representation of a signed value.
pub fn signed_decimal_text(value: i64) -> (r: String)
    ensures
        r@ == spec_signed_decimal(value as int),
{
    if value < 0 {
        let magnitude: u64 = if value == i64::MIN {
            9223372036854775808u64
        } else {
            (-value) as u64
        };
        let digits = decimal_text(magnitude);
        proof {
            reveal_strlit("-");
            assert("-"@ =~= seq!['-']);
        }
        join_text("-", &digits)
    } else {
        decimal_text(value as u64)
    }
}

} // verus!
