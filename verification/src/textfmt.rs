//! Decimal and boolean rendering for query-parameter values.
//!
//! Query parameters carry numbers and flags as text.  The spec functions here
//! define the usual decimal notation, and the executable functions are proved
//! to produce exactly that notation.

use vstd::prelude::*;
use vstd::string::StringExecFns;

verus! {

/// The character for a single decimal digit.
pub open spec fn dec_digit(d: int) -> char {
    if d == 0 {
        '0'
    } else if d == 1 {
        '1'
    } else if d == 2 {
        '2'
    } else if d == 3 {
        '3'
    } else if d == 4 {
        '4'
    } else if d == 5 {
        '5'
    } else if d == 6 {
        '6'
    } else if d == 7 {
        '7'
    } else if d == 8 {
        '8'
    } else {
        '9'
    }
}

/// The decimal digits of a non-negative number, most significant first.
pub open spec fn dec_nat(n: nat) -> Seq<char>
    decreases n,
{
    if n < 10 {
        seq![dec_digit(n as int)]
    } else {
        dec_nat(n / 10) + seq![dec_digit((n % 10) as int)]
    }
}

/// The usual decimal notation of an integer: a minus sign for negative
/// values, then the digits.
pub open spec fn dec_int(v: int) -> Seq<char> {
    if v < 0 {
        seq!['-'] + dec_nat((-v) as nat)
    } else {
        dec_nat(v as nat)
    }
}

/// The text of a boolean: `true` or `false`.
pub open spec fn bool_text(b: bool) -> Seq<char> {
    if b {
        "true"@
    } else {
        "false"@
    }
}

/// A one-character string for a single decimal digit.
fn digit_str(d: u64) -> (r: &'static str)
    requires
        d < 10,
    ensures
        r@ =~= seq![dec_digit(d as int)],
{
    proof {
        reveal_strlit("0");
        reveal_strlit("1");
        reveal_strlit("2");
        reveal_strlit("3");
        reveal_strlit("4");
        reveal_strlit("5");
        reveal_strlit("6");
        reveal_strlit("7");
        reveal_strlit("8");
        reveal_strlit("9");
    }
    if d == 0 {
        "0"
    } else if d == 1 {
        "1"
    } else if d == 2 {
        "2"
    } else if d == 3 {
        "3"
    } else if d == 4 {
        "4"
    } else if d == 5 {
        "5"
    } else if d == 6 {
        "6"
    } else if d == 7 {
        "7"
    } else if d == 8 {
        "8"
    } else {
        "9"
    }
}

/// The digits named by a stack of digit values, read from the top down.
spec fn digits_from_stack(ds: Seq<u64>) -> Seq<char>
    decreases ds.len(),
{
    if ds.len() == 0 {
        Seq::empty()
    } else {
        seq![dec_digit(ds.last() as int)] + digits_from_stack(ds.drop_last())
    }
}

/// Renders a non-negative number in decimal.
pub fn u64_to_dec_string(v: u64) -> (s: String)
    ensures
        s@ == dec_nat(v as nat),
{
    let mut digits: Vec<u64> = Vec::new();
    let mut cur: u64 = v;
    if cur == 0 {
        let r = String::from_str(digit_str(0));
        return r;
    }
    while cur > 0
        invariant
            cur > 0 ==> dec_nat(v as nat) =~= dec_nat(cur as nat) + digits_from_stack(digits@),
            cur == 0 ==> dec_nat(v as nat) =~= digits_from_stack(digits@),
            forall|i: int| 0 <= i < digits@.len() ==> digits@[i] < 10,
        decreases cur,
    {
        let d: u64 = cur % 10;
        let next: u64 = cur / 10;
        proof {
            assert(digits@.push(d).drop_last() =~= digits@);
            assert(digits_from_stack(digits@.push(d)) =~= seq![dec_digit(d as int)]
                + digits_from_stack(digits@));
            if next > 0 {
                assert(dec_nat(cur as nat) =~= dec_nat(next as nat) + seq![
                    dec_digit(d as int),
                ]);
                assert(dec_nat(next as nat) + seq![dec_digit(d as int)]
                    + digits_from_stack(digits@) =~= dec_nat(next as nat) + (seq![
                    dec_digit(d as int),
                ] + digits_from_stack(digits@)));
            } else {
                assert(cur < 10);
                assert(dec_nat(cur as nat) =~= seq![dec_digit(d as int)]);
            }
        }
        digits.push(d);
        cur = next;
    }
    let mut s = String::new();
    let mut j: usize = digits.len();
    proof {
        assert(digits@.subrange(0, j as int) =~= digits@);
        assert(s@ + digits_from_stack(digits@) =~= digits_from_stack(digits@));
    }
    while j > 0
        invariant
            j <= digits@.len(),
            forall|i: int| 0 <= i < digits@.len() ==> digits@[i] < 10,
            dec_nat(v as nat) =~= s@ + digits_from_stack(digits@.subrange(0, j as int)),
        decreases j,
    {
        let d = digits[j - 1];
        proof {
            let pre = digits@.subrange(0, j as int);
            assert(pre.drop_last() =~= digits@.subrange(0, j - 1));
            assert(pre.last() == digits@[j - 1]);
            assert(digits_from_stack(pre) =~= seq![dec_digit(digits@[j - 1] as int)]
                + digits_from_stack(digits@.subrange(0, j - 1)));
            assert((s@ + seq![dec_digit(digits@[j - 1] as int)]) + digits_from_stack(
                digits@.subrange(0, j - 1),
            ) =~= s@ + (seq![dec_digit(digits@[j - 1] as int)] + digits_from_stack(
                digits@.subrange(0, j - 1),
            )));
        }
        s.append(digit_str(d));
        j = j - 1;
    }
    proof {
        assert(digits@.subrange(0, 0) =~= Seq::<u64>::empty());
        assert(s@ + digits_from_stack(digits@.subrange(0, 0)) =~= s@);
    }
    s
}

/// Renders a signed number in decimal, with a leading minus sign when
/// negative.
pub fn i64_to_dec_string(v: i64) -> (s: String)
    ensures
        s@ == dec_int(v as int),
{
    if v >= 0 {
        let s = u64_to_dec_string(v as u64);
        s
    } else {
        let wide: i128 = v as i128;
        let magnitude: u64 = (-wide) as u64;
        let digits = u64_to_dec_string(magnitude);
        proof {
            reveal_strlit("-");
        }
        let s = String::from_str("-").concat(digits.as_str());
        proof {
            assert(s@ =~= seq!['-'] + dec_nat((-(v as int)) as nat));
        }
        s
    }
}

/// Renders a 32-bit signed number in decimal.
pub fn i32_to_dec_string(v: i32) -> (s: String)
    ensures
        s@ == dec_int(v as int),
{
    i64_to_dec_string(v as i64)
}

/// Renders a 16-bit unsigned number in decimal.
pub fn u16_to_dec_string(v: u16) -> (s: String)
    ensures
        s@ == dec_nat(v as nat),
{
    u64_to_dec_string(v as u64)
}

/// Renders a boolean as `true` or `false`.
pub fn bool_to_dec_string(b: bool) -> (s: String)
    ensures
        s@ == bool_text(b),
{
    if b {
        String::from_str("true")
    } else {
        String::from_str("false")
    }
}

} // verus!
