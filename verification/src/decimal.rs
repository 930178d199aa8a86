//! Decimal formatting of the integers that travel in query strings: chunk
//! sequence numbers and declared sizes.

use vstd::prelude::*;
use vstd::string::StringExecFns;
use crate::digest::{hex_char_of, hex_digit_str};

verus! {

/// The decimal representation of a natural number, most significant digit
/// first, with no leading zeros (a single `'0'` for zero).
pub open spec fn dec_str_of(n: nat) -> Seq<char>
    decreases n,
{
    if n < 10 {
        seq![hex_char_of(n as int)]
    } else {
        dec_str_of(n / 10) + seq![hex_char_of((n % 10) as int)]
    }
}

/// The decimal representation of an integer: a minus sign for negative
/// values, then the digits of the magnitude.
pub open spec fn dec_int_str_of(n: int) -> Seq<char> {
    if n >= 0 {
        dec_str_of(n as nat)
    } else {
        seq!['-'] + dec_str_of((-n) as nat)
    }
}

/// Format a signed number in decimal.
pub fn i64_to_dec(n: i64) -> (r: String)
    ensures
        r@ == dec_int_str_of(n as int),
{
    if n >= 0 {
        u64_to_dec(n as u64)
    } else {
        let magnitude: u64 = if n == i64::MIN {
            9223372036854775808u64
        } else {
            (-n) as u64
        };
        let mut r = String::from_str("-");
        let digits = u64_to_dec(magnitude);
        r.append(digits.as_str());
        proof {
            reveal_strlit("-");
            assert(r@ =~= dec_int_str_of(n as int));
        }
        r
    }
}

/// Format a number in decimal.
pub fn u64_to_dec(n: u64) -> (r: String)
    ensures
        r@ == dec_str_of(n as nat),
    decreases n,
{
    if n < 10 {
        let r = String::from_str(hex_digit_str(n as u8));
        assert(r@ =~= dec_str_of(n as nat));
        r
    } else {
        let high = u64_to_dec(n / 10);
        let r = high.concat(hex_digit_str((n % 10) as u8));
        assert(n as nat / 10 == (n / 10) as nat);
        assert(r@ =~= dec_str_of(n as nat));
        r
    }
}

} // verus!
