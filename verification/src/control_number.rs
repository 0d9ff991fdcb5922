//! The identifier generator: one nine-digit control number per document,
//! drawn from the digits 1 through 9, then converted to an integer.

use vstd::prelude::*;

pub use crate::digits::spec_digits_1_9;
use crate::digits::{
    lemma_digits_value_1_9, lemma_digits_value_lower, lemma_digits_value_upper, spec_all_digits,
    spec_digits_value, spec_is_digit, spec_pow10, spec_repunit,
};

verus! {

pub struct ControlNumber;

impl ControlNumber {
    /// Relies on nanoid::format with nanoid::rngs::default: it returns a
    /// string of exactly `size` characters, each drawn from the given
    /// alphabet. Nothing is assumed about which characters are drawn.
    #[verifier::external_body]
    pub fn create() -> (r: String)
        ensures
            r@.len() == 9,
            forall|i: int| 0 <= i < r@.len() ==> '1' <= #[trigger] r@[i] && r@[i] <= '9',
    {
        nanoid::format(
            nanoid::rngs::default,
            &['1', '2', '3', '4', '5', '6', '7', '8', '9'],
            9,
        )
    }

    /// Converts a digit string of at most nine digits to the integer it
    /// spells; nine digits always fit in an `i32`.
    pub fn to_i32(control_number: &str) -> (r: i32)
        requires
            1 <= control_number@.len() <= 9,
            spec_all_digits(control_number@),
        ensures
            0 <= r,
            r as nat == spec_digits_value(control_number@),
    {
        proof {
            lemma_digits_value_upper(control_number@);
            crate::digits::lemma_pow10_mono(control_number@.len(), 9);
            assert(spec_pow10(9) == 1000000000) by {
                reveal_with_fuel(spec_pow10, 10);
            }
        }
        let n = control_number.unicode_len();
        let mut acc: u32 = 0;
        let mut i: usize = 0;
        while i < n
            invariant
                0 <= i <= n,
                n == control_number@.len(),
                1 <= n <= 9,
                spec_all_digits(control_number@),
                acc as nat == spec_digits_value(control_number@.take(i as int)),
                spec_digits_value(control_number@) < 1000000000,
            decreases n - i,
        {
            let c = control_number.get_char(i);
            let u = c as u32;
            proof {
                assert(spec_is_digit(control_number@[i as int]));
                assert(control_number@.take(i + 1).drop_last() =~= control_number@.take(i as int));
                assert(control_number@.take(i + 1).last() == control_number@[i as int]);
                lemma_digits_value_upper(control_number@.take(i as int));
                crate::digits::lemma_pow10_mono(i as nat, 8);
                assert(spec_pow10(8) == 100000000) by {
                    reveal_with_fuel(spec_pow10, 9);
                }
                crate::digits::lemma_digits_value_take_le(control_number@, i + 1);
            }
            acc = acc * 10 + (u - 48);
            i = i + 1;
        }
        proof {
            assert(control_number@.take(n as int) =~= control_number@);
        }
        acc as i32
    }
}

/// The value of a nine-character string of digits 1 through 9 is a nine-digit
/// number whose digits are all 1 through 9.
pub proof fn lemma_control_number_value(s: Seq<char>)
    requires
        s.len() == 9,
        forall|i: int| 0 <= i < s.len() ==> '1' <= #[trigger] s[i] && s[i] <= '9',
    ensures
        111111111 <= spec_digits_value(s) <= 999999999,
        spec_digits_1_9(spec_digits_value(s)),
{
    assert(spec_all_digits(s));
    lemma_digits_value_lower(s);
    lemma_digits_value_upper(s);
    lemma_digits_value_1_9(s);
    assert(spec_repunit(9) == 111111111) by {
        reveal_with_fuel(spec_repunit, 10);
    }
    assert(spec_pow10(9) == 1000000000) by {
        reveal_with_fuel(spec_pow10, 10);
    }
}

} // verus!
