//! Decimal digit strings: their numeric value, bounds on that value, and the
//! rendering of a number back to digits.

use vstd::arithmetic::div_mod::lemma_fundamental_div_mod_converse;
use vstd::prelude::*;

verus! {

pub open spec fn spec_is_digit(c: char) -> bool {
    '0' <= c && c <= '9'
}

pub open spec fn spec_digit_val(c: char) -> nat {
    (c as nat - '0' as nat) as nat
}

pub open spec fn spec_all_digits(s: Seq<char>) -> bool {
    forall|i: int| 0 <= i < s.len() ==> spec_is_digit(#[trigger] s[i])
}

/// The numeric value of a digit string, most significant digit first.
pub open spec fn spec_digits_value(s: Seq<char>) -> nat
    decreases s.len(),
{
    if s.len() == 0 {
        0
    } else {
        spec_digits_value(s.drop_last()) * 10 + spec_digit_val(s.last())
    }
}

pub open spec fn spec_pow10(k: nat) -> nat
    decreases k,
{
    if k == 0 {
        1
    } else {
        10 * spec_pow10((k - 1) as nat)
    }
}

/// 0, 1, 11, 111, ...: the least value a string of k digits from 1 to 9 can have.
pub open spec fn spec_repunit(k: nat) -> nat
    decreases k,
{
    if k == 0 {
        0
    } else {
        10 * spec_repunit((k - 1) as nat) + 1
    }
}

/// Every base-10 digit of n lies between 1 and 9; in particular n is positive.
pub open spec fn spec_digits_1_9(n: nat) -> bool
    decreases n,
{
    if n < 10 {
        1 <= n <= 9
    } else {
        1 <= n % 10 <= 9 && spec_digits_1_9(n / 10)
    }
}

pub proof fn lemma_digits_value_upper(s: Seq<char>)
    requires
        spec_all_digits(s),
    ensures
        spec_digits_value(s) < spec_pow10(s.len()),
    decreases s.len(),
{
    if s.len() > 0 {
        lemma_digits_value_upper(s.drop_last());
    }
}

pub proof fn lemma_digits_value_lower(s: Seq<char>)
    requires
        forall|i: int| 0 <= i < s.len() ==> '1' <= #[trigger] s[i] && s[i] <= '9',
    ensures
        spec_digits_value(s) >= spec_repunit(s.len()),
    decreases s.len(),
{
    if s.len() > 0 {
        lemma_digits_value_lower(s.drop_last());
    }
}

pub proof fn lemma_pow10_mono(a: nat, b: nat)
    requires
        a <= b,
    ensures
        spec_pow10(a) <= spec_pow10(b),
    decreases b,
{
    if a < b {
        lemma_pow10_mono(a, (b - 1) as nat);
    }
}

/// The value of a digit string whose digits all lie between 1 and 9 has
/// digits between 1 and 9 itself.
pub proof fn lemma_digits_value_1_9(s: Seq<char>)
    requires
        s.len() >= 1,
        forall|i: int| 0 <= i < s.len() ==> '1' <= #[trigger] s[i] && s[i] <= '9',
    ensures
        spec_digits_1_9(spec_digits_value(s)),
    decreases s.len(),
{
    let d = spec_digit_val(s.last());
    if s.len() == 1 {
        assert(spec_digits_value(s.drop_last()) == 0);
    } else {
        let v = spec_digits_value(s.drop_last());
        lemma_digits_value_1_9(s.drop_last());
        lemma_digits_value_lower(s.drop_last());
        assert(spec_repunit((s.len() - 1) as nat) >= 1);
        let n = spec_digits_value(s);
        assert(n == v * 10 + d);
        lemma_fundamental_div_mod_converse(n as int, 10, v as int, d as int);
        assert(n / 10 == v && n % 10 == d);
    }
}

/// A prefix of a digit string never has a larger value than the whole.
pub proof fn lemma_digits_value_take_le(s: Seq<char>, i: int)
    requires
        0 <= i <= s.len(),
    ensures
        spec_digits_value(s.take(i)) <= spec_digits_value(s),
    decreases s.len() - i,
{
    if i < s.len() {
        assert(s.take(i + 1).drop_last() =~= s.take(i));
        assert(spec_digits_value(s.take(i + 1)) == spec_digits_value(s.take(i)) * 10
            + spec_digit_val(s.take(i + 1).last()));
        lemma_digits_value_take_le(s, i + 1);
        assert(s.take(s.len() as int) =~= s);
    } else {
        assert(s.take(i) =~= s);
    }
}

/// The decimal rendering of n, without leading zeros.
pub open spec fn spec_dec_of(n: nat) -> Seq<char>
    decreases n,
{
    if n < 10 {
        seq![spec_digit_char(n)]
    } else {
        spec_dec_of(n / 10).push(spec_digit_char(n % 10))
    }
}

pub open spec fn spec_digit_char(d: nat) -> char {
    if d == 0 {
        '0'
    } else if d == 1 {
        '1'
    } else if d == 2 {
        '2'
    } else if d == 3 {
        '3'
    } else if d == 4 {
        '4'
    } else if d == 5 {
        '5'
    } else if d == 6 {
        '6'
    } else if d == 7 {
        '7'
    } else if d == 8 {
        '8'
    } else {
        '9'
    }
}

/// Rendering a number and reading the digits back yields the number.
pub proof fn lemma_digits_value_dec_of(n: nat)
    ensures
        spec_digits_value(spec_dec_of(n)) == n,
    decreases n,
{
    if n < 10 {
        assert(spec_dec_of(n).drop_last() =~= Seq::<char>::empty());
        assert(spec_dec_of(n).last() == spec_digit_char(n));
        assert(spec_digit_val(spec_digit_char(n)) == n);
        assert(spec_digits_value(spec_dec_of(n)) == spec_digits_value(spec_dec_of(n).drop_last())
            * 10 + spec_digit_val(spec_dec_of(n).last()));
        assert(spec_digits_value(spec_dec_of(n)) == n);
    } else {
        lemma_digits_value_dec_of(n / 10);
        vstd::arithmetic::div_mod::lemma_fundamental_div_mod(n as int, 10);
        assert(spec_dec_of(n).drop_last() =~= spec_dec_of(n / 10));
        assert(spec_dec_of(n).last() == spec_digit_char(n % 10));
        assert(spec_digit_val(spec_digit_char(n % 10)) == n % 10);
    }
}

/// One digit as a one-character string.
fn digit_str(d: u32) -> (r: String)
    requires
        d <= 9,
    ensures
        r@ =~= seq![spec_digit_char(d as nat)],
{
    let r = match d {
        0 => String::from_str("0"),
        1 => String::from_str("1"),
        2 => String::from_str("2"),
        3 => String::from_str("3"),
        4 => String::from_str("4"),
        5 => String::from_str("5"),
        6 => String::from_str("6"),
        7 => String::from_str("7"),
        8 => String::from_str("8"),
        _ => String::from_str("9"),
    };
    proof {
        reveal_strlit("0");
        reveal_strlit("1");
        reveal_strlit("2");
        reveal_strlit("3");
        reveal_strlit("4");
        reveal_strlit("5");
        reveal_strlit("6");
        reveal_strlit("7");
        reveal_strlit("8");
        reveal_strlit("9");
    }
    r
}

/// Renders n in decimal, most significant digit first.
pub fn u32_to_string(n: u32) -> (r: String)
    ensures
        r@ == spec_dec_of(n as nat),
    decreases n,
{
    if n < 10 {
        digit_str(n)
    } else {
        let mut r = u32_to_string(n / 10);
        let last = digit_str(n % 10);
        r.append(last.as_str());
        proof {
            assert(r@ =~= spec_dec_of((n / 10) as nat).push(spec_digit_char((n % 10) as nat)));
        }
        r
    }
}

/// Parses a digit string into a number. Returns `None` exactly when the
/// string is empty, holds a non-digit, or its value exceeds `u32::MAX`.
pub fn parse_digits(s: &str) -> (r: Option<u32>)
    ensures
        r is Some <==> s@.len() >= 1 && spec_all_digits(s@) && spec_digits_value(s@) <= u32::MAX,
        r is Some ==> r->0 as nat == spec_digits_value(s@),
{
    let n = s.unicode_len();
    if n == 0 {
        return None;
    }
    let mut acc: u64 = 0;
    let mut i: usize = 0;
    while i < n
        invariant
            0 <= i <= n,
            n == s@.len(),
            spec_all_digits(s@.take(i as int)),
            acc as nat == spec_digits_value(s@.take(i as int)),
            acc <= u32::MAX,
        decreases n - i,
    {
        let c = s.get_char(i);
        let u = c as u32;
        if u < 48 || u > 57 {
            assert(!spec_is_digit(s@[i as int]));
            return None;
        }
        let d = (u - 48) as u64;
        proof {
            assert(s@.take(i + 1).drop_last() =~= s@.take(i as int));
            assert(s@.take(i + 1).last() == s@[i as int]);
            assert(spec_digit_val(s@[i as int]) == d as nat);
        }
        acc = acc * 10 + d;
        i = i + 1;
        if acc > u32::MAX as u64 {
            proof {
                lemma_digits_value_take_le(s@, i as int);
                assert(spec_digits_value(s@) >= acc as nat);
            }
            return None;
        }
    }
    proof {
        assert(s@.take(n as int) =~= s@);
    }
    Some(acc as u32)
}

} // verus!
