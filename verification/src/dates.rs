//! Date handling: the eight-character date normalization rule, and calendar
//! parsing and ordering for the renew/cancel validations.

use vstd::prelude::*;

verus! {

/// An input date of exactly 8 characters is reinterpreted as YYYYMMDD and
/// rewritten as YYYY-MM-DD; anything else passes through unchanged.
pub open spec fn spec_normalize_date(s: Seq<char>) -> Seq<char> {
    if s.len() == 8 {
        s.subrange(0, 4) + seq!['-'] + s.subrange(4, 6) + seq!['-'] + s.subrange(6, 8)
    } else {
        s
    }
}

pub fn normalize_date(s: &str) -> (r: String)
    ensures
        r@ == spec_normalize_date(s@),
{
    let n = s.unicode_len();
    if n == 8 {
        let mut r = String::from_str(s.substring_char(0, 4));
        r.append("-");
        r.append(s.substring_char(4, 6));
        r.append("-");
        r.append(s.substring_char(6, 8));
        proof {
            reveal_strlit("-");
            assert(r@ =~= spec_normalize_date(s@));
        }
        r
    } else {
        String::from_str(s)
    }
}

/// The calendar date, as (year, month, day), that a string spells in
/// YYYY-MM-DD form, or `None` where it spells no valid date. The outcome is a
/// function of the string alone.
pub uninterp spec fn iso_date_of(s: Seq<char>) -> Option<(i32, u32, u32)>;

/// Relies on chrono::NaiveDate::parse_from_str with the format "%Y-%m-%d" and
/// on chrono::Datelike's year, month and day accessors: whether a string
/// parses, and to which calendar date, depends on the string alone.
#[verifier::external_body]
pub(crate) fn parse_iso_date(s: &str) -> (r: Option<(i32, u32, u32)>)
    ensures
        r == iso_date_of(s@),
{
    match chrono::NaiveDate::parse_from_str(s, "%Y-%m-%d") {
        Ok(d) => Some(
            (chrono::Datelike::year(&d), chrono::Datelike::month(&d), chrono::Datelike::day(&d)),
        ),
        Err(_) => None,
    }
}

/// Strict chronological order on (year, month, day) triples; for valid
/// calendar dates this is exactly the order of the dates.
pub open spec fn spec_ymd_lt(a: (i32, u32, u32), b: (i32, u32, u32)) -> bool {
    ||| a.0 < b.0
    ||| (a.0 == b.0 && a.1 < b.1)
    ||| (a.0 == b.0 && a.1 == b.1 && a.2 < b.2)
}

pub fn ymd_lt(a: (i32, u32, u32), b: (i32, u32, u32)) -> (r: bool)
    ensures
        r == spec_ymd_lt(a, b),
{
    a.0 < b.0 || (a.0 == b.0 && a.1 < b.1) || (a.0 == b.0 && a.1 == b.1 && a.2 < b.2)
}

} // verus!
