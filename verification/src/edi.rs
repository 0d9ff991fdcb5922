//! The EDI correction pass: strip the outer quotes of the translated text,
//! split it on its literal backslash-n escape sequences, delete the address
//! segments (N3 and N4), and rewrite the trailing segment-count line so its
//! count stays accurate.

use vstd::prelude::*;

use crate::digits::{parse_digits, spec_all_digits, spec_dec_of, spec_digits_value, u32_to_string};
use crate::text::str_eq;

verus! {

/// A fatal format-assumption failure in the correction pass.
#[derive(Clone, Copy, Debug, PartialEq, Eq, Structural)]
pub enum EdiError {
    /// No segment-count line is present at all.
    MissingTrailer,
    /// A segment-count line has fewer than three fields or a non-numeric
    /// count.
    MalformedTrailer,
    /// The corrected count would go negative.
    NegativeCount,
}

impl EdiError {
    pub open spec fn spec_message(self) -> Seq<char> {
        match self {
            EdiError::MissingTrailer => "no segment count line found"@,
            EdiError::MalformedTrailer => "malformed segment count line"@,
            EdiError::NegativeCount => "segment count would become negative"@,
        }
    }

    /// The message naming the violated format assumption.
    pub fn message(&self) -> (r: String)
        ensures
            r@ == self.spec_message(),
    {
        match self {
            EdiError::MissingTrailer => String::from_str("no segment count line found"),
            EdiError::MalformedTrailer => String::from_str("malformed segment count line"),
            EdiError::NegativeCount => String::from_str("segment count would become negative"),
        }
    }
}

/// Splitting on a separator, scanned left to right: the text up to the first
/// separator occurrence becomes one part, and the scan continues after it.
pub open spec fn spec_split_rec(s: Seq<char>, sep: Seq<char>, cur: Seq<char>) -> Seq<Seq<char>>
    decreases s.len(),
{
    if s.len() >= sep.len() && sep.len() > 0 && s.subrange(0, sep.len() as int) == sep {
        seq![cur] + spec_split_rec(s.skip(sep.len() as int), sep, Seq::<char>::empty())
    } else if s.len() == 0 {
        seq![cur]
    } else {
        spec_split_rec(s.skip(1), sep, cur.push(s[0]))
    }
}

/// The parts of `s` between non-overlapping, leftmost occurrences of `sep`.
pub open spec fn spec_split(s: Seq<char>, sep: Seq<char>) -> Seq<Seq<char>> {
    spec_split_rec(s, sep, Seq::<char>::empty())
}

/// The parts joined back with the separator between them.
pub open spec fn spec_join(parts: Seq<Seq<char>>, sep: Seq<char>) -> Seq<char>
    decreases parts.len(),
{
    if parts.len() == 0 {
        Seq::<char>::empty()
    } else if parts.len() == 1 {
        parts[0]
    } else {
        parts[0] + sep + spec_join(parts.skip(1), sep)
    }
}

proof fn lemma_join_take_succ(parts: Seq<Seq<char>>, sep: Seq<char>, j: int)
    requires
        1 <= j < parts.len(),
    ensures
        spec_join(parts.take(j + 1), sep) == spec_join(parts.take(j), sep) + sep + parts[j],
    decreases j,
{
    let p1 = parts.take(j + 1);
    let pj = parts.take(j);
    if j == 1 {
        assert(p1.len() == 2);
        assert(p1.skip(1) =~= seq![parts[1]]);
        assert(spec_join(p1.skip(1), sep) == parts[1]);
        assert(pj =~= seq![parts[0]]);
        assert(spec_join(p1, sep) == p1[0] + sep + spec_join(p1.skip(1), sep));
    } else {
        lemma_join_take_succ(parts.skip(1), sep, j - 1);
        assert(p1.skip(1) =~= parts.skip(1).take(j));
        assert(pj.skip(1) =~= parts.skip(1).take(j - 1));
        assert(parts.skip(1)[j - 1] == parts[j]);
        assert(spec_join(p1, sep) == p1[0] + sep + spec_join(p1.skip(1), sep));
        assert(spec_join(pj, sep) == pj[0] + sep + spec_join(pj.skip(1), sep));
        assert(parts[0] + sep + (spec_join(pj.skip(1), sep) + sep + parts[j]) =~= (parts[0] + sep
            + spec_join(pj.skip(1), sep)) + sep + parts[j]);
    }
}

/// Whether `sep` occurs in `s` at position `i`.
fn matches_at(s: &str, sep: &str, i: usize) -> (r: bool)
    requires
        i + sep@.len() <= s@.len(),
        i + sep@.len() <= usize::MAX,
    ensures
        r == (s@.subrange(i as int, i as int + sep@.len() as int) == sep@),
{
    let m = sep.unicode_len();
    let mut k: usize = 0;
    while k < m
        invariant
            0 <= k <= m,
            m == sep@.len(),
            i + m <= s@.len(),
            i + m <= usize::MAX,
            forall|t: int| 0 <= t < k ==> s@[i + t] == sep@[t],
        decreases m - k,
    {
        if s.get_char(i + k) != sep.get_char(k) {
            proof {
                assert(s@.subrange(i as int, i as int + m as int)[k as int] != sep@[k as int]);
            }
            return false;
        }
        k = k + 1;
    }
    proof {
        assert(s@.subrange(i as int, i as int + m as int) =~= sep@);
    }
    true
}

/// Splits `s` on every occurrence of `sep`, leftmost first.
pub fn split_on(s: &str, sep: &str) -> (r: Vec<String>)
    requires
        sep@.len() >= 1,
    ensures
        r.deep_view() == spec_split(s@, sep@),
{
    let n = s.unicode_len();
    let m = sep.unicode_len();
    let mut out: Vec<String> = Vec::new();
    let mut cur = String::new();
    let mut i: usize = 0;
    proof {
        assert(s@.skip(0) =~= s@);
    }
    while i < n
        invariant
            0 <= i <= n,
            n == s@.len(),
            m == sep@.len(),
            1 <= m,
            spec_split(s@, sep@) == out.deep_view() + spec_split_rec(
                s@.skip(i as int),
                sep@,
                cur@,
            ),
        decreases n - i,
    {
        let ghost i0 = i as int;
        let ghost rem = s@.skip(i as int);
        let ghost cur_v = cur@;
        let ghost out_v = out.deep_view();
        if m <= n && i <= n - m && matches_at(s, sep, i) {
            proof {
                assert(rem.subrange(0, m as int) =~= s@.subrange(i0, i0 + m));
                assert(rem.skip(m as int) =~= s@.skip(i0 + m));
                assert(spec_split_rec(rem, sep@, cur_v) == seq![cur_v] + spec_split_rec(
                    s@.skip(i0 + m),
                    sep@,
                    Seq::<char>::empty(),
                ));
            }
            out.push(cur);
            cur = String::new();
            i = i + m;
            proof {
                assert(out.deep_view() =~= out_v.push(cur_v));
                assert(out_v.push(cur_v) + spec_split_rec(s@.skip(i as int), sep@, cur@) =~= out_v
                    + (seq![cur_v] + spec_split_rec(s@.skip(i as int), sep@, cur@)));
            }
        } else {
            proof {
                assert(rem.len() > 0);
                assert(rem[0] == s@[i0]);
                if m <= n && i <= n - m {
                    assert(s@.subrange(i0, i0 + m) != sep@);
                    assert(rem.subrange(0, m as int) =~= s@.subrange(i0, i0 + m));
                } else {
                    assert(rem.len() < m);
                }
                assert(rem.skip(1) =~= s@.skip(i0 + 1));
                assert(spec_split_rec(rem, sep@, cur_v) == spec_split_rec(
                    s@.skip(i0 + 1),
                    sep@,
                    cur_v.push(rem[0]),
                ));
            }
            let piece = s.substring_char(i, i + 1);
            proof {
                assert(cur_v + piece@ =~= cur_v.push(s@[i0]));
            }
            cur.append(piece);
            i = i + 1;
        }
    }
    proof {
        assert(s@.skip(n as int) =~= Seq::<char>::empty());
        assert(spec_split_rec(Seq::<char>::empty(), sep@, cur@) == seq![cur@]);
    }
    let ghost out_v = out.deep_view();
    let ghost cur_v = cur@;
    out.push(cur);
    proof {
        assert(out.deep_view() =~= out_v.push(cur_v));
        assert(out_v.push(cur_v) =~= out_v + seq![cur_v]);
    }
    out
}

/// A line is suppressed exactly when it is one of the two address-segment
/// tags, N3 or N4, and nothing more.
pub open spec fn spec_is_suppressed_line(line: Seq<char>) -> bool {
    line == "N3"@ || line == "N4"@
}

pub fn is_suppressed_line(line: &str) -> (r: bool)
    ensures
        r == spec_is_suppressed_line(line@),
{
    str_eq(line, "N3") || str_eq(line, "N4")
}

/// A segment-count line: the trailer tag SE followed by the field separator.
pub open spec fn spec_is_trailer_line(line: Seq<char>) -> bool {
    line.len() >= 3 && line.subrange(0, 3) == "SE*"@
}

pub fn is_trailer_line(line: &str) -> (r: bool)
    ensures
        r == spec_is_trailer_line(line@),
{
    if line.unicode_len() < 3 {
        false
    } else {
        str_eq(line.substring_char(0, 3), "SE*")
    }
}

/// The corrected segment-count line: the second `*`-delimited field, a
/// numeric count, is lowered by the number of suppressed lines; every other
/// field is kept unchanged.
pub open spec fn spec_rewrite_trailer(line: Seq<char>, suppressed: nat) -> Result<
    Seq<char>,
    EdiError,
> {
    let parts = spec_split(line, "*"@);
    if parts.len() < 3 {
        Err(EdiError::MalformedTrailer)
    } else if !(parts[1].len() >= 1 && spec_all_digits(parts[1]) && spec_digits_value(parts[1])
        <= u32::MAX) {
        Err(EdiError::MalformedTrailer)
    } else if spec_digits_value(parts[1]) < suppressed {
        Err(EdiError::NegativeCount)
    } else {
        Ok(
            spec_join(
                parts.update(
                    1,
                    spec_dec_of((spec_digits_value(parts[1]) - suppressed) as nat),
                ),
                "*"@,
            ),
        )
    }
}

pub open spec fn str_result_view(r: Result<String, EdiError>) -> Result<Seq<char>, EdiError> {
    match r {
        Ok(s) => Ok(s@),
        Err(e) => Err(e),
    }
}

/// Rewrites one segment-count line under the given suppressed-line count.
pub fn rewrite_trailer(line: &str, suppressed: usize) -> (r: Result<String, EdiError>)
    ensures
        str_result_view(r) == spec_rewrite_trailer(line@, suppressed as nat),
{
    proof {
        reveal_strlit("*");
    }
    let parts = split_on(line, "*");
    let ghost parts_v = parts.deep_view();
    if parts.len() < 3 {
        return Err(EdiError::MalformedTrailer);
    }
    let count = match parse_digits(parts[1].as_str()) {
        Some(c) => c,
        None => {
            return Err(EdiError::MalformedTrailer);
        },
    };
    if suppressed as u64 > count as u64 {
        return Err(EdiError::NegativeCount);
    }
    let new_count = count - (suppressed as u32);
    let num = u32_to_string(new_count);
    let ghost updated = parts_v.update(1, spec_dec_of((spec_digits_value(parts_v[1])
        - suppressed) as nat));
    proof {
        assert(updated.take(1) =~= seq![updated[0]]);
        assert(spec_join(updated.take(1), "*"@) == updated[0]);
        assert(updated[0] == parts_v[0]);
    }
    let mut out = String::from_str(parts[0].as_str());
    let mut j: usize = 1;
    while j < parts.len()
        invariant
            1 <= j <= parts.len(),
            3 <= parts.len(),
            parts_v == parts.deep_view(),
            parts_v.len() == parts@.len(),
            updated == parts_v.update(1, num@),
            num@ == updated[1],
            out@ == spec_join(updated.take(j as int), "*"@),
        decreases parts.len() - j,
    {
        out.append("*");
        if j == 1 {
            out.append(num.as_str());
        } else {
            out.append(parts[j].as_str());
        }
        proof {
            lemma_join_take_succ(updated, "*"@, j as int);
            assert(updated[j as int] == (if j == 1 {
                num@
            } else {
                parts_v[j as int]
            }));
        }
        j = j + 1;
    }
    proof {
        assert(updated.take(updated.len() as int) =~= updated);
    }
    Ok(out)
}

/// With no lines suppressed, rewriting a well-formed segment-count line
/// keeps the count: the second field is re-rendered, but it spells exactly
/// the value it spelled before.
pub proof fn lemma_zero_suppressed_keeps_count(line: Seq<char>)
    requires
        ({
            let parts = spec_split(line, "*"@);
            &&& parts.len() >= 3
            &&& parts[1].len() >= 1
            &&& spec_all_digits(parts[1])
            &&& spec_digits_value(parts[1]) <= u32::MAX
        }),
    ensures
        ({
            let parts = spec_split(line, "*"@);
            let count = spec_digits_value(parts[1]);
            &&& spec_rewrite_trailer(line, 0) == Ok::<Seq<char>, EdiError>(
                spec_join(parts.update(1, spec_dec_of(count)), "*"@),
            )
            &&& spec_digits_value(spec_dec_of(count)) == count
        }),
{
    let parts = spec_split(line, "*"@);
    crate::digits::lemma_digits_value_dec_of(spec_digits_value(parts[1]));
}

/// The whole correction pass over split lines, threading the running
/// suppressed-line count.
pub open spec fn spec_correct_lines(lines: Seq<Seq<char>>, suppressed: nat) -> Result<
    Seq<Seq<char>>,
    EdiError,
>
    decreases lines.len(),
{
    if lines.len() == 0 {
        Ok(Seq::<Seq<char>>::empty())
    } else {
        let line = lines[0];
        let rest = lines.skip(1);
        if spec_is_suppressed_line(line) {
            spec_correct_lines(rest, suppressed + 1)
        } else if spec_is_trailer_line(line) {
            match spec_rewrite_trailer(line, suppressed) {
                Ok(newline) => match spec_correct_lines(rest, suppressed) {
                    Ok(tail) => Ok(seq![newline] + tail),
                    Err(e) => Err(e),
                },
                Err(e) => Err(e),
            }
        } else {
            match spec_correct_lines(rest, suppressed) {
                Ok(tail) => Ok(seq![line] + tail),
                Err(e) => Err(e),
            }
        }
    }
}

/// The correction pass: fatal if no segment-count line is present at all,
/// otherwise the scan with a running suppressed count starting at zero.
pub open spec fn spec_correct(lines: Seq<Seq<char>>) -> Result<Seq<Seq<char>>, EdiError> {
    if forall|t: int| 0 <= t < lines.len() ==> !spec_is_trailer_line(#[trigger] lines[t]) {
        Err(EdiError::MissingTrailer)
    } else {
        spec_correct_lines(lines, 0)
    }
}

pub open spec fn lines_result_view(r: Result<Vec<String>, EdiError>) -> Result<
    Seq<Seq<char>>,
    EdiError,
> {
    match r {
        Ok(v) => Ok(v.deep_view()),
        Err(e) => Err(e),
    }
}

/// Applies the correction pass to already-split lines.
pub fn correct_lines(lines: &Vec<String>) -> (r: Result<Vec<String>, EdiError>)
    ensures
        lines_result_view(r) == spec_correct(lines.deep_view()),
{
    let ghost ldv = lines.deep_view();
    let mut found = false;
    let mut k: usize = 0;
    while k < lines.len()
        invariant
            0 <= k <= lines.len(),
            ldv == lines.deep_view(),
            ldv.len() == lines@.len(),
            found == (exists|t: int| 0 <= t < k && spec_is_trailer_line(#[trigger] ldv[t])),
        decreases lines.len() - k,
    {
        proof {
            assert(ldv[k as int] == lines@[k as int]@);
        }
        if is_trailer_line(lines[k].as_str()) {
            found = true;
        }
        k = k + 1;
    }
    if !found {
        return Err(EdiError::MissingTrailer);
    }
    let mut out: Vec<String> = Vec::new();
    let mut count: usize = 0;
    let mut i: usize = 0;
    proof {
        assert(ldv.skip(0) =~= ldv);
        assert(out.deep_view() + spec_correct_lines(ldv, 0)->Ok_0 =~= spec_correct_lines(
            ldv,
            0,
        )->Ok_0);
    }
    while i < lines.len()
        invariant
            0 <= i <= lines.len(),
            count <= i,
            ldv == lines.deep_view(),
            ldv.len() == lines@.len(),
            !(forall|t: int| 0 <= t < ldv.len() ==> !spec_is_trailer_line(#[trigger] ldv[t])),
            ({
                let full = spec_correct_lines(ldv, 0);
                match spec_correct_lines(ldv.skip(i as int), count as nat) {
                    Ok(tail) => full == Ok::<Seq<Seq<char>>, EdiError>(out.deep_view() + tail),
                    Err(e) => full == Err::<Seq<Seq<char>>, EdiError>(e),
                }
            }),
        decreases lines.len() - i,
    {
        let ghost i0 = i as int;
        let ghost out_v = out.deep_view();
        proof {
            assert(ldv[i0] == lines@[i0]@);
            assert(ldv.skip(i0)[0] == ldv[i0]);
            assert(ldv.skip(i0).skip(1) =~= ldv.skip(i0 + 1));
        }
        let line = &lines[i];
        if is_suppressed_line(line.as_str()) {
            count = count + 1;
        } else if is_trailer_line(line.as_str()) {
            match rewrite_trailer(line.as_str(), count) {
                Ok(newline) => {
                    let ghost new_v = newline@;
                    out.push(newline);
                    proof {
                        assert(out.deep_view() =~= out_v.push(new_v));
                        if spec_correct_lines(ldv.skip(i0 + 1), count as nat) is Ok {
                            let tail = spec_correct_lines(ldv.skip(i0 + 1), count as nat)->Ok_0;
                            assert(out_v.push(new_v) + tail =~= out_v + (seq![new_v] + tail));
                        }
                    }
                },
                Err(e) => {
                    return Err(e);
                },
            }
        } else {
            let copied = line.clone();
            let ghost new_v = copied@;
            out.push(copied);
            proof {
                assert(new_v == ldv[i0]);
                assert(out.deep_view() =~= out_v.push(new_v));
                if spec_correct_lines(ldv.skip(i0 + 1), count as nat) is Ok {
                    let tail = spec_correct_lines(ldv.skip(i0 + 1), count as nat)->Ok_0;
                    assert(out_v.push(new_v) + tail =~= out_v + (seq![new_v] + tail));
                }
            }
        }
        i = i + 1;
    }
    proof {
        assert(ldv.skip(ldv.len() as int) =~= Seq::<Seq<char>>::empty());
        assert(out.deep_view() + Seq::<Seq<char>>::empty() =~= out.deep_view());
    }
    Ok(out)
}

/// One leading and one trailing literal quote character, removed.
pub open spec fn spec_strip_quote(s: Seq<char>) -> Seq<char> {
    let t = if s.len() >= 1 && s[0] == '"' {
        s.skip(1)
    } else {
        s
    };
    if t.len() >= 1 && t.last() == '"' {
        t.drop_last()
    } else {
        t
    }
}

pub fn strip_outer_quotes(s: &str) -> (r: String)
    ensures
        r@ == spec_strip_quote(s@),
{
    let n = s.unicode_len();
    let start: usize = if n >= 1 && s.get_char(0) == '"' {
        1
    } else {
        0
    };
    let end: usize = if n > start && s.get_char(n - 1) == '"' {
        n - 1
    } else {
        n
    };
    let r = String::from_str(s.substring_char(start, end));
    proof {
        assert(r@ =~= spec_strip_quote(s@));
    }
    r
}

/// The full correction pass over the translated text: quotes stripped, the
/// text split on its literal backslash-n sequences, and the scan applied.
pub open spec fn spec_correct_text(text: Seq<char>) -> Result<Seq<Seq<char>>, EdiError> {
    spec_correct(spec_split(spec_strip_quote(text), "\\n"@))
}

/// Corrects the translated EDI text, returning the output lines in order.
pub fn correct_edi_text(text: &str) -> (r: Result<Vec<String>, EdiError>)
    ensures
        lines_result_view(r) == spec_correct_text(text@),
{
    let stripped = strip_outer_quotes(text);
    proof {
        reveal_strlit("\\n");
    }
    let lines = split_on(stripped.as_str(), "\\n");
    correct_lines(&lines)
}

} // verus!
