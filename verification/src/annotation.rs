//! Icon-tagged temporal annotations inside checklist text.
//!
//! A deadline or completion annotation is an icon character, an optional run
//! of spaces, and either a date-time `YYYY-MM-DD HH:MM:SS` or a bare date
//! `YYYY-MM-DD`.  A pass over the text looks for the leftmost such
//! occurrence; when its numbers name a real calendar timestamp, the pass
//! returns that timestamp and the text with every copy of the exact matched
//! substring removed.  A pass that finds nothing, or whose numbers are not a
//! calendar timestamp, leaves the text untouched.

use vstd::prelude::*;

use crate::datetime::DateTime;

verus! {

/// Icon character that tags a deadline annotation.
pub const DEADLINE_ICON: char = '\u{1F4C5}';

/// Icon character that tags a completion annotation.
pub const COMPLETED_ICON: char = '\u{2705}';

/// An ASCII decimal digit.
pub open spec fn is_digit(c: char) -> bool {
    0x30 <= c as int && c as int <= 0x39
}

/// Numeric value of an ASCII digit.
pub open spec fn digit_val(c: char) -> int {
    c as int - 0x30
}

/// Two ASCII digits at positions `i` and `i + 1`.
pub open spec fn digits2_at(s: Seq<char>, i: int) -> bool {
    is_digit(s[i]) && is_digit(s[i + 1])
}

/// Four ASCII digits starting at position `i`.
pub open spec fn digits4_at(s: Seq<char>, i: int) -> bool {
    digits2_at(s, i) && digits2_at(s, i + 2)
}

/// Value of the two digits at position `i`.
pub open spec fn num2(s: Seq<char>, i: int) -> int {
    10 * digit_val(s[i]) + digit_val(s[i + 1])
}

/// Value of the four digits at position `i`.
pub open spec fn num4(s: Seq<char>, i: int) -> int {
    100 * num2(s, i) + num2(s, i + 2)
}

/// The layout `YYYY-MM-DD` starts at position `i`.
pub open spec fn date_syntax_at(s: Seq<char>, i: int) -> bool {
    &&& 0 <= i
    &&& i + 10 <= s.len()
    &&& digits4_at(s, i)
    &&& s[i + 4] == '-'
    &&& digits2_at(s, i + 5)
    &&& s[i + 7] == '-'
    &&& digits2_at(s, i + 8)
}

/// The layout `YYYY-MM-DD HH:MM:SS` starts at position `i`.
pub open spec fn datetime_syntax_at(s: Seq<char>, i: int) -> bool {
    &&& i + 19 <= s.len()
    &&& date_syntax_at(s, i)
    &&& s[i + 10] == ' '
    &&& digits2_at(s, i + 11)
    &&& s[i + 13] == ':'
    &&& digits2_at(s, i + 14)
    &&& s[i + 16] == ':'
    &&& digits2_at(s, i + 17)
}

/// First position at or after `i` that does not hold a space character.
pub open spec fn skip_spaces(s: Seq<char>, i: int) -> int
    decreases s.len() - i,
{
    if i < 0 || i >= s.len() {
        i
    } else if s[i] == ' ' {
        skip_spaces(s, i + 1)
    } else {
        i
    }
}

/// The annotation pattern starts at `i`: the icon, a run of spaces, then a
/// date-time (`with_time`) or a bare date.
pub open spec fn pattern_at(s: Seq<char>, icon: char, with_time: bool, i: int) -> bool {
    &&& 0 <= i < s.len()
    &&& s[i] == icon
    &&& ({
        let j = skip_spaces(s, i + 1);
        if with_time {
            datetime_syntax_at(s, j)
        } else {
            date_syntax_at(s, j)
        }
    })
}

/// One past the last character of the pattern occurrence starting at `i`.
pub open spec fn pattern_end(s: Seq<char>, icon: char, with_time: bool, i: int) -> int {
    skip_spaces(s, i + 1) + if with_time {
        19int
    } else {
        10int
    }
}

/// Position of the leftmost pattern occurrence at or after `from`.
pub open spec fn find_pattern_from(s: Seq<char>, icon: char, with_time: bool, from: int) -> Option<
    int,
>
    decreases s.len() - from,
{
    if from < 0 || from >= s.len() {
        None
    } else if pattern_at(s, icon, with_time, from) {
        Some(from)
    } else {
        find_pattern_from(s, icon, with_time, from + 1)
    }
}

/// Position of the leftmost pattern occurrence in `s`, if any.
pub open spec fn find_pattern(s: Seq<char>, icon: char, with_time: bool) -> Option<int> {
    find_pattern_from(s, icon, with_time, 0)
}

/// `s` with every occurrence of `pat` removed, scanning left to right and
/// skipping past each hit, as `str::replace` with an empty replacement does.
pub open spec fn remove_all(s: Seq<char>, pat: Seq<char>) -> Seq<char>
    decreases s.len(),
{
    if pat.len() == 0 || s.len() < pat.len() {
        s
    } else if s.subrange(0, pat.len() as int) == pat {
        remove_all(s.skip(pat.len() as int), pat)
    } else {
        seq![s[0]] + remove_all(s.skip(1), pat)
    }
}

/// The timestamp named by the date-time layout whose digits start at `j`.
pub open spec fn datetime_of(s: Seq<char>, j: int) -> DateTime {
    DateTime {
        year: num4(s, j) as u16,
        month: num2(s, j + 5) as u8,
        day: num2(s, j + 8) as u8,
        hour: num2(s, j + 11) as u8,
        minute: num2(s, j + 14) as u8,
        second: num2(s, j + 17) as u8,
    }
}

/// The timestamp named by the bare-date layout whose digits start at `j`:
/// midnight at the start of that day.
pub open spec fn date_of(s: Seq<char>, j: int) -> DateTime {
    DateTime {
        year: num4(s, j) as u16,
        month: num2(s, j + 5) as u8,
        day: num2(s, j + 8) as u8,
        hour: 0,
        minute: 0,
        second: 0,
    }
}

/// What the date-time sub-form of a pass returns: the timestamp of the
/// leftmost date-time occurrence and the text with every copy of the matched
/// substring removed, or nothing when there is no occurrence or its numbers
/// are not a calendar timestamp.
pub open spec fn parse_datetime_spec(s: Seq<char>, icon: char) -> Option<(DateTime, Seq<char>)> {
    match find_pattern(s, icon, true) {
        None => None,
        Some(i) => {
            let dt = datetime_of(s, skip_spaces(s, i + 1));
            if dt.valid() {
                Some((dt, remove_all(s, s.subrange(i, pattern_end(s, icon, true, i)))))
            } else {
                None
            }
        },
    }
}

/// What the bare-date sub-form of a pass returns, as
/// [`parse_datetime_spec`] with the shorter layout.
pub open spec fn parse_date_spec(s: Seq<char>, icon: char) -> Option<(DateTime, Seq<char>)> {
    match find_pattern(s, icon, false) {
        None => None,
        Some(i) => {
            let dt = date_of(s, skip_spaces(s, i + 1));
            if dt.valid() {
                Some((dt, remove_all(s, s.subrange(i, pattern_end(s, icon, false, i)))))
            } else {
                None
            }
        },
    }
}

/// One whole annotation pass for one icon: the date-time sub-form first,
/// then the bare-date sub-form, and the text untouched when neither yields.
pub open spec fn annotate_spec(s: Seq<char>, icon: char) -> (Option<DateTime>, Seq<char>) {
    match parse_datetime_spec(s, icon) {
        Some(p) => (Some(p.0), p.1),
        None => match parse_date_spec(s, icon) {
            Some(p) => (Some(p.0), p.1),
            None => (None, s),
        },
    }
}

/// Whether `c` is an ASCII decimal digit.
fn is_digit_exec(c: char) -> (r: bool)
    ensures
        r == is_digit(c),
{
    let u = c as u32;
    0x30 <= u && u <= 0x39
}

/// Whether two ASCII digits stand at positions `i` and `i + 1`.
fn check_digits2(s: &str, n: usize, i: usize) -> (r: bool)
    requires
        n == s@.len(),
        i + 2 <= n,
    ensures
        r == digits2_at(s@, i as int),
{
    is_digit_exec(s.get_char(i)) && is_digit_exec(s.get_char(i + 1))
}

/// Whether the layout `YYYY-MM-DD` starts at position `j`.
fn check_date_syntax(s: &str, n: usize, j: usize) -> (r: bool)
    requires
        n == s@.len(),
    ensures
        r == date_syntax_at(s@, j as int),
{
    if j > n || n - j < 10 {
        return false;
    }
    check_digits2(s, n, j) && check_digits2(s, n, j + 2) && s.get_char(j + 4) == '-'
        && check_digits2(s, n, j + 5) && s.get_char(j + 7) == '-' && check_digits2(s, n, j + 8)
}

/// Whether the layout `YYYY-MM-DD HH:MM:SS` starts at position `j`.
fn check_datetime_syntax(s: &str, n: usize, j: usize) -> (r: bool)
    requires
        n == s@.len(),
    ensures
        r == datetime_syntax_at(s@, j as int),
{
    if j > n || n - j < 19 {
        return false;
    }
    check_date_syntax(s, n, j) && s.get_char(j + 10) == ' ' && check_digits2(s, n, j + 11)
        && s.get_char(j + 13) == ':' && check_digits2(s, n, j + 14) && s.get_char(j + 16) == ':'
        && check_digits2(s, n, j + 17)
}

/// First position at or after `i` that does not hold a space character.
fn skip_spaces_exec(s: &str, n: usize, i: usize) -> (r: usize)
    requires
        n == s@.len(),
        i <= n,
    ensures
        r as int == skip_spaces(s@, i as int),
        i <= r <= n,
{
    let mut k: usize = i;
    while k < n && s.get_char(k) == ' '
        invariant
            i <= k <= n,
            n == s@.len(),
            skip_spaces(s@, i as int) == skip_spaces(s@, k as int),
        decreases n - k,
    {
        k = k + 1;
    }
    k
}

/// Position of the leftmost pattern occurrence in `s`, if any.
fn find_pattern_exec(s: &str, n: usize, icon: char, with_time: bool) -> (r: Option<usize>)
    requires
        n == s@.len(),
    ensures
        (r matches Some(i) ==> find_pattern(s@, icon, with_time) == Some(i as int) && pattern_at(
            s@,
            icon,
            with_time,
            i as int,
        ) && i < n),
        (r is None ==> find_pattern(s@, icon, with_time) is None),
{
    let mut i: usize = 0;
    while i < n
        invariant
            i <= n,
            n == s@.len(),
            find_pattern(s@, icon, with_time) == find_pattern_from(s@, icon, with_time, i as int),
        decreases n - i,
    {
        if s.get_char(i) == icon {
            let j = skip_spaces_exec(s, n, i + 1);
            let ok = if with_time {
                check_datetime_syntax(s, n, j)
            } else {
                check_date_syntax(s, n, j)
            };
            if ok {
                return Some(i);
            }
        }
        proof {
            assert(!pattern_at(s@, icon, with_time, i as int));
        }
        i = i + 1;
    }
    None
}

/// Value of the two digits at position `i`.
fn read_num2(s: &str, n: usize, i: usize) -> (v: u8)
    requires
        n == s@.len(),
        i + 2 <= n,
        digits2_at(s@, i as int),
    ensures
        v as int == num2(s@, i as int),
        v < 100,
{
    let c0 = s.get_char(i) as u32;
    let c1 = s.get_char(i + 1) as u32;
    (((c0 - 0x30) * 10 + (c1 - 0x30)) as u8)
}

/// Value of the four digits at position `i`.
fn read_num4(s: &str, n: usize, i: usize) -> (v: u16)
    requires
        n == s@.len(),
        i + 4 <= n,
        digits4_at(s@, i as int),
    ensures
        v as int == num4(s@, i as int),
        v < 10000,
{
    let hi = read_num2(s, n, i);
    let lo = read_num2(s, n, i + 2);
    (hi as u16) * 100 + (lo as u16)
}

/// Whether `pat` stands at position `i` of `s`.
fn matches_at(s: &str, n: usize, i: usize, pat: &str, m: usize) -> (r: bool)
    requires
        n == s@.len(),
        m == pat@.len(),
        i + m <= n,
    ensures
        r == (s@.subrange(i as int, i as int + m as int) == pat@),
{
    let mut k: usize = 0;
    while k < m
        invariant
            k <= m,
            n == s@.len(),
            m == pat@.len(),
            i + m <= n,
            forall|t: int| 0 <= t < k ==> s@[i + t] == #[trigger] pat@[t],
        decreases m - k,
    {
        if s.get_char(i + k) != pat.get_char(k) {
            proof {
                assert(s@.subrange(i as int, i as int + m as int)[k as int] == s@[i + k]);
            }
            return false;
        }
        k = k + 1;
    }
    proof {
        assert(s@.subrange(i as int, i as int + m as int) =~= pat@);
    }
    true
}

proof fn lemma_remove_all_step_match(s: Seq<char>, pat: Seq<char>, i: int)
    requires
        0 <= i,
        1 <= pat.len(),
        i + pat.len() <= s.len(),
        s.subrange(i, i + pat.len()) == pat,
    ensures
        remove_all(s.skip(i), pat) == remove_all(s.skip(i + pat.len()), pat),
{
    let t = s.skip(i);
    assert(t.subrange(0, pat.len() as int) =~= s.subrange(i, i + pat.len()));
    assert(t.skip(pat.len() as int) =~= s.skip(i + pat.len()));
}

proof fn lemma_remove_all_step_char(s: Seq<char>, pat: Seq<char>, i: int)
    requires
        0 <= i < s.len(),
        1 <= pat.len(),
        !(i + pat.len() <= s.len() && s.subrange(i, i + pat.len()) == pat),
    ensures
        remove_all(s.skip(i), pat) == seq![s[i]] + remove_all(s.skip(i + 1), pat),
{
    let t = s.skip(i);
    assert(t[0] == s[i]);
    if i + pat.len() <= s.len() {
        assert(t.subrange(0, pat.len() as int) =~= s.subrange(i, i + pat.len()));
        assert(t.skip(1) =~= s.skip(i + 1));
    } else {
        assert(s.skip(i + 1).len() < pat.len());
        assert(t =~= seq![s[i]] + s.skip(i + 1));
    }
}

/// `s` with every occurrence of `pat` removed, scanning left to right.
fn remove_all_exec(s: &str, n: usize, pat: &str) -> (r: String)
    requires
        n == s@.len(),
        1 <= pat@.len(),
    ensures
        r@ == remove_all(s@, pat@),
{
    let m = pat.unicode_len();
    let mut r = String::new();
    let mut i: usize = 0;
    proof {
        assert(s@.skip(0) =~= s@);
        assert(r@ + remove_all(s@, pat@) =~= remove_all(s@, pat@));
    }
    while i < n
        invariant
            i <= n,
            n == s@.len(),
            m == pat@.len(),
            1 <= m,
            r@ + remove_all(s@.skip(i as int), pat@) == remove_all(s@, pat@),
        decreases n - i,
    {
        if m <= n - i && matches_at(s, n, i, pat, m) {
            proof {
                lemma_remove_all_step_match(s@, pat@, i as int);
            }
            i = i + m;
        } else {
            let piece = s.substring_char(i, i + 1);
            r.append(piece);
            proof {
                lemma_remove_all_step_char(s@, pat@, i as int);
                assert(piece@ =~= seq![s@[i as int]]);
            }
            i = i + 1;
        }
    }
    proof {
        assert(s@.skip(n as int) =~= Seq::<char>::empty());
        assert(r@ + Seq::<char>::empty() =~= r@);
    }
    r
}

/// Looks for the leftmost occurrence of `icon`, optional spaces, and a
/// date-time `YYYY-MM-DD HH:MM:SS`; when the numbers name a calendar
/// timestamp, returns it and the text with every copy of the matched
/// substring removed.
pub fn parse_iconed_datetime(text: &str, icon: char) -> (r: Option<(DateTime, String)>)
    ensures
        match parse_datetime_spec(text@, icon) {
            None => r is None,
            Some(p) => r matches Some(q) && q.0 == p.0 && q.1@ == p.1,
        },
{
    let n = text.unicode_len();
    match find_pattern_exec(text, n, icon, true) {
        None => None,
        Some(i) => {
            let j = skip_spaces_exec(text, n, i + 1);
            let year = read_num4(text, n, j);
            let month = read_num2(text, n, j + 5);
            let day = read_num2(text, n, j + 8);
            let hour = read_num2(text, n, j + 11);
            let minute = read_num2(text, n, j + 14);
            let second = read_num2(text, n, j + 17);
            match DateTime::new(year, month, day, hour, minute, second) {
                None => None,
                Some(dt) => {
                    let pat = text.substring_char(i, j + 19);
                    let cleaned = remove_all_exec(text, n, pat);
                    Some((dt, cleaned))
                },
            }
        },
    }
}

/// Looks for the leftmost occurrence of `icon`, optional spaces, and a bare
/// date `YYYY-MM-DD`; when the numbers name a calendar date, returns
/// midnight of that day and the text with every copy of the matched
/// substring removed.
pub fn parse_iconed_date(text: &str, icon: char) -> (r: Option<(DateTime, String)>)
    ensures
        match parse_date_spec(text@, icon) {
            None => r is None,
            Some(p) => r matches Some(q) && q.0 == p.0 && q.1@ == p.1,
        },
{
    let n = text.unicode_len();
    match find_pattern_exec(text, n, icon, false) {
        None => None,
        Some(i) => {
            let j = skip_spaces_exec(text, n, i + 1);
            let year = read_num4(text, n, j);
            let month = read_num2(text, n, j + 5);
            let day = read_num2(text, n, j + 8);
            match DateTime::new(year, month, day, 0, 0, 0) {
                None => None,
                Some(dt) => {
                    let pat = text.substring_char(i, j + 10);
                    let cleaned = remove_all_exec(text, n, pat);
                    Some((dt, cleaned))
                },
            }
        },
    }
}

/// One whole annotation pass for one icon: the date-time sub-form first,
/// then the bare-date sub-form; the text comes back untouched when neither
/// yields.
pub fn annotate(text: String, icon: char) -> (r: (Option<DateTime>, String))
    ensures
        r.0 == annotate_spec(text@, icon).0,
        r.1@ == annotate_spec(text@, icon).1,
{
    match parse_iconed_datetime(text.as_str(), icon) {
        Some((dt, cleaned)) => (Some(dt), cleaned),
        None => match parse_iconed_date(text.as_str(), icon) {
            Some((dt, cleaned)) => (Some(dt), cleaned),
            None => (None, text),
        },
    }
}

proof fn lemma_no_icon_no_pattern(s: Seq<char>, icon: char, with_time: bool, from: int)
    requires
        forall|k: int| 0 <= k < s.len() ==> s[k] != icon,
    ensures
        find_pattern_from(s, icon, with_time, from) is None,
    decreases s.len() - from,
{
    if 0 <= from < s.len() {
        lemma_no_icon_no_pattern(s, icon, with_time, from + 1);
    }
}

/// An annotation pass over text in which the icon does not occur finds
/// nothing and leaves the text exactly as it is; in particular a second
/// pass over text the first pass cleared of the icon is a no-op.
pub proof fn lemma_no_icon_no_annotation(s: Seq<char>, icon: char)
    requires
        forall|k: int| 0 <= k < s.len() ==> s[k] != icon,
    ensures
        annotate_spec(s, icon) == (None::<DateTime>, s),
{
    lemma_no_icon_no_pattern(s, icon, true, 0);
    lemma_no_icon_no_pattern(s, icon, false, 0);
}

} // verus!
