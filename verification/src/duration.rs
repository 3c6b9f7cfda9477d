//! ISO 8601 durations, such as `PT3M20S`, put into words.

use vstd::prelude::*;
use vstd::utf8::{is_ascii_chars, is_ascii_chars_encode_utf8};

verus! {

const DIGIT_0: u8 = 48;

const DIGIT_1: u8 = 49;

const DIGIT_9: u8 = 57;

const LETTER_D: u8 = 68;

const LETTER_H: u8 = 72;

const LETTER_M: u8 = 77;

const LETTER_P: u8 = 80;

const LETTER_T: u8 = 84;

const LETTER_Y: u8 = 89;

/// Whether `c` is a decimal digit.
pub open spec fn is_digit(c: char) -> bool {
    '0' <= c && c <= '9'
}

/// Whether `c` opens the date part (`P`) or the time part (`T`) of a duration.
pub open spec fn is_marker(c: char) -> bool {
    c == 'P' || c == 'T'
}

/// Whether `c` names a unit: years, months or minutes, days, hours, seconds.
pub open spec fn is_unit(c: char) -> bool {
    c == 'Y' || c == 'M' || c == 'D' || c == 'H' || c == 'S'
}

/// Whether a marker stands among the first `idx` characters of `s`.
pub open spec fn marked(s: Seq<char>, idx: int) -> bool
    decreases idx,
{
    if idx <= 0 {
        false
    } else {
        is_marker(s[idx - 1]) || marked(s, idx - 1)
    }
}

/// Whether the time part has begun within the first `idx` characters of `s`.
pub open spec fn in_time_part(s: Seq<char>, idx: int) -> bool
    decreases idx,
{
    if idx <= 0 {
        false
    } else {
        s[idx - 1] == 'T' || in_time_part(s, idx - 1)
    }
}

/// Where the run of digits that ends just before `idx` begins.
pub open spec fn run_start(s: Seq<char>, idx: int) -> int
    decreases idx,
{
    if idx <= 0 {
        0
    } else if is_digit(s[idx - 1]) {
        run_start(s, idx - 1)
    } else {
        idx
    }
}

/// The last digit among the first `idx` characters of `s`, or the null
/// character where there is none.
pub open spec fn last_digit(s: Seq<char>, idx: int) -> char
    decreases idx,
{
    if idx <= 0 {
        '\0'
    } else if is_digit(s[idx - 1]) {
        s[idx - 1]
    } else {
        last_digit(s, idx - 1)
    }
}

/// Whether `s` is a duration that can be put into words: it holds only
/// digits, markers and units, and a marker stands before its first unit.
pub open spec fn duration_text(s: Seq<char>) -> bool {
    forall|i: int|
        0 <= i < s.len() ==> {
            let c = #[trigger] s[i];
            (is_digit(c) || is_marker(c) || is_unit(c)) && (is_unit(c) ==> marked(s, i))
        }
}

/// The word for a unit. `M` is a month in the date part and a minute in the
/// time part.
pub open spec fn unit_name(c: char, in_time: bool) -> Seq<char> {
    if c == 'Y' {
        "year"@
    } else if c == 'M' {
        if in_time {
            "minute"@
        } else {
            "month"@
        }
    } else if c == 'D' {
        "day"@
    } else if c == 'H' {
        "hour"@
    } else {
        "second"@
    }
}

/// Whether the unit at `idx` is written in the plural: always, unless its
/// number has at most one digit and the last digit read so far is a one.
pub open spec fn plural(s: Seq<char>, idx: int) -> bool {
    idx - run_start(s, idx) > 1 || last_digit(s, idx) != '1'
}

/// The words for the unit at `idx`: its number, a space, the unit's name, and
/// an `s` where the plural is called for.
pub open spec fn component(s: Seq<char>, idx: int) -> Seq<char> {
    let counted = s.subrange(run_start(s, idx), idx) + " "@ + unit_name(
        s[idx],
        in_time_part(s, idx),
    );
    if plural(s, idx) {
        counted + "s"@
    } else {
        counted
    }
}

/// The words for the units among the first `idx` characters of `s`, in
/// order, with a comma and a space between each two.
pub open spec fn in_words(s: Seq<char>, idx: int) -> Seq<char>
    decreases idx,
{
    if idx <= 0 {
        Seq::<char>::empty()
    } else if is_unit(s[idx - 1]) {
        let earlier = in_words(s, idx - 1);
        if earlier.len() > 0 {
            earlier + ", "@ + component(s, idx - 1)
        } else {
            component(s, idx - 1)
        }
    } else {
        in_words(s, idx - 1)
    }
}

/// Whether a duration string can be put into words by `yt_parse_time`.
pub fn is_duration(s: &str) -> (ok: bool)
    ensures
        ok == duration_text(s@),
{
    let mut seen_marker = false;
    for c in it: s.chars()
        invariant
            it.seq() == s@,
            seen_marker == marked(s@, it.index() as int),
            forall|i: int|
                0 <= i < it.index() ==> {
                    let c = #[trigger] s@[i];
                    (is_digit(c) || is_marker(c) || is_unit(c)) && (is_unit(c) ==> marked(s@, i))
                },
    {
        if c == 'P' || c == 'T' {
            seen_marker = true;
        } else if c == 'Y' || c == 'M' || c == 'D' || c == 'H' || c == 'S' {
            if !seen_marker {
                return false;
            }
        } else if !(c >= '0' && c <= '9') {
            return false;
        }
    }
    true
}

/// Puts an ISO 8601 duration into words: `PT3M20S` becomes
/// `3 minutes, 20 seconds`.
pub fn yt_parse_time(s: &str) -> (length: String)
    requires
        duration_text(s@),
    ensures
        length@ == in_words(s@, s@.len() as int),
{
    proof {
        assert(is_ascii_chars(s@));
        is_ascii_chars_encode_utf8(s@);
    }
    let total = s.as_bytes().len();
    let mut in_time = false;
    let mut start: usize = 0;
    let mut prev_digit: u8 = 0;
    let mut length = String::new();
    let mut idx: usize = 0;
    while idx < total
        invariant
            total == s@.len(),
            s.is_ascii(),
            duration_text(s@),
            idx <= total,
            in_time == in_time_part(s@, idx as int),
            start == run_start(s@, idx as int),
            start <= idx,
            prev_digit == last_digit(s@, idx as int) as u8,
            last_digit(s@, idx as int) == '\0' || is_digit(last_digit(s@, idx as int)),
            length@ == in_words(s@, idx as int),
        decreases total - idx,
    {
        let c = s.get_ascii(idx);
        let ghost at = s@[idx as int];
        assert(is_digit(at) || is_marker(at) || is_unit(at));
        if c >= DIGIT_0 && c <= DIGIT_9 {
            prev_digit = c;
        } else if c == LETTER_P {
            start = idx + 1;
        } else if c == LETTER_T {
            start = idx + 1;
            in_time = true;
        } else {
            let ghost earlier = length@;
            if !length.as_str().is_empty() {
                length.append(", ");
            }
            length.append(s.substring_ascii(start, idx));
            length.append(" ");
            if c == LETTER_Y {
                length.append("year");
            } else if c == LETTER_M {
                if in_time {
                    length.append("minute");
                } else {
                    length.append("month");
                }
            } else if c == LETTER_D {
                length.append("day");
            } else if c == LETTER_H {
                length.append("hour");
            } else {
                length.append("second");
            }
            if idx - start > 1 || prev_digit != DIGIT_1 {
                length.append("s");
            }
            assert(length@ =~= if earlier.len() > 0 {
                earlier + ", "@ + component(s@, idx as int)
            } else {
                component(s@, idx as int)
            });
            start = idx + 1;
        }
        idx = idx + 1;
    }
    length
}

} // verus!
