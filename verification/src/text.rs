//! Text: numbers in decimal, and the lines of a message.

use vstd::prelude::*;
use vstd::string::{StrSliceExecFns, StringExecFns};

verus! {

/// The character for a decimal digit.
pub open spec fn digit(d: nat) -> char {
    if d == 0 {
        '0'
    } else if d == 1 {
        '1'
    } else if d == 2 {
        '2'
    } else if d == 3 {
        '3'
    } else if d == 4 {
        '4'
    } else if d == 5 {
        '5'
    } else if d == 6 {
        '6'
    } else if d == 7 {
        '7'
    } else if d == 8 {
        '8'
    } else {
        '9'
    }
}

/// The decimal digits of `n`, most significant first, without leading zeros.
pub open spec fn decimal(n: nat) -> Seq<char>
    decreases n,
{
    if n < 10 {
        seq![digit(n)]
    } else {
        decimal(n / 10).push(digit(n % 10))
    }
}

/// The text of one decimal digit.
fn digit_text(d: usize) -> (text: &'static str)
    requires
        d < 10,
    ensures
        text@ == seq![digit(d as nat)],
{
    proof {
        reveal_strlit("0");
        reveal_strlit("1");
        reveal_strlit("2");
        reveal_strlit("3");
        reveal_strlit("4");
        reveal_strlit("5");
        reveal_strlit("6");
        reveal_strlit("7");
        reveal_strlit("8");
        reveal_strlit("9");
    }
    let text = if d == 0 {
        "0"
    } else if d == 1 {
        "1"
    } else if d == 2 {
        "2"
    } else if d == 3 {
        "3"
    } else if d == 4 {
        "4"
    } else if d == 5 {
        "5"
    } else if d == 6 {
        "6"
    } else if d == 7 {
        "7"
    } else if d == 8 {
        "8"
    } else {
        "9"
    };
    assert(text@ =~= seq![digit(d as nat)]);
    text
}

/// `n` in decimal.
pub fn decimal_string(n: usize) -> (text: String)
    ensures
        text@ == decimal(n as nat),
    decreases n,
{
    if n < 10 {
        String::from_str(digit_text(n))
    } else {
        let mut text = decimal_string(n / 10);
        text.append(digit_text(n % 10));
        assert(text@ =~= decimal((n / 10) as nat).push(digit((n % 10) as nat)));
        text
    }
}

/// The line that starts at `start` and is ended by the newline at `newline`:
/// what stands between them, without the carriage return that may stand
/// before the newline.
pub open spec fn line_body(s: Seq<char>, start: int, newline: int) -> Seq<char> {
    if start < newline && s[newline - 1] == '\r' {
        s.subrange(start, newline - 1)
    } else {
        s.subrange(start, newline)
    }
}

/// The lines of `s` from the line that starts at `start`, of which the
/// characters before `from` hold no newline. A line ends at a newline; what
/// follows the last newline is a line if it is not empty.
pub open spec fn lines_scan(s: Seq<char>, start: int, from: int) -> Seq<Seq<char>>
    decreases s.len() - from,
{
    if from >= s.len() {
        if start < s.len() {
            seq![s.subrange(start, s.len() as int)]
        } else {
            Seq::<Seq<char>>::empty()
        }
    } else if s[from] == '\n' {
        seq![line_body(s, start, from)] + lines_scan(s, from + 1, from + 1)
    } else {
        lines_scan(s, start, from + 1)
    }
}

/// The lines of `s`.
pub open spec fn lines_of(s: Seq<char>) -> Seq<Seq<char>> {
    lines_scan(s, 0, 0)
}

/// The texts of `strings`, one for one.
pub open spec fn texts(strings: Seq<String>) -> Seq<Seq<char>> {
    strings.map_values(|s: String| s@)
}

/// The lines of `text`.
pub fn split_lines(text: &str) -> (lines: Vec<String>)
    ensures
        texts(lines@) == lines_of(text@),
{
    let len = text.unicode_len();
    let mut lines: Vec<String> = Vec::new();
    let mut start: usize = 0;
    let mut from: usize = 0;
    assert(texts(lines@) + lines_scan(text@, 0, 0) =~= lines_of(text@));
    while from < len
        invariant
            start <= from <= len,
            len == text@.len(),
            lines_of(text@) == texts(lines@) + lines_scan(text@, start as int, from as int),
        decreases len - from,
    {
        if text.get_char(from) == '\n' {
            let end = if start < from && text.get_char(from - 1) == '\r' {
                from - 1
            } else {
                from
            };
            let ghost before = lines@;
            lines.push(String::from_str(text.substring_char(start, end)));
            assert(texts(lines@) =~= texts(before).push(
                line_body(text@, start as int, from as int),
            ));
            assert(texts(lines@) + lines_scan(text@, from + 1, from + 1) =~= texts(before)
                + lines_scan(text@, start as int, from as int));
            start = from + 1;
        }
        from += 1;
    }
    if start < len {
        let ghost before = lines@;
        lines.push(String::from_str(text.substring_char(start, len)));
        assert(texts(lines@) =~= texts(before).push(text@.subrange(start as int, len as int)));
        assert(texts(lines@) =~= texts(before) + lines_scan(text@, start as int, from as int));
    } else {
        assert(texts(lines@) + lines_scan(text@, start as int, from as int) =~= texts(lines@));
    }
    lines
}

} // verus!
