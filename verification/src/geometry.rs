//! The size of a screen as the framebuffer driver reports it in text.
//!
//! The driver writes the width and the height in decimal with a comma
//! between them, as in `1920,1080`, and ends the line.

use vstd::prelude::*;

verus! {

pub open spec fn is_digit(c: char) -> bool {
    '0' <= c && c <= '9'
}

pub open spec fn digit_value(c: char) -> nat {
    (c as u32 - '0' as u32) as nat
}

/// Whether `digits` is a decimal number: at least one character, all digits.
pub open spec fn is_number(digits: Seq<char>) -> bool {
    digits.len() > 0 && forall|i: int| 0 <= i < digits.len() ==> is_digit(#[trigger] digits[i])
}

/// The value of a decimal number.
pub open spec fn number(digits: Seq<char>) -> nat
    decreases digits.len(),
{
    if digits.len() == 0 {
        0
    } else {
        number(digits.drop_last()) * 10 + digit_value(digits.last())
    }
}

/// `text` without the line feed at its end, if it has one.
pub open spec fn without_line_feed(text: Seq<char>) -> Seq<char> {
    if text.len() > 0 && text.last() == '\n' {
        text.drop_last()
    } else {
        text
    }
}

/// Whether `line` reads as a size with its comma at index `comma`.
pub open spec fn splits_at(line: Seq<char>, comma: int) -> bool {
    0 <= comma < line.len() && line[comma] == ',' && is_number(line.take(comma)) && is_number(
        line.skip(comma + 1),
    )
}

/// The size that `text` reads as: two decimal numbers with one comma
/// between them and at most one line feed behind them. Anything else reads
/// as nothing.
pub open spec fn virtual_size(text: Seq<char>) -> Option<(nat, nat)> {
    let line = without_line_feed(text);
    if exists|comma: int| splits_at(line, comma) {
        let comma = choose|comma: int| splits_at(line, comma);
        Some((number(line.take(comma)), number(line.skip(comma + 1))))
    } else {
        None
    }
}

/// A line splits in one place at most: left of the comma there are only
/// digits.
pub proof fn lemma_split_is_unique(line: Seq<char>, first: int, second: int)
    requires
        splits_at(line, first),
        splits_at(line, second),
    ensures
        first == second,
{
    if first < second {
        assert(line.take(second)[first] == line[first]);
    } else if second < first {
        assert(line.take(first)[second] == line[second]);
    }
}

/// One digit more: the value of the first `end + 1 - start` characters from
/// `start` on, from the value of the first `end - start`.
proof fn lemma_number_step(line: Seq<char>, start: int, end: int)
    requires
        0 <= start <= end < line.len(),
    ensures
        number(line.subrange(start, end + 1)) == number(line.subrange(start, end)) * 10
            + digit_value(line[end]),
{
    assert(line.subrange(start, end + 1).drop_last() =~= line.subrange(start, end));
}

/// Reads the decimal number that starts at `start` and runs as far as there
/// are digits. Gives the index behind it and its value, the value as `None`
/// where it does not fit.
fn read_number(text: &str, len: usize, start: usize) -> (read: (usize, Option<usize>))
    requires
        len == text@.len(),
        start <= len,
    ensures
        start <= read.0 <= len,
        forall|i: int| start <= i < read.0 ==> is_digit(#[trigger] text@[i]),
        read.0 < len ==> !is_digit(text@[read.0 as int]),
        read.1 is Some <==> number(text@.subrange(start as int, read.0 as int)) <= usize::MAX,
        read.1 matches Some(value) ==> value == number(
            text@.subrange(start as int, read.0 as int),
        ),
{
    let mut at = start;
    let mut value: Option<usize> = Some(0);
    assert(text@.subrange(start as int, start as int) =~= Seq::<char>::empty());
    while at < len
        invariant
            len == text@.len(),
            start <= at <= len,
            forall|i: int| start <= i < at ==> is_digit(#[trigger] text@[i]),
            value is Some <==> number(text@.subrange(start as int, at as int)) <= usize::MAX,
            value matches Some(v) ==> v == number(text@.subrange(start as int, at as int)),
        ensures
            at < len ==> !is_digit(text@[at as int]),
        decreases len - at,
    {
        let c = text.get_char(at);
        if !('0' <= c && c <= '9') {
            break ;
        }
        proof {
            lemma_number_step(text@, start as int, at as int);
        }
        let digit = (c as u32 - '0' as u32) as usize;
        value =
        match value {
            Some(v) => match v.checked_mul(10) {
                Some(tens) => tens.checked_add(digit),
                None => None,
            },
            None => None,
        };
        at = at + 1;
    }
    (at, value)
}

/// Reads a size.
///
/// The size is given exactly when `text` reads as one and both numbers fit.
pub fn parse_virtual_size(text: &str) -> (size: Option<(usize, usize)>)
    ensures
        size is Some <==> (virtual_size(text@) matches Some((width, height)) && width <= usize::MAX
            && height <= usize::MAX),
        size matches Some((width, height)) ==> virtual_size(text@) == Some(
            (width as nat, height as nat),
        ),
{
    let len = text.unicode_len();
    let ghost line = without_line_feed(text@);
    let (comma, width) = read_number(text, len, 0);
    if comma == 0 || comma >= len || text.get_char(comma) != ',' {
        proof {
            if exists|c: int| splits_at(line, c) {
                let c = choose|c: int| splits_at(line, c);
                assert(line.take(c)[0] == text@[0]);
                if c < comma {
                    assert(text@[c] == ',');
                } else if c > comma {
                    assert(line.take(c)[comma as int] == text@[comma as int]);
                }
            }
        }
        return None;
    }
    let (end, height) = read_number(text, len, comma + 1);
    let ended = end == len || (end + 1 == len && text.get_char(end) == '\n');
    if end == comma + 1 || !ended {
        proof {
            if exists|c: int| splits_at(line, c) {
                let c = choose|c: int| splits_at(line, c);
                if c < comma {
                    assert(text@[c] == ',');
                } else if c > comma {
                    assert(line.take(c)[comma as int] == text@[comma as int]);
                } else {
                    let rest = line.skip(comma + 1);
                    if end == comma + 1 {
                        assert(rest[0] == text@[end as int]);
                    } else {
                        assert(rest[end - comma - 1] == text@[end as int]);
                        if end + 1 < len {
                        } else {
                            assert(text@.last() == text@[end as int]);
                        }
                    }
                }
            }
        }
        return None;
    }
    proof {
        assert(line =~= text@.take(end as int));
        assert(line.take(comma as int) =~= text@.subrange(0, comma as int));
        assert(line.skip(comma + 1) =~= text@.subrange(comma + 1, end as int));
        assert(splits_at(line, comma as int));
        let chosen = choose|c: int| splits_at(line, c);
        lemma_split_is_unique(line, comma as int, chosen);
    }
    match (width, height) {
        (Some(width), Some(height)) => Some((width, height)),
        _ => None,
    }
}

} // verus!
