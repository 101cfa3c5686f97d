//! Text: what this library relies on of `String` beyond what vstd states,
//! and the padding and the decimal numbers of the screen's lines.

use vstd::prelude::*;
use vstd::string::*;

verus! {

/// `String::push` appends the given character to the end of the string.
pub assume_specification[ String::push ](s: &mut String, ch: char)
    ensures
        final(s)@ == old(s)@.push(ch),
;

/// `String::pop` removes the last character and returns it, or returns `None`
/// and leaves the string as it is when it is empty.
pub assume_specification[ String::pop ](s: &mut String) -> (last: Option<char>)
    ensures
        final(s)@ == without_last(old(s)@),
        last == (if old(s)@.len() == 0 {
            None
        } else {
            Some(old(s)@.last())
        }),
;

/// The text without its last character; empty text stays empty.
pub open spec fn without_last(text: Seq<char>) -> Seq<char> {
    if text.len() == 0 {
        text
    } else {
        text.drop_last()
    }
}

/// `n` spaces.
pub open spec fn spaces(n: nat) -> Seq<char> {
    Seq::new(n, |i: int| ' ')
}

/// The text filled up with spaces at its end to `width` characters; a text
/// that is as long or longer stays as it is.
pub open spec fn padded_end(text: Seq<char>, width: nat) -> Seq<char> {
    if text.len() >= width {
        text
    } else {
        text + spaces((width - text.len()) as nat)
    }
}

/// The text filled up with spaces at its start to `width` characters; a text
/// that is as long or longer stays as it is.
pub open spec fn padded_start(text: Seq<char>, width: nat) -> Seq<char> {
    if text.len() >= width {
        text
    } else {
        spaces((width - text.len()) as nat) + text
    }
}

/// The character for a digit.
pub open spec fn digit(d: nat) -> char {
    if d == 0 {
        '0'
    } else if d == 1 {
        '1'
    } else if d == 2 {
        '2'
    } else if d == 3 {
        '3'
    } else if d == 4 {
        '4'
    } else if d == 5 {
        '5'
    } else if d == 6 {
        '6'
    } else if d == 7 {
        '7'
    } else if d == 8 {
        '8'
    } else {
        '9'
    }
}

/// The number in decimal, without leading zeros.
pub open spec fn decimal(n: nat) -> Seq<char>
    decreases n,
{
    if n < 10 {
        seq![digit(n)]
    } else {
        decimal(n / 10).push(digit(n % 10))
    }
}

/// Fills `text` up with spaces at its end to `width` characters.
pub fn pad_end(text: &str, width: usize) -> (padded: String)
    ensures
        padded@ == padded_end(text@, width as nat),
{
    let mut padded = text.to_owned();
    let mut len = text.unicode_len();
    if len >= width {
        return padded;
    }
    while len < width
        invariant
            text@.len() <= len <= width,
            padded@ == text@ + spaces((len - text@.len()) as nat),
        decreases width - len,
    {
        padded.push(' ');
        len += 1;
    }
    padded
}

/// Fills `text` up with spaces at its start to `width` characters.
pub fn pad_start(text: &str, width: usize) -> (padded: String)
    ensures
        padded@ == padded_start(text@, width as nat),
{
    let mut padded = String::new();
    let mut len = text.unicode_len();
    while len < width
        invariant
            text@.len() <= len,
            len > text@.len() ==> len <= width,
            padded@ == spaces((len - text@.len()) as nat),
        decreases width - len,
    {
        padded.push(' ');
        len += 1;
    }
    padded.append(text);
    padded
}

fn digit_char(d: usize) -> (c: char)
    requires
        d < 10,
    ensures
        c == digit(d as nat),
{
    if d == 0 {
        '0'
    } else if d == 1 {
        '1'
    } else if d == 2 {
        '2'
    } else if d == 3 {
        '3'
    } else if d == 4 {
        '4'
    } else if d == 5 {
        '5'
    } else if d == 6 {
        '6'
    } else if d == 7 {
        '7'
    } else if d == 8 {
        '8'
    } else {
        '9'
    }
}

/// Writes `n` in decimal at the end of `out`.
pub fn push_decimal(out: &mut String, n: usize)
    ensures
        final(out)@ == old(out)@ + decimal(n as nat),
    decreases n,
{
    if n >= 10 {
        push_decimal(out, n / 10);
    }
    out.push(digit_char(n % 10));
}

/// `n` in decimal.
pub fn to_decimal(n: usize) -> (text: String)
    ensures
        text@ == decimal(n as nat),
{
    let mut text = String::new();
    push_decimal(&mut text, n);
    text
}

} // verus!
