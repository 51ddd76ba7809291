//! Text forms of values used in the models' string representations.

use vstd::prelude::*;

use crate::text::push_char;

verus! {

/// `true` or `false`, as Rust displays a boolean.
pub open spec fn bool_text(b: bool) -> Seq<char> {
    if b {
        "true"@
    } else {
        "false"@
    }
}

/// The character of a decimal digit.
pub open spec fn digit_char(d: nat) -> char {
    (d + 48) as char
}

/// The decimal form of `n`, without leading zeros.
pub open spec fn decimal(n: nat) -> Seq<char>
    decreases n,
{
    if n < 10 {
        seq![digit_char(n)]
    } else {
        decimal(n / 10).push(digit_char(n % 10))
    }
}

/// `'text'` when there is a text, `None` otherwise (Python's repr of an
/// optional string).
pub open spec fn quoted_or_none(o: Option<Seq<char>>) -> Seq<char> {
    match o {
        Some(s) => "'"@ + s + "'"@,
        None => "None"@,
    }
}

/// The text itself when there is one, `None` otherwise.
pub open spec fn text_or_none_word(o: Option<Seq<char>>) -> Seq<char> {
    match o {
        Some(s) => s,
        None => "None"@,
    }
}

/// The display form of a boolean.
pub fn bool_str(b: bool) -> (s: &'static str)
    ensures
        s@ == bool_text(b),
{
    if b {
        "true"
    } else {
        "false"
    }
}

fn digit(d: u64) -> (c: char)
    requires
        d < 10,
    ensures
        c == digit_char(d as nat),
{
    let b: u8 = 48 + d as u8;
    b as char
}

/// The decimal form of a number.
pub fn decimal_string(n: u64) -> (s: String)
    ensures
        s@ == decimal(n as nat),
    decreases n,
{
    if n < 10 {
        let mut s = String::new();
        push_char(&mut s, digit(n));
        s
    } else {
        let mut s = decimal_string(n / 10);
        push_char(&mut s, digit(n % 10));
        s
    }
}

/// Appends `'text'` or `None` for an optional string.
pub fn push_quoted_or_none(out: &mut String, o: &Option<String>)
    ensures
        final(out)@ == old(out)@ + quoted_or_none(match o {
            Some(s) => Some(s@),
            None => None,
        }),
{
    match o {
        Some(s) => {
            out.append("'");
            out.append(s.as_str());
            out.append("'");
        },
        None => {
            out.append("None");
        },
    }
}

/// Appends the text of an optional string, or `None`.
pub fn push_text_or_none(out: &mut String, o: &Option<String>)
    ensures
        final(out)@ == old(out)@ + text_or_none_word(match o {
            Some(s) => Some(s@),
            None => None,
        }),
{
    match o {
        Some(s) => {
            out.append(s.as_str());
        },
        None => {
            out.append("None");
        },
    }
}

} // verus!
