//! Colours of a rendered code: `#` and six hexadecimal digits.

use vstd::prelude::*;
use vstd::string::StrSliceExecFns;
use crate::models::text_of;

verus! {

/// The dark colour used where a request names none that is valid.
pub const DEFAULT_FOREGROUND: &'static str = "#000000";

/// The light colour used where a request names none that is valid.
pub const DEFAULT_BACKGROUND: &'static str = "#FFFFFF";

/// `c` is one of `0`-`9`, `a`-`f`, `A`-`F`.
pub open spec fn is_hex_digit(c: char) -> bool {
    ||| '0' <= c <= '9'
    ||| 'a' <= c <= 'f'
    ||| 'A' <= c <= 'F'
}

/// `s` is exactly a `#` followed by six hexadecimal digits.
pub open spec fn is_hex_color(s: Seq<char>) -> bool {
    &&& s.len() == 7
    &&& s[0] == '#'
    &&& forall|i: int| 1 <= i < 7 ==> is_hex_digit(#[trigger] s[i])
}

/// Whether `c` is a hexadecimal digit, in either case.
pub fn is_hex_digit_char(c: char) -> (r: bool)
    ensures
        r == is_hex_digit(c),
{
    ('0' <= c && c <= '9') || ('a' <= c && c <= 'f') || ('A' <= c && c <= 'F')
}

/// Whether `color` is a `#` followed by exactly six hexadecimal digits.
/// Nothing is normalised: no alpha channel, no short form, no colour names.
pub fn is_valid_color(color: &str) -> (r: bool)
    ensures
        r == is_hex_color(color@),
{
    if color.unicode_len() != 7 {
        return false;
    }
    if color.get_char(0) != '#' {
        return false;
    }
    let mut i: usize = 1;
    while i < 7
        invariant
            1 <= i <= 7,
            color@.len() == 7,
            forall|j: int| 1 <= j < i ==> is_hex_digit(#[trigger] color@[j]),
        decreases 7 - i,
    {
        if !is_hex_digit_char(color.get_char(i)) {
            return false;
        }
        i += 1;
    }
    true
}

/// The colour that is used for a requested one: the requested colour where
/// it is there and valid, else the fallback. An invalid colour is no error.
pub open spec fn color_or(requested: Option<Seq<char>>, fallback: Seq<char>) -> Seq<char> {
    match requested {
        Some(color) => if is_hex_color(color) {
            color
        } else {
            fallback
        },
        None => fallback,
    }
}

/// Black and white, the two fallbacks, are valid colours themselves.
pub proof fn lemma_default_colors_are_valid()
    ensures
        is_hex_color(DEFAULT_FOREGROUND@),
        is_hex_color(DEFAULT_BACKGROUND@),
{
    reveal_strlit("#000000");
    reveal_strlit("#FFFFFF");
    assert forall|i: int| 1 <= i < 7 implies is_hex_digit(#[trigger] DEFAULT_FOREGROUND@[i]) by {
        assert(DEFAULT_FOREGROUND@[i] == '0');
    }
    assert forall|i: int| 1 <= i < 7 implies is_hex_digit(#[trigger] DEFAULT_BACKGROUND@[i]) by {
        assert(DEFAULT_BACKGROUND@[i] == 'F');
    }
}

/// The colour that is used for a requested one.
pub fn color_or_default<'a>(requested: &'a Option<String>, fallback: &'a str) -> (r: &'a str)
    ensures
        r@ == color_or(text_of(*requested), fallback@),
        is_hex_color(fallback@) ==> is_hex_color(r@),
{
    match requested {
        Some(color) => if is_valid_color(color.as_str()) {
            color.as_str()
        } else {
            fallback
        },
        None => fallback,
    }
}

} // verus!
