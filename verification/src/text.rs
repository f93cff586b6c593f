//! Numbers and attribute values as text.

use vstd::prelude::*;
use vstd::string::{StrSliceExecFns, StringExecFns};

verus! {

/// The character of a decimal digit.
pub open spec fn digit_char(digit: int) -> char {
    if digit == 0 {
        '0'
    } else if digit == 1 {
        '1'
    } else if digit == 2 {
        '2'
    } else if digit == 3 {
        '3'
    } else if digit == 4 {
        '4'
    } else if digit == 5 {
        '5'
    } else if digit == 6 {
        '6'
    } else if digit == 7 {
        '7'
    } else if digit == 8 {
        '8'
    } else {
        '9'
    }
}

/// A natural number in decimal digits, the most significant first, without
/// leading zeros.
pub open spec fn natural_text(value: nat) -> Seq<char>
    decreases value,
{
    if value < 10 {
        seq![digit_char(value as int)]
    } else {
        natural_text(value / 10).push(digit_char((value % 10) as int))
    }
}

/// A whole number in decimal digits, with a minus sign before a negative
/// one.
pub open spec fn decimal_text(value: int) -> Seq<char> {
    if value < 0 {
        seq!['-'] + natural_text((-value) as nat)
    } else {
        natural_text(value as nat)
    }
}

/// What stands for a character inside a quoted attribute value: the
/// character itself, or its entity where the character has a meaning of its
/// own in markup.
pub open spec fn escaped_char(c: char) -> Seq<char> {
    if c == '&' {
        "&amp;"@
    } else if c == '<' {
        "&lt;"@
    } else if c == '>' {
        "&gt;"@
    } else if c == '"' {
        "&quot;"@
    } else if c == '\'' {
        "&apos;"@
    } else {
        seq![c]
    }
}

/// A text with each character replaced by what stands for it inside a
/// quoted attribute value.
pub open spec fn escaped_text(text: Seq<char>) -> Seq<char>
    decreases text.len(),
{
    if text.len() == 0 {
        Seq::empty()
    } else {
        escaped_text(text.drop_last()) + escaped_char(text.last())
    }
}

/// The text of one decimal digit.
fn digit_text(digit: u8) -> (text: &'static str)
    requires
        digit < 10,
    ensures
        text@ == seq![digit_char(digit as int)],
{
    proof {
        reveal_strlit("0");
        reveal_strlit("1");
        reveal_strlit("2");
        reveal_strlit("3");
        reveal_strlit("4");
        reveal_strlit("5");
        reveal_strlit("6");
        reveal_strlit("7");
        reveal_strlit("8");
        reveal_strlit("9");
    }
    let text = match digit {
        0 => "0",
        1 => "1",
        2 => "2",
        3 => "3",
        4 => "4",
        5 => "5",
        6 => "6",
        7 => "7",
        8 => "8",
        _ => "9",
    };
    assert(text@ =~= seq![digit_char(digit as int)]);
    text
}

/// Appends a natural number in decimal digits.
pub fn write_natural(out: &mut String, value: u128)
    ensures
        final(out)@ == old(out)@ + natural_text(value as nat),
    decreases value,
{
    if value >= 10 {
        write_natural(out, value / 10);
    }
    out.append(digit_text((value % 10) as u8));
}

/// Appends a whole number in decimal digits, with a minus sign before a
/// negative one.
pub fn write_decimal(out: &mut String, value: i128)
    ensures
        final(out)@ == old(out)@ + decimal_text(value as int),
{
    if value < 0 {
        proof {
            reveal_strlit("-");
        }
        out.append("-");
        let magnitude: u128 = if value == i128::MIN {
            0x8000_0000_0000_0000_0000_0000_0000_0000u128
        } else {
            (-value) as u128
        };
        write_natural(out, magnitude);
        assert(final(out)@ =~= old(out)@ + decimal_text(value as int));
    } else {
        write_natural(out, value as u128);
    }
}

/// A whole number in decimal digits.
pub fn decimal(value: i128) -> (text: String)
    ensures
        text@ == decimal_text(value as int),
{
    let mut text = String::new();
    write_decimal(&mut text, value);
    text
}

/// Appends `text` with each character replaced by what stands for it inside
/// a quoted attribute value.
///
/// Each character is looked up from the start of the text, so the cost
/// grows with the square of the length: this is meant for colours.
pub fn write_escaped(out: &mut String, text: &str)
    ensures
        final(out)@ == old(out)@ + escaped_text(text@),
{
    let length = text.unicode_len();
    let mut i: usize = 0;
    while i < length
        invariant
            i <= length,
            length == text@.len(),
            out@ == old(out)@ + escaped_text(text@.take(i as int)),
        decreases length - i,
    {
        let c = text.get_char(i);
        proof {
            assert(text@.take(i + 1).drop_last() == text@.take(i as int));
            assert(text@.take(i + 1).last() == c);
        }
        if c == '&' {
            out.append("&amp;");
        } else if c == '<' {
            out.append("&lt;");
        } else if c == '>' {
            out.append("&gt;");
        } else if c == '"' {
            out.append("&quot;");
        } else if c == '\'' {
            out.append("&apos;");
        } else {
            let single = text.substring_char(i, i + 1);
            assert(single@ =~= seq![c]);
            out.append(single);
        }
        i += 1;
    }
    proof {
        assert(text@.take(length as int) == text@);
    }
}

/// In an escaped text no character ends a quoted attribute value or opens
/// a tag: it holds no quotation mark, no apostrophe and no angle bracket.
pub proof fn lemma_escaped_is_inert(text: Seq<char>)
    ensures
        forall|i: int|
            0 <= i < escaped_text(text).len() ==> ({
                let c = #[trigger] escaped_text(text)[i];
                c != '"' && c != '\'' && c != '<' && c != '>'
            }),
    decreases text.len(),
{
    if text.len() > 0 {
        let before = escaped_text(text.drop_last());
        let tail = escaped_char(text.last());
        lemma_escaped_is_inert(text.drop_last());
        reveal_strlit("&amp;");
        reveal_strlit("&lt;");
        reveal_strlit("&gt;");
        reveal_strlit("&quot;");
        reveal_strlit("&apos;");
        assert forall|i: int| 0 <= i < escaped_text(text).len() implies {
            let c = #[trigger] escaped_text(text)[i];
            c != '"' && c != '\'' && c != '<' && c != '>'
        } by {
            if i < before.len() {
                assert(escaped_text(text)[i] == before[i]);
            } else {
                assert(escaped_text(text)[i] == tail[i - before.len()]);
            }
        }
    }
}

/// A text without a character that has a meaning of its own in markup is
/// escaped to itself.
pub proof fn lemma_plain_text_unchanged(text: Seq<char>)
    requires
        forall|i: int|
            0 <= i < text.len() ==> ({
                let c = #[trigger] text[i];
                c != '&' && c != '"' && c != '\'' && c != '<' && c != '>'
            }),
    ensures
        escaped_text(text) == text,
    decreases text.len(),
{
    if text.len() > 0 {
        lemma_plain_text_unchanged(text.drop_last());
        assert(text.drop_last().push(text.last()) == text);
    }
}

} // verus!
