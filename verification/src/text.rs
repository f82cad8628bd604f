//! Text as sequences of characters: whitespace, trimming and lines.

use vstd::prelude::*;
use vstd::std_specs::iter::IteratorSpec;
use vstd::string::{StrSliceExecFns, StringExecFns};

verus! {

/// Whether a character is white space: the characters with the Unicode
/// property `White_Space`.
pub open spec fn whitespace(c: char) -> bool {
    let code = c as u32;
    ||| 0x09 <= code <= 0x0d
    ||| code == 0x20
    ||| code == 0x85
    ||| code == 0xa0
    ||| code == 0x1680
    ||| 0x2000 <= code <= 0x200a
    ||| code == 0x2028
    ||| code == 0x2029
    ||| code == 0x202f
    ||| code == 0x205f
    ||| code == 0x3000
}

/// Tells whether a character is white space.
pub fn is_whitespace(c: char) -> (r: bool)
    ensures
        r == whitespace(c),
{
    let code: u32 = c as u32;
    (0x09 <= code && code <= 0x0d) || code == 0x20 || code == 0x85 || code == 0xa0 || code
        == 0x1680 || (0x2000 <= code && code <= 0x200a) || code == 0x2028 || code == 0x2029
        || code == 0x202f || code == 0x205f || code == 0x3000
}

/// The characters of a string.
pub fn chars_of(text: &str) -> (chars: Vec<char>)
    ensures
        chars@ == text@,
{
    let mut chars: Vec<char> = Vec::new();
    let mut rest = text.chars();
    loop
        invariant
            chars@ + rest.remaining() == text@,
            rest.obeys_prophetic_iter_laws(),
            rest.decrease() is Some,
        ensures
            chars@ =~= text@,
        decreases rest.decrease()->0,
    {
        match rest.next() {
            Some(c) => {
                chars.push(c);
            },
            None => {
                break ;
            },
        }
    }
    chars
}

/// The number of white-space characters that a text begins with.
pub open spec fn leading_whitespace(text: Seq<char>) -> int
    decreases text.len(),
{
    if text.len() > 0 && whitespace(text[0]) {
        1 + leading_whitespace(text.drop_first())
    } else {
        0
    }
}

/// The number of white-space characters that a text ends with.
pub open spec fn trailing_whitespace(text: Seq<char>) -> int
    decreases text.len(),
{
    if text.len() > 0 && whitespace(text.last()) {
        1 + trailing_whitespace(text.drop_last())
    } else {
        0
    }
}

/// A text without the white space at its two ends.
pub open spec fn trimmed(text: Seq<char>) -> Seq<char> {
    if leading_whitespace(text) >= text.len() {
        Seq::empty()
    } else {
        text.subrange(leading_whitespace(text), text.len() - trailing_whitespace(text))
    }
}

/// A count of white-space characters at the start of a text, followed by
/// the end of the text or by another character, is `leading_whitespace`.
pub proof fn lemma_leading_whitespace_is(text: Seq<char>, count: int)
    requires
        0 <= count <= text.len(),
        forall|j: int| 0 <= j < count ==> whitespace(#[trigger] text[j]),
        count < text.len() ==> !whitespace(text[count]),
    ensures
        leading_whitespace(text) == count,
    decreases text.len(),
{
    if count > 0 {
        let rest = text.drop_first();
        assert(whitespace(text[0]));
        assert forall|j: int| 0 <= j < count - 1 implies whitespace(#[trigger] rest[j]) by {
            assert(rest[j] == text[j + 1]);
        }
        lemma_leading_whitespace_is(rest, count - 1);
    }
}

/// A count of white-space characters at the end of a text, preceded by the
/// start of the text or by another character, is `trailing_whitespace`.
pub proof fn lemma_trailing_whitespace_is(text: Seq<char>, count: int)
    requires
        0 <= count <= text.len(),
        forall|j: int| text.len() - count <= j < text.len() ==> whitespace(#[trigger] text[j]),
        count < text.len() ==> !whitespace(text[text.len() - count - 1]),
    ensures
        trailing_whitespace(text) == count,
    decreases text.len(),
{
    if count > 0 {
        let rest = text.drop_last();
        assert(whitespace(text[text.len() - 1]));
        assert forall|j: int| rest.len() - (count - 1) <= j < rest.len() implies whitespace(
            #[trigger] rest[j],
        ) by {
            assert(rest[j] == text[j]);
        }
        if count - 1 < rest.len() {
            assert(rest[rest.len() - (count - 1) - 1] == text[text.len() - count - 1]);
        }
        lemma_trailing_whitespace_is(rest, count - 1);
    }
}

/// A text without the white space at its two ends, as `str::trim` gives it.
pub fn trim(text: &str) -> (r: String)
    ensures
        r@ == trimmed(text@),
{
    let chars = chars_of(text);
    let len: usize = chars.len();
    let mut from: usize = 0;
    while from < len && is_whitespace(chars[from])
        invariant
            from <= len,
            len == chars@.len(),
            forall|j: int| 0 <= j < from ==> whitespace(#[trigger] chars@[j]),
        decreases len - from,
    {
        from += 1;
    }
    proof {
        lemma_leading_whitespace_is(chars@, from as int);
    }
    if from == len {
        proof {
            reveal_strlit("");
            assert(""@ =~= Seq::<char>::empty());
        }
        return String::from_str("");
    }
    let mut to: usize = len;
    while to > from + 1 && is_whitespace(chars[to - 1])
        invariant
            from < to <= len,
            len == chars@.len(),
            !whitespace(chars@[from as int]),
            forall|j: int| to <= j < len ==> whitespace(#[trigger] chars@[j]),
        decreases to,
    {
        to -= 1;
    }
    proof {
        lemma_trailing_whitespace_is(chars@, len - to);
    }
    String::from_str(text.substring_char(from, to))
}

/// The character that ends a line.
pub const NEWLINE: char = '\n';

/// The index of the first newline of a text, or its length where it has
/// none.
pub open spec fn first_newline(text: Seq<char>) -> int
    decreases text.len(),
{
    if text.len() == 0 || text[0] == NEWLINE {
        0
    } else {
        1 + first_newline(text.drop_first())
    }
}

/// The lines of a text: the pieces between its newlines, one more than it
/// has newlines.
pub open spec fn lines(text: Seq<char>) -> Seq<Seq<char>>
    decreases text.len(),
{
    let end = first_newline(text);
    if 0 <= end < text.len() {
        seq![text.subrange(0, end)] + lines(text.subrange(end + 1, text.len() as int))
    } else {
        seq![text]
    }
}

/// The texts of some strings.
pub open spec fn views(strings: Seq<String>) -> Seq<Seq<char>> {
    Seq::new(strings.len(), |i: int| strings[i]@)
}

/// An index before which a text has no newline, and which holds one or is
/// the end of the text, is `first_newline`.
pub proof fn lemma_first_newline_is(text: Seq<char>, index: int)
    requires
        0 <= index <= text.len(),
        forall|j: int| 0 <= j < index ==> #[trigger] text[j] != NEWLINE,
        index < text.len() ==> text[index] == NEWLINE,
    ensures
        first_newline(text) == index,
    decreases text.len(),
{
    if index > 0 {
        let rest = text.drop_first();
        assert(text[0] != NEWLINE);
        assert forall|j: int| 0 <= j < index - 1 implies #[trigger] rest[j] != NEWLINE by {
            assert(rest[j] == text[j + 1]);
        }
        lemma_first_newline_is(rest, index - 1);
    }
}

/// Splits a text at its newlines, as `str::split` does.
pub fn split_lines(text: &str) -> (r: Vec<String>)
    ensures
        views(r@) == lines(text@),
{
    let chars = chars_of(text);
    let len: usize = chars.len();
    let mut done: Vec<String> = Vec::new();
    let mut start: usize = 0;
    let mut at: usize = 0;
    proof {
        assert(text@.subrange(0, len as int) =~= text@);
        assert(views(done@) + lines(text@) =~= lines(text@));
    }
    while at < len
        invariant
            start <= at <= len,
            len == chars@.len(),
            chars@ == text@,
            forall|j: int| start <= j < at ==> #[trigger] chars@[j] != NEWLINE,
            lines(text@) == views(done@) + lines(text@.subrange(start as int, len as int)),
        decreases len - at,
    {
        if chars[at] == NEWLINE {
            proof {
                let rest = text@.subrange(start as int, len as int);
                assert forall|j: int| 0 <= j < at - start implies #[trigger] rest[j]
                    != NEWLINE by {
                    assert(rest[j] == chars@[start + j]);
                }
                lemma_first_newline_is(rest, at - start);
                assert(rest.subrange(0, at - start) =~= text@.subrange(start as int, at as int));
                assert(rest.subrange(at - start + 1, rest.len() as int) =~= text@.subrange(
                    at + 1,
                    len as int,
                ));
            }
            let ghost before = done@;
            done.push(String::from_str(text.substring_char(start, at)));
            proof {
                assert(views(done@) =~= views(before) + seq![
                    text@.subrange(start as int, at as int),
                ]);
            }
            start = at + 1;
        }
        at += 1;
    }
    proof {
        let rest = text@.subrange(start as int, len as int);
        assert forall|j: int| 0 <= j < rest.len() implies #[trigger] rest[j] != NEWLINE by {
            assert(rest[j] == chars@[start + j]);
        }
        lemma_first_newline_is(rest, rest.len() as int);
    }
    let ghost before = done@;
    done.push(String::from_str(text.substring_char(start, len)));
    proof {
        assert(views(done@) =~= views(before) + seq![text@.subrange(start as int, len as int)]);
    }
    done
}

/// The character of a decimal digit.
pub open spec fn digit(d: int) -> char
    recommends
        0 <= d < 10,
{
    if d == 0 {
        '0'
    } else if d == 1 {
        '1'
    } else if d == 2 {
        '2'
    } else if d == 3 {
        '3'
    } else if d == 4 {
        '4'
    } else if d == 5 {
        '5'
    } else if d == 6 {
        '6'
    } else if d == 7 {
        '7'
    } else if d == 8 {
        '8'
    } else {
        '9'
    }
}

/// A number in decimal notation, without leading zeros.
pub open spec fn decimal_of(n: nat) -> Seq<char>
    decreases n,
{
    if n < 10 {
        seq![digit(n as int)]
    } else {
        decimal_of(n / 10) + seq![digit((n % 10) as int)]
    }
}

/// The decimal digit `d` as a string.
fn digit_text(d: u64) -> (text: &'static str)
    requires
        d < 10,
    ensures
        text@ == seq![digit(d as int)],
{
    proof {
        reveal_strlit("0");
        reveal_strlit("1");
        reveal_strlit("2");
        reveal_strlit("3");
        reveal_strlit("4");
        reveal_strlit("5");
        reveal_strlit("6");
        reveal_strlit("7");
        reveal_strlit("8");
        reveal_strlit("9");
    }
    let text = if d == 0 {
        "0"
    } else if d == 1 {
        "1"
    } else if d == 2 {
        "2"
    } else if d == 3 {
        "3"
    } else if d == 4 {
        "4"
    } else if d == 5 {
        "5"
    } else if d == 6 {
        "6"
    } else if d == 7 {
        "7"
    } else if d == 8 {
        "8"
    } else {
        "9"
    };
    assert(text@ =~= seq![digit(d as int)]);
    text
}

/// The digits of a number that is not zero, and no digit for zero.
pub open spec fn leading_digits(n: nat) -> Seq<char> {
    if n > 0 {
        decimal_of(n)
    } else {
        Seq::empty()
    }
}

/// Writes a number in decimal notation.
pub fn decimal(n: u64) -> (text: String)
    ensures
        text@ == decimal_of(n as nat),
{
    let mut text = String::from_str(digit_text(n % 10));
    let mut rest: u64 = n / 10;
    assert(decimal_of(n as nat) =~= leading_digits(rest as nat) + text@);
    while rest > 0
        invariant
            decimal_of(n as nat) == leading_digits(rest as nat) + text@,
        decreases rest,
    {
        let ghost before = text@;
        text = String::from_str(digit_text(rest % 10)).concat(text.as_str());
        proof {
            assert(leading_digits(rest as nat) =~= leading_digits((rest / 10) as nat) + seq![
                digit((rest % 10) as int),
            ]);
            assert(leading_digits(rest as nat) + before =~= leading_digits((rest / 10) as nat)
                + text@);
        }
        rest = rest / 10;
    }
    assert(leading_digits(0) + text@ =~= text@);
    text
}

} // verus!
