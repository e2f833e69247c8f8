//! Tidying the text of an amount before it is read: white space around it
//! is dropped, and then every comma, wherever it stands.

use vstd::prelude::*;
use vstd::string::*;
use vstd::std_specs::iter::IteratorSpec;

verus! {

/// The characters that count as white space: those with the Unicode
/// property White_Space.
pub open spec fn is_space(c: char) -> bool {
    ||| '\u{9}' <= c <= '\u{d}'
    ||| c == ' '
    ||| c == '\u{85}'
    ||| c == '\u{a0}'
    ||| c == '\u{1680}'
    ||| '\u{2000}' <= c <= '\u{200a}'
    ||| c == '\u{2028}'
    ||| c == '\u{2029}'
    ||| c == '\u{202f}'
    ||| c == '\u{205f}'
    ||| c == '\u{3000}'
}

/// The text without the white space at its two ends.
pub open spec fn trimmed(text: Seq<char>) -> Seq<char>
    decreases text.len(),
{
    if text.len() > 0 && is_space(text.first()) {
        trimmed(text.drop_first())
    } else if text.len() > 0 && is_space(text.last()) {
        trimmed(text.drop_last())
    } else {
        text
    }
}

/// The text without its commas.
pub open spec fn without_commas(text: Seq<char>) -> Seq<char>
    decreases text.len(),
{
    if text.len() == 0 {
        text
    } else if text.last() == ',' {
        without_commas(text.drop_last())
    } else {
        without_commas(text.drop_last()).push(text.last())
    }
}

/// The text as it is read: trimmed first, then freed of commas.
pub open spec fn cleaned(text: Seq<char>) -> Seq<char> {
    without_commas(trimmed(text))
}

/// Whether `c` is white space.
pub fn is_whitespace(c: char) -> (space: bool)
    ensures
        space == is_space(c),
{
    ('\u{9}' <= c && c <= '\u{d}') || c == ' ' || c == '\u{85}' || c == '\u{a0}' || c
        == '\u{1680}' || ('\u{2000}' <= c && c <= '\u{200a}') || c == '\u{2028}' || c
        == '\u{2029}' || c == '\u{202f}' || c == '\u{205f}' || c == '\u{3000}'
}

/// The characters of a string, in order.
pub fn chars_of(text: &str) -> (chars: Vec<char>)
    ensures
        chars@ == text@,
{
    let mut chars: Vec<char> = Vec::new();
    let mut rest = text.chars();
    loop
        invariant
            rest.obeys_prophetic_iter_laws(),
            rest.decrease() is Some,
            chars@ + rest.remaining() == text@,
        decreases rest.decrease()->0,
    {
        match rest.next() {
            Some(c) => {
                chars.push(c);
                assert(chars@ + rest.remaining() =~= text@);
            },
            None => {
                assert(chars@ =~= text@);
                return chars;
            },
        }
    }
}

/// Trims the text and drops its commas.
pub fn clean(text: &str) -> (tidy: Vec<char>)
    ensures
        tidy@ == cleaned(text@),
{
    let chars = chars_of(text);
    let ghost whole = chars@;
    let mut start: usize = 0;
    assert(whole.subrange(0, whole.len() as int) =~= whole);
    while start < chars.len() && is_whitespace(chars[start])
        invariant
            whole == chars@,
            start <= chars.len(),
            trimmed(whole) == trimmed(whole.subrange(start as int, whole.len() as int)),
        decreases chars.len() - start,
    {
        assert(whole.subrange(start as int, whole.len() as int).drop_first() =~= whole.subrange(
            start + 1,
            whole.len() as int,
        ));
        start += 1;
    }
    let mut end: usize = chars.len();
    while end > start && is_whitespace(chars[end - 1])
        invariant
            whole == chars@,
            start <= end <= chars.len(),
            start < chars.len() ==> !is_space(whole[start as int]),
            trimmed(whole) == trimmed(whole.subrange(start as int, end as int)),
        decreases end,
    {
        assert(whole.subrange(start as int, end as int).drop_last() =~= whole.subrange(
            start as int,
            end - 1,
        ));
        end -= 1;
    }
    assert(trimmed(whole) == whole.subrange(start as int, end as int));
    let ghost kept = whole.subrange(start as int, end as int);
    let mut tidy: Vec<char> = Vec::new();
    let mut at: usize = start;
    assert(kept.subrange(0, 0) =~= Seq::<char>::empty());
    while at < end
        invariant
            whole == chars@,
            kept == whole.subrange(start as int, end as int),
            start <= at <= end <= chars.len(),
            tidy@ == without_commas(kept.subrange(0, at - start)),
        decreases end - at,
    {
        let c = chars[at];
        assert(kept.subrange(0, at + 1 - start).drop_last() =~= kept.subrange(0, at - start));
        if c != ',' {
            tidy.push(c);
        }
        at += 1;
    }
    assert(kept.subrange(0, end - start) =~= kept);
    tidy
}

} // verus!
