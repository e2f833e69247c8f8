//! Thai cardinal numerals: a whole number written out in Thai words.
//!
//! A number below one million is written digit by digit, most significant
//! first, each digit followed by the word of its place. Three forms are
//! irregular: "twenty", "ten" without a leading "one", and the final "one" of
//! a number that has something before it. A larger number is written as its
//! count of millions, the word for a million, and what remains.

use vstd::prelude::*;
use vstd::string::*;

verus! {

/// One million: the size of a group.
pub const MILLION: u64 = 1_000_000;

/// The word for zero, which only the number zero itself is written with.
pub open spec fn zero_word() -> Seq<char> {
    "ศูนย์"@
}

/// The word that follows a count of millions.
pub open spec fn million_word() -> Seq<char> {
    "ล้าน"@
}

/// "Twenty": the tens place holding a two.
pub open spec fn twenty_word() -> Seq<char> {
    "ยี่สิบ"@
}

/// The final "one" of a number that has something before it.
pub open spec fn final_one_word() -> Seq<char> {
    "เอ็ด"@
}

/// The word for a digit from one to nine. Any other number has no word.
pub open spec fn digit_word(digit: nat) -> Seq<char> {
    if digit == 1 {
        "หนึ่ง"@
    } else if digit == 2 {
        "สอง"@
    } else if digit == 3 {
        "สาม"@
    } else if digit == 4 {
        "สี่"@
    } else if digit == 5 {
        "ห้า"@
    } else if digit == 6 {
        "หก"@
    } else if digit == 7 {
        "เจ็ด"@
    } else if digit == 8 {
        "แปด"@
    } else if digit == 9 {
        "เก้า"@
    } else {
        Seq::empty()
    }
}

/// The word for a decimal place within a group: tens are place 1, hundreds
/// place 2, up to hundreds of thousands at place 5. The ones have no word.
pub open spec fn place_word(place: nat) -> Seq<char> {
    if place == 1 {
        "สิบ"@
    } else if place == 2 {
        "ร้อย"@
    } else if place == 3 {
        "พัน"@
    } else if place == 4 {
        "หมื่น"@
    } else if place == 5 {
        "แสน"@
    } else {
        Seq::empty()
    }
}

/// What one digit contributes at its place. `leading` says that nothing of
/// the number stands before this digit.
pub open spec fn digit_text(digit: nat, place: nat, leading: bool) -> Seq<char> {
    if digit == 0 {
        Seq::empty()
    } else if place == 1 && digit == 2 {
        twenty_word()
    } else if place == 1 && digit == 1 {
        place_word(1)
    } else if place == 0 && digit == 1 && !leading {
        final_one_word()
    } else {
        digit_word(digit) + place_word(place)
    }
}

/// The digits of `number` written out, the lowest of them standing at
/// `place`. `prefixed` says that a count of millions stands before them.
pub open spec fn digits_text(number: nat, place: nat, prefixed: bool) -> Seq<char>
    decreases number,
{
    if number == 0 {
        Seq::empty()
    } else {
        digits_text(number / 10, place + 1, prefixed) + digit_text(
            number % 10,
            place,
            !prefixed && number / 10 == 0,
        )
    }
}

/// A whole number in Thai words.
pub open spec fn thai_words(number: nat) -> Seq<char>
    decreases number,
{
    if number == 0 {
        zero_word()
    } else if number < 1_000_000 {
        digits_text(number, 0, false)
    } else {
        thai_words(number / 1_000_000) + million_word() + digits_text(
            number % 1_000_000,
            0,
            true,
        )
    }
}

/// Above the ones place a count of millions in front changes nothing.
pub proof fn lemma_digits_text_above_ones(number: nat, place: nat)
    requires
        place >= 1,
    ensures
        digits_text(number, place, true) == digits_text(number, place, false),
    decreases number,
{
    if number != 0 {
        lemma_digits_text_above_ones(number / 10, place + 1);
    }
}

/// What remains after the millions reads as the number itself does, but for
/// a remainder of one, which is written with the final "one", and a
/// remainder of zero, which is not written at all.
pub proof fn lemma_remainder_text(rest: nat)
    ensures
        rest == 0 ==> digits_text(rest, 0, true) == Seq::<char>::empty(),
        rest == 1 ==> digits_text(rest, 0, true) == final_one_word(),
        2 <= rest < 1_000_000 ==> digits_text(rest, 0, true) == thai_words(rest),
{
    if rest == 1 {
        assert(digits_text(0, 1, true) == Seq::<char>::empty());
        assert(digits_text(1, 0, true) =~= final_one_word());
    } else if rest >= 2 {
        lemma_digits_text_above_ones(rest / 10, 1);
    }
}

/// Grouping by millions: a number of at least one million reads as its
/// count of millions, the word for a million, and then the remainder. The
/// remainder reads as it would alone, except that zero adds nothing and one
/// is written with the final "one".
pub proof fn lemma_million_grouping(millions: nat, rest: nat)
    requires
        millions >= 1,
        rest < 1_000_000,
    ensures
        thai_words(millions * 1_000_000 + rest) == thai_words(millions) + million_word() + (if rest
            == 0 {
            Seq::<char>::empty()
        } else if rest == 1 {
            final_one_word()
        } else {
            thai_words(rest)
        }),
{
    let number = millions * 1_000_000 + rest;
    assert(number / 1_000_000 == millions && number % 1_000_000 == rest) by (nonlinear_arith)
        requires
            number == millions * 1_000_000 + rest,
            rest < 1_000_000,
    ;
    lemma_remainder_text(rest);
}

/// The word for a digit from one to nine.
fn digit_word_of(digit: u64) -> (word: &'static str)
    requires
        1 <= digit <= 9,
    ensures
        word@ == digit_word(digit as nat),
{
    if digit == 1 {
        "หนึ่ง"
    } else if digit == 2 {
        "สอง"
    } else if digit == 3 {
        "สาม"
    } else if digit == 4 {
        "สี่"
    } else if digit == 5 {
        "ห้า"
    } else if digit == 6 {
        "หก"
    } else if digit == 7 {
        "เจ็ด"
    } else if digit == 8 {
        "แปด"
    } else {
        "เก้า"
    }
}

/// The word for a place of a group; the empty word for the ones.
fn place_word_of(place: u64) -> (word: &'static str)
    ensures
        word@ == place_word(place as nat),
{
    if place == 1 {
        "สิบ"
    } else if place == 2 {
        "ร้อย"
    } else if place == 3 {
        "พัน"
    } else if place == 4 {
        "หมื่น"
    } else if place == 5 {
        "แสน"
    } else {
        proof {
            reveal_strlit("");
            assert(""@ =~= Seq::<char>::empty());
        }
        ""
    }
}

/// Appends to `text` what `digit` contributes at `place`.
pub fn push_digit(text: &mut String, digit: u64, place: u64, leading: bool)
    requires
        digit <= 9,
    ensures
        final(text)@ == old(text)@ + digit_text(digit as nat, place as nat, leading),
{
    if digit == 0 {
        assert(text@ + Seq::<char>::empty() =~= text@);
    } else if place == 1 && digit == 2 {
        text.append("ยี่สิบ");
    } else if place == 1 && digit == 1 {
        text.append(place_word_of(1));
    } else if place == 0 && digit == 1 && !leading {
        text.append("เอ็ด");
    } else {
        let ghost before = text@;
        text.append(digit_word_of(digit));
        text.append(place_word_of(place));
        assert(text@ =~= before + (digit_word(digit as nat) + place_word(place as nat)));
    }
}

/// Appends to `text` the digits of `number`, the lowest of them standing at
/// `place`.
fn push_digits(text: &mut String, number: u64, place: u64, prefixed: bool)
    requires
        place + number <= u64::MAX,
    ensures
        final(text)@ == old(text)@ + digits_text(number as nat, place as nat, prefixed),
    decreases number,
{
    if number == 0 {
        assert(text@ + Seq::<char>::empty() =~= text@);
    } else {
        let ghost before = text@;
        let rest: u64 = number / 10;
        push_digits(text, rest, place + 1, prefixed);
        push_digit(text, number % 10, place, !prefixed && rest == 0);
        assert(text@ =~= before + digits_text(number as nat, place as nat, prefixed));
    }
}

/// Writes a whole number out in Thai words.
pub fn money_to_thai_words(money: u64) -> (text: String)
    ensures
        text@ == thai_words(money as nat),
    decreases money,
{
    if money == 0 {
        return String::from_str("ศูนย์");
    }
    let mut text = String::new();
    if money < MILLION {
        push_digits(&mut text, money, 0, false);
        assert(text@ =~= thai_words(money as nat));
    } else {
        let head = money_to_thai_words(money / MILLION);
        text.append(head.as_str());
        text.append("ล้าน");
        push_digits(&mut text, money % MILLION, 0, true);
        assert(text@ =~= thai_words(money as nat));
    }
    text
}

} // verus!
