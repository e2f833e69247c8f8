//! An amount of money in baht and satang, and the phrase that names it.
//!
//! One baht is a hundred satang. An amount is held as a sign, a whole number
//! of baht and a number of satang below one hundred, all three taken from a
//! single count of satang, so that the two parts of the phrase never
//! disagree about a carry.

use vstd::prelude::*;
use vstd::string::*;
use crate::numeral::{money_to_thai_words, thai_words};

verus! {

/// The satang in one baht.
pub const SATANG_PER_BAHT: u64 = 100;

/// The word that stands before a negative amount.
pub open spec fn minus_word() -> Seq<char> {
    "ลบ"@
}

/// The name of the whole unit.
pub open spec fn baht_word() -> Seq<char> {
    "บาท"@
}

/// The word that closes an amount without satang.
pub open spec fn exact_word() -> Seq<char> {
    "ถ้วน"@
}

/// The name of the hundredth of a baht.
pub open spec fn satang_word() -> Seq<char> {
    "สตางค์"@
}

/// An amount of money: so many baht and so many satang, owed or owned.
#[derive(Clone, Copy, Debug, PartialEq, Eq)]
pub struct Amount {
    /// Whether the amount is below zero.
    pub negative: bool,
    /// The whole baht.
    pub baht: u64,
    /// The satang beyond the whole baht.
    pub satang: u64,
}

impl Amount {
    /// The satang stay below one baht.
    pub open spec fn wf(&self) -> bool {
        self.satang < 100
    }

    /// The amount of that many satang in all, with the given sign.
    pub open spec fn of_total(negative: bool, total: nat) -> Amount
        recommends
            total / 100 <= u64::MAX,
    {
        Amount { negative, baht: (total / 100) as u64, satang: (total % 100) as u64 }
    }

    /// The same amount on the other side of zero.
    pub open spec fn negated(&self) -> Amount {
        Amount { negative: !self.negative, baht: self.baht, satang: self.satang }
    }

    /// The word for the sign: nothing for an amount that is not negative.
    pub open spec fn sign_text(&self) -> Seq<char> {
        if self.negative {
            minus_word()
        } else {
            Seq::empty()
        }
    }

    /// The phrase that names the amount: the sign, the baht in words and
    /// their unit, then either the word for "exactly" or the satang in words
    /// and their unit.
    pub open spec fn text(&self) -> Seq<char> {
        if self.satang == 0 {
            self.sign_text() + thai_words(self.baht as nat) + baht_word() + exact_word()
        } else {
            self.sign_text() + thai_words(self.baht as nat) + baht_word() + thai_words(
                self.satang as nat,
            ) + satang_word()
        }
    }

    /// Splits a count of satang into baht and satang.
    pub fn from_satang(negative: bool, total: u64) -> (amount: Amount)
        ensures
            amount == Amount::of_total(negative, total as nat),
            amount.wf(),
    {
        Amount { negative, baht: total / SATANG_PER_BAHT, satang: total % SATANG_PER_BAHT }
    }

    /// Writes the amount out in Thai words.
    pub fn words(&self) -> (phrase: String)
        requires
            self.wf(),
        ensures
            phrase@ == self.text(),
    {
        let mut phrase = String::new();
        if self.negative {
            phrase.append("ลบ");
        }
        assert(phrase@ =~= self.sign_text());
        let whole = money_to_thai_words(self.baht);
        phrase.append(whole.as_str());
        phrase.append("บาท");
        if self.satang == 0 {
            phrase.append("ถ้วน");
        } else {
            let part = money_to_thai_words(self.satang);
            phrase.append(part.as_str());
            phrase.append("สตางค์");
        }
        assert(phrase@ =~= self.text());
        phrase
    }
}

/// Writes a count of satang out in Thai words: the amount of that many
/// satang in all, with the given sign.
pub fn satang_to_words(negative: bool, total: u64) -> (phrase: String)
    ensures
        phrase@ == Amount::of_total(negative, total as nat).text(),
{
    Amount::from_satang(negative, total).words()
}

/// A whole number of baht is named without any satang: the number in words,
/// the unit, and the word for "exactly".
pub proof fn lemma_whole_baht_text(whole: nat)
    requires
        whole * 100 <= u64::MAX,
    ensures
        Amount::of_total(false, whole * 100).text() == thai_words(whole) + baht_word()
            + exact_word(),
{
    let amount = Amount::of_total(false, whole * 100);
    assert((whole * 100) / 100 == whole && (whole * 100) % 100 == 0) by (nonlinear_arith);
    assert(amount.text() =~= thai_words(whole) + baht_word() + exact_word());
}

/// Satang are named only when there are some, and then they are a number
/// from 1 to 99: a count of satang never yields a hundred of them or more.
pub proof fn lemma_satang_range(negative: bool, total: nat)
    requires
        total <= u64::MAX,
    ensures
        ({
            let amount = Amount::of_total(negative, total);
            &&& amount.wf()
            &&& amount.baht * 100 + amount.satang == total
            &&& amount.satang == 0 ==> amount.text() == amount.sign_text() + thai_words(
                amount.baht as nat,
            ) + baht_word() + exact_word()
            &&& amount.satang != 0 ==> 1 <= amount.satang <= 99 && amount.text()
                == amount.sign_text() + thai_words(amount.baht as nat) + baht_word() + thai_words(
                amount.satang as nat,
            ) + satang_word()
        }),
{
}

/// The phrase for an amount below zero is the word for minus followed by the
/// phrase for the same amount above zero.
pub proof fn lemma_sign(amount: Amount)
    requires
        !amount.negative,
    ensures
        amount.negated().text() == minus_word() + amount.text(),
{
    assert(amount.negated().text() =~= minus_word() + amount.text());
}

} // verus!
