//! Decimal numerals.

use crate::tokens::is_word_char;
use vstd::prelude::*;
use vstd::string::*;

verus! {

/// The digit that stands for a number below ten.
pub open spec fn digit(n: nat) -> char {
    ('0' as u8 + n) as char
}

/// The decimal numeral of a number, without leading zeros.
pub open spec fn digits(n: nat) -> Seq<char>
    decreases n,
{
    if n < 10 {
        seq![digit(n)]
    } else {
        digits(n / 10).push(digit(n % 10))
    }
}

/// The digit of a number below ten.
fn digit_text(n: usize) -> (text: &'static str)
    requires
        n < 10,
    ensures
        text@ == seq![digit(n as nat)],
{
    proof {
        reveal_strlit("0");
        reveal_strlit("1");
        reveal_strlit("2");
        reveal_strlit("3");
        reveal_strlit("4");
        reveal_strlit("5");
        reveal_strlit("6");
        reveal_strlit("7");
        reveal_strlit("8");
        reveal_strlit("9");
    }
    match n {
        0 => "0",
        1 => "1",
        2 => "2",
        3 => "3",
        4 => "4",
        5 => "5",
        6 => "6",
        7 => "7",
        8 => "8",
        _ => "9",
    }
}

/// The decimal numeral of a number.
pub fn decimal(n: usize) -> (text: String)
    ensures
        text@ == digits(n as nat),
    decreases n,
{
    let mut text = if n < 10 {
        String::new()
    } else {
        decimal(n / 10)
    };
    text.append(digit_text(n % 10));
    text
}

/// A numeral is made of characters that a word can have.
pub proof fn lemma_digits_are_word_chars(n: nat)
    ensures
        digits(n).len() > 0,
        forall|i: int| 0 <= i < digits(n).len() ==> is_word_char(#[trigger] digits(n)[i]),
    decreases n,
{
    if n >= 10 {
        lemma_digits_are_word_chars(n / 10);
    }
}

/// Different numbers have different numerals.
pub proof fn lemma_digits_injective(m: nat, n: nat)
    requires
        digits(m) == digits(n),
    ensures
        m == n,
    decreases m,
{
    lemma_digits_are_word_chars(m / 10);
    lemma_digits_are_word_chars(n / 10);
    assert(digits(m).last() == digit(m % 10));
    assert(digits(n).last() == digit(n % 10));
    assert(m % 10 == n % 10);
    if m >= 10 && n >= 10 {
        assert(digits(m).drop_last() =~= digits(m / 10));
        assert(digits(n).drop_last() =~= digits(n / 10));
        lemma_digits_injective(m / 10, n / 10);
    }
}

} // verus!
