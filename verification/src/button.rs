//! The keys of the calculator and the text written on each.

use vstd::prelude::*;
use crate::operator::Operator;

verus! {

/// The keys that are neither a digit nor an operator.
#[derive(Clone, Copy, Debug, PartialEq, Eq, Structural)]
pub enum SpecialButton {
    /// Forgets everything entered so far.
    Clear,
}

/// A key of the calculator.
#[derive(Clone, Copy, Debug, PartialEq, Eq, Structural)]
pub enum ButtonType {
    /// A number key; on the calculator's own keypad a digit from 0 to 9.
    Number(u8),
    Operator(Operator),
    Special(SpecialButton),
}

/// The character for a decimal digit.
pub open spec fn digit_char(d: nat) -> char
    recommends
        d < 10,
{
    if d == 0 {
        '0'
    } else if d == 1 {
        '1'
    } else if d == 2 {
        '2'
    } else if d == 3 {
        '3'
    } else if d == 4 {
        '4'
    } else if d == 5 {
        '5'
    } else if d == 6 {
        '6'
    } else if d == 7 {
        '7'
    } else if d == 8 {
        '8'
    } else {
        '9'
    }
}

/// A natural number written in decimal, without leading zeros.
pub open spec fn decimal_text(n: nat) -> Seq<char>
    decreases n,
{
    if n < 10 {
        seq![digit_char(n)]
    } else {
        decimal_text(n / 10).push(digit_char(n % 10))
    }
}

/// One decimal digit as text.
fn digit_text(d: u8) -> (text: &'static str)
    requires
        d < 10,
    ensures
        text@ == seq![digit_char(d as nat)],
{
    proof {
        reveal_strlit("0");
        reveal_strlit("1");
        reveal_strlit("2");
        reveal_strlit("3");
        reveal_strlit("4");
        reveal_strlit("5");
        reveal_strlit("6");
        reveal_strlit("7");
        reveal_strlit("8");
        reveal_strlit("9");
    }
    let text = match d {
        0 => "0",
        1 => "1",
        2 => "2",
        3 => "3",
        4 => "4",
        5 => "5",
        6 => "6",
        7 => "7",
        8 => "8",
        _ => "9",
    };
    assert(text@ =~= seq![digit_char(d as nat)]);
    text
}

/// Writes a number key's number in decimal.
pub fn number_label(number: u8) -> (text: String)
    ensures
        text@ == decimal_text(number as nat),
{
    let ones = digit_text(number % 10);
    if number < 10 {
        String::from_str(ones)
    } else {
        let tens = digit_text((number / 10) % 10);
        let mut text = if number < 100 {
            String::from_str(tens)
        } else {
            let mut hundreds = String::from_str(digit_text(number / 100));
            hundreds.append(tens);
            hundreds
        };
        text.append(ones);
        proof {
            let n = number as nat;
            reveal_with_fuel(decimal_text, 3);
            assert(text@ =~= decimal_text(n));
        }
        text
    }
}

impl SpecialButton {
    /// The text on the key.
    pub open spec fn label_text(self) -> Seq<char> {
        seq!['C']
    }

    /// The text on the key.
    pub fn label(&self) -> (text: String)
        ensures
            text@ == self.label_text(),
    {
        proof {
            reveal_strlit("C");
        }
        let text = String::from_str("C");
        assert(text@ =~= self.label_text());
        text
    }
}

impl ButtonType {
    /// The text on the key: a number in decimal, an operator's symbol, or the
    /// special key's own label.
    pub open spec fn label_text(self) -> Seq<char> {
        match self {
            ButtonType::Number(number) => decimal_text(number as nat),
            ButtonType::Operator(operator) => operator.symbol_text(),
            ButtonType::Special(special) => special.label_text(),
        }
    }

    /// The text on the key.
    pub fn label(&self) -> (text: String)
        ensures
            text@ == self.label_text(),
    {
        match self {
            ButtonType::Number(number) => number_label(*number),
            ButtonType::Operator(operator) => operator.symbol(),
            ButtonType::Special(special) => special.label(),
        }
    }
}

} // verus!
