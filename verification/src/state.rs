//! The calculator's state as a mathematical value, and the steps that a key
//! press may take from one state to the next.
//!
//! Numbers are computed by the caller's arithmetic, of which nothing is known
//! but its own contract. So a step is a relation: `next` is a state that the
//! press may lead to, for some number that the arithmetic may return.

use vstd::prelude::*;
use crate::button::ButtonType;
use crate::button::SpecialButton;
use crate::operator::Calculation;
use crate::operator::Operator;

verus! {

/// The message that the display shows once the engine has met a state that no
/// sequence of key presses leads to.
pub open spec fn unreachable_message() -> Seq<char> {
    "Err: Unreachable"@
}

/// What the calculator remembers between two key presses.
pub struct CalculatorState<N> {
    /// The number being typed; none while no digit has been typed since the
    /// last operator or clear.
    pub value: Option<N>,
    /// The result so far; none until the first operator has been pressed.
    pub answer: Option<N>,
    /// The operator pressed last.
    pub last_operation: Option<Operator>,
    /// The error to show, if any.
    pub error_message: Option<Seq<char>>,
}

impl<N> CalculatorState<N> {
    /// The state at startup and after a clear: nothing is remembered.
    pub open spec fn initial() -> Self {
        CalculatorState { value: None, answer: None, last_operation: None, error_message: None }
    }

    /// Whether the state is one that key presses lead to from the initial
    /// state: no error, and an operator recorded exactly when there is an
    /// answer.
    pub open spec fn is_consistent(self) -> bool {
        &&& self.error_message is None
        &&& self.answer is Some <==> self.last_operation is Some
    }

    /// Whether the state is one that an operator key answers with the error
    /// message: a number is being typed after an operator that left no
    /// answer, or there is an answer and no operator that it came with. No
    /// sequence of key presses leads from the initial state to such a state.
    pub open spec fn is_unreachable(self) -> bool {
        match (self.answer, self.value, self.last_operation) {
            (None, Some(_), Some(_)) => true,
            (Some(_), None, None) => true,
            (Some(_), Some(_), None) => true,
            _ => false,
        }
    }

    /// The arithmetic that a number key asks for: the digit appended to the
    /// number being typed, or the digit's own number where none is.
    pub open spec fn number_calculation(self, digit: u8) -> Calculation<N> {
        match self.value {
            Some(value) => Calculation::AppendDigit(value, digit),
            None => Calculation::Digit(digit),
        }
    }

    /// The arithmetic that an operator key asks for, if any: that of the
    /// operator recorded before, on the answer and the number being typed.
    pub open spec fn operator_calculation(self) -> Option<Calculation<N>> {
        match (self.answer, self.value, self.last_operation) {
            (Some(answer), Some(value), Some(recorded)) => recorded.calculation(answer, value),
            _ => None,
        }
    }

    /// The arithmetic that a key asks for, if any.
    pub open spec fn calculation_for(self, button: ButtonType) -> Option<Calculation<N>> {
        match button {
            ButtonType::Number(digit) => Some(self.number_calculation(digit)),
            ButtonType::Operator(_) => self.operator_calculation(),
            ButtonType::Special(_) => None,
        }
    }

    /// A number key: the number being typed becomes what `arithmetic` makes
    /// of it and the digit. Nothing else changes.
    pub open spec fn number_step<F: Fn(Calculation<N>) -> N>(
        self,
        digit: u8,
        arithmetic: F,
        next: Self,
    ) -> bool {
        &&& next.value matches Some(value) && arithmetic.ensures(
            (self.number_calculation(digit),),
            value,
        )
        &&& next.answer == self.answer
        &&& next.last_operation == self.last_operation
        &&& next.error_message == self.error_message
    }

    /// An operator key. What it does depends on which of the answer, the
    /// number being typed and the recorded operator are there:
    ///
    /// - neither number: nothing, and the operator is not recorded;
    /// - a typed number only: it becomes the answer, and the operator is
    ///   recorded;
    /// - an answer and a recorded operator, but no typed number: the operator
    ///   takes the place of the recorded one;
    /// - all three: the recorded operator is applied to the answer and the
    ///   typed number, the result is the new answer, the typed number is
    ///   gone, and the operator is recorded;
    /// - anything else is an unreachable state: the error message is set and
    ///   the rest is left as it was.
    pub open spec fn operator_step<F: Fn(Calculation<N>) -> N>(
        self,
        operator: Operator,
        arithmetic: F,
        next: Self,
    ) -> bool {
        match (self.answer, self.value, self.last_operation) {
            (None, None, _) => next == self,
            (None, Some(value), None) => next == (CalculatorState {
                answer: Some(value),
                value: None,
                last_operation: Some(operator),
                ..self
            }),
            (Some(_), None, Some(_)) => next == (CalculatorState {
                last_operation: Some(operator),
                ..self
            }),
            (Some(answer), Some(value), Some(recorded)) => {
                &&& next.answer matches Some(result) && recorded.yields(
                    answer,
                    value,
                    arithmetic,
                    result,
                )
                &&& next.value is None
                &&& next.last_operation == Some(operator)
                &&& next.error_message == self.error_message
            },
            _ => next == (CalculatorState {
                error_message: Some(unreachable_message()),
                ..self
            }),
        }
    }

    /// A special key: clear leads to the initial state.
    pub open spec fn special_step(self, special: SpecialButton, next: Self) -> bool {
        match special {
            SpecialButton::Clear => next == Self::initial(),
        }
    }

    /// Any key: the step of its kind.
    pub open spec fn button_step<F: Fn(Calculation<N>) -> N>(
        self,
        button: ButtonType,
        arithmetic: F,
        next: Self,
    ) -> bool {
        match button {
            ButtonType::Number(digit) => self.number_step(digit, arithmetic, next),
            ButtonType::Operator(operator) => self.operator_step(operator, arithmetic, next),
            ButtonType::Special(special) => self.special_step(special, next),
        }
    }

    /// The number on the main display where no error stands: the number being
    /// typed, else the answer, else `zero`.
    pub open spec fn shown_number(self, zero: N) -> N {
        match (self.value, self.answer) {
            (Some(value), _) => value,
            (None, Some(answer)) => answer,
            (None, None) => zero,
        }
    }

    /// Whether `text` is what the main display may show, with `format`
    /// writing numbers: the error message as it stands, else the shown
    /// number as `format` writes it.
    pub open spec fn is_display_value<F: Fn(N) -> String>(
        self,
        zero: N,
        format: F,
        text: String,
    ) -> bool {
        match self.error_message {
            Some(message) => text@ == message,
            None => format.ensures((self.shown_number(zero),), text),
        }
    }

    /// The symbol of the recorded operator, or nothing.
    pub open spec fn recorded_symbol(self) -> Seq<char> {
        match self.last_operation {
            Some(recorded) => recorded.symbol_text(),
            None => Seq::empty(),
        }
    }

    /// Whether `text` is what the small display may show, with `format`
    /// writing numbers: nothing after `Equal`; else the answer, a space and
    /// the recorded operator's symbol, each left out where there is none.
    pub open spec fn is_partial_result_display<F: Fn(N) -> String>(
        self,
        format: F,
        text: String,
    ) -> bool {
        if self.last_operation == Some(Operator::Equal) {
            text@ == Seq::<char>::empty()
        } else {
            match self.answer {
                Some(answer) => exists|number: String| #[trigger]
                    format.ensures((answer,), number) && text@ == number@.push(' ')
                        + self.recorded_symbol(),
                None => text@ == seq![' '] + self.recorded_symbol(),
            }
        }
    }
}

} // verus!
