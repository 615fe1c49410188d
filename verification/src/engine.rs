//! The calculator itself: the state that the key presses change, and the two
//! lines of its display.

use vstd::prelude::*;
use crate::button::ButtonType;
use crate::button::SpecialButton;
use crate::operator::Calculation;
use crate::operator::Operator;
use crate::state::CalculatorState;

verus! {

/// A calculator for numbers of type `N`.
///
/// Every method that needs a number computed takes the arithmetic as a
/// function from a [`Calculation`] to its result, and every method that
/// writes a number takes the function that writes it.
#[derive(Debug, PartialEq)]
pub struct CalculatorApp<N> {
    /// The number currently being entered.
    pub value: Option<N>,
    /// The current, possibly partial, result.
    pub answer: Option<N>,
    /// The last operator key pressed.
    pub last_operation: Option<Operator>,
    /// The current error, if any.
    pub error_message: Option<String>,
}

impl<N> View for CalculatorApp<N> {
    type V = CalculatorState<N>;

    open spec fn view(&self) -> CalculatorState<N> {
        CalculatorState {
            value: self.value,
            answer: self.answer,
            last_operation: self.last_operation,
            error_message: match self.error_message {
                Some(message) => Some(message@),
                None => None,
            },
        }
    }
}

impl<N> Default for CalculatorApp<N> {
    /// A calculator in its initial state.
    fn default() -> (calculator: Self)
        ensures
            calculator@ == CalculatorState::<N>::initial(),
    {
        CalculatorApp { value: None, answer: None, last_operation: None, error_message: None }
    }
}

impl<N: Copy> Clone for CalculatorApp<N> {
    /// A calculator in the same state.
    fn clone(&self) -> (copy: Self)
        ensures
            copy@ == self@,
    {
        CalculatorApp {
            value: self.value,
            answer: self.answer,
            last_operation: self.last_operation,
            error_message: match &self.error_message {
                Some(message) => Some(message.clone()),
                None => None,
            },
        }
    }
}

impl<N: Copy> CalculatorApp<N> {
    /// A calculator in its initial state.
    pub fn new() -> (calculator: Self)
        ensures
            calculator@ == CalculatorState::<N>::initial(),
    {
        CalculatorApp { value: None, answer: None, last_operation: None, error_message: None }
    }

    /// Whether the calculator is in a state that no sequence of key presses
    /// leads to, in which an operator key sets the error message.
    pub fn is_unreachable(&self) -> (unreachable: bool)
        ensures
            unreachable == self@.is_unreachable(),
    {
        match (self.answer, self.value, self.last_operation) {
            (None, Some(_), Some(_)) => true,
            (Some(_), None, None) => true,
            (Some(_), Some(_), None) => true,
            _ => false,
        }
    }

    /// A number key was pressed: its digit starts the number being typed, or
    /// is appended to it. `arithmetic` computes the new number.
    pub fn click_number<F: Fn(Calculation<N>) -> N>(&mut self, digit: u8, arithmetic: F)
        requires
            arithmetic.requires((old(self)@.number_calculation(digit),)),
        ensures
            old(self)@.number_step(digit, arithmetic, final(self)@),
    {
        self.value = Some(
            match self.value {
                Some(value) => arithmetic(Calculation::AppendDigit(value, digit)),
                None => arithmetic(Calculation::Digit(digit)),
            },
        );
    }

    /// An operator key was pressed. Depending on what is there, the key does
    /// nothing, takes the typed number as the answer, replaces the recorded
    /// operator, has `arithmetic` apply the recorded operator to the answer
    /// and the typed number, or sets the error message: see
    /// [`CalculatorState::operator_step`].
    pub fn click_operator<F: Fn(Calculation<N>) -> N>(&mut self, operator: Operator, arithmetic: F)
        requires
            old(self)@.operator_calculation() matches Some(calculation) ==> arithmetic.requires(
                (calculation,),
            ),
        ensures
            old(self)@.operator_step(operator, arithmetic, final(self)@),
    {
        match (self.answer, self.value, self.last_operation) {
            (None, None, _) => {},
            (None, Some(value), None) => {
                self.answer = Some(value);
                self.value = None;
                self.last_operation = Some(operator);
            },
            (Some(_), None, Some(_)) => {
                self.last_operation = Some(operator);
            },
            (Some(answer), Some(value), Some(recorded)) => {
                self.answer = Some(recorded.binary_operation(answer, value, arithmetic));
                self.value = None;
                self.last_operation = Some(operator);
            },
            _ => {
                self.error_message = Some(String::from_str("Err: Unreachable"));
            },
        }
    }

    /// A special key was pressed: clear puts the calculator back into its
    /// initial state, whatever state it was in.
    pub fn click_special(&mut self, special: SpecialButton)
        ensures
            old(self)@.special_step(special, final(self)@),
    {
        match special {
            SpecialButton::Clear => {
                *self = CalculatorApp::new();
            },
        }
    }

    /// A key was pressed: a number key, an operator key or a special key.
    pub fn click_button<F: Fn(Calculation<N>) -> N>(&mut self, button: ButtonType, arithmetic: F)
        requires
            old(self)@.calculation_for(button) matches Some(calculation) ==> arithmetic.requires(
                (calculation,),
            ),
        ensures
            old(self)@.button_step(button, arithmetic, final(self)@),
    {
        match button {
            ButtonType::Number(digit) => self.click_number(digit, arithmetic),
            ButtonType::Operator(operator) => self.click_operator(operator, arithmetic),
            ButtonType::Special(special) => self.click_special(special),
        }
    }

    /// The text of the main display: the error message if there is one;
    /// else the number being typed, else the answer, else `zero`, as `format`
    /// writes it.
    pub fn display_value<F: Fn(N) -> String>(&self, zero: N, format: F) -> (text: String)
        requires
            self@.error_message is None ==> format.requires((self@.shown_number(zero),)),
        ensures
            self@.is_display_value(zero, format, text),
    {
        match &self.error_message {
            Some(message) => message.clone(),
            None => format(
                match (self.value, self.answer) {
                    (Some(value), _) => value,
                    (None, Some(answer)) => answer,
                    (None, None) => zero,
                },
            ),
        }
    }

    /// The text of the small display above the main one: the answer so far
    /// as `format` writes it, a space, and the symbol of the operator that
    /// waits for its second operand. After `Equal` it is empty.
    pub fn partial_result_display<F: Fn(N) -> String>(&self, format: F) -> (text: String)
        requires
            self@.last_operation != Some(Operator::Equal) ==> (self@.answer matches Some(answer)
                ==> format.requires((answer,))),
        ensures
            self@.is_partial_result_display(format, text),
    {
        match self.last_operation {
            Some(Operator::Equal) => String::new(),
            _ => {
                proof {
                    reveal_strlit(" ");
                }
                let mut text = match self.answer {
                    Some(answer) => format(answer),
                    None => String::new(),
                };
                let ghost number = text;
                text.append(" ");
                match self.last_operation {
                    Some(recorded) => {
                        let symbol = recorded.symbol();
                        text.append(symbol.as_str());
                    },
                    None => {},
                }
                proof {
                    assert(" "@ =~= seq![' ']);
                    if self.answer is Some {
                        assert(format.ensures((self.answer.unwrap(),), number));
                        assert(text@ =~= number@.push(' ') + self@.recorded_symbol());
                    } else {
                        assert(text@ =~= seq![' '] + self@.recorded_symbol());
                    }
                }
                text
            },
        }
    }
}

} // verus!
