//! What holds of the calculator whatever keys are pressed, proved from the
//! steps in [`crate::state`].

use vstd::prelude::*;
use crate::button::ButtonType;
use crate::button::SpecialButton;
use crate::operator::Calculation;
use crate::operator::Operator;
use crate::state::unreachable_message;
use crate::state::CalculatorState;

verus! {

/// Whether `format` writes each number in one way only: any two texts that it
/// may return for one number read the same.
pub open spec fn writes_one_text<N, F: Fn(N) -> String>(format: F) -> bool {
    forall|number: N, first: String, second: String|
        #![trigger format.ensures((number,), first), format.ensures((number,), second)]
        format.ensures((number,), first) && format.ensures((number,), second) ==> first@
            == second@
}

/// Clear leads to the initial state from every state, and clearing again
/// changes nothing.
pub proof fn clear_resets<N, F: Fn(Calculation<N>) -> N>(
    state: CalculatorState<N>,
    arithmetic: F,
    cleared: CalculatorState<N>,
    again: CalculatorState<N>,
)
    requires
        state.button_step(ButtonType::Special(SpecialButton::Clear), arithmetic, cleared),
        cleared.button_step(ButtonType::Special(SpecialButton::Clear), arithmetic, again),
    ensures
        cleared == CalculatorState::<N>::initial(),
        again == cleared,
{
}

/// The initial state is consistent, and no key leads from a consistent state
/// to one that is not. So from startup, and from every clear, no sequence of
/// key presses reaches an unreachable state or sets the error message.
pub proof fn key_presses_keep_consistency<N, F: Fn(Calculation<N>) -> N>(
    state: CalculatorState<N>,
    button: ButtonType,
    arithmetic: F,
    next: CalculatorState<N>,
)
    requires
        state.is_consistent(),
        state.button_step(button, arithmetic, next),
    ensures
        CalculatorState::<N>::initial().is_consistent(),
        next.is_consistent(),
        !next.is_unreachable(),
        next.error_message is None,
{
}

/// Whether `states` is a run of the calculator over the keys `buttons`: it
/// starts in the initial state, and each key leads from one state to the
/// next.
pub open spec fn is_run<N, F: Fn(Calculation<N>) -> N>(
    states: Seq<CalculatorState<N>>,
    buttons: Seq<ButtonType>,
    arithmetic: F,
) -> bool {
    &&& states.len() == buttons.len() + 1
    &&& states[0] == CalculatorState::<N>::initial()
    &&& forall|i: int|
        0 <= i < buttons.len() ==> (#[trigger] states[i]).button_step(
            buttons[i],
            arithmetic,
            states[i + 1],
        )
}

/// Every state of every run is consistent: whatever keys are pressed, and
/// whatever the arithmetic returns, the calculator never comes into an
/// unreachable state and never shows the error message.
pub proof fn runs_stay_consistent<N, F: Fn(Calculation<N>) -> N>(
    states: Seq<CalculatorState<N>>,
    buttons: Seq<ButtonType>,
    arithmetic: F,
    at: int,
)
    requires
        is_run(states, buttons, arithmetic),
        0 <= at < states.len(),
    ensures
        states[at].is_consistent(),
        !states[at].is_unreachable(),
        states[at].error_message is None,
    decreases at,
{
    if at > 0 {
        runs_stay_consistent(states, buttons, arithmetic, at - 1);
        key_presses_keep_consistency(states[at - 1], buttons[at - 1], arithmetic, states[at]);
    }
}

/// In an unreachable state every operator key sets the error message and
/// leaves the numbers and the recorded operator as they were. Clear then
/// leads back to the initial state, in which no error stands.
pub proof fn unreachable_state_sets_error_until_clear<N, F: Fn(Calculation<N>) -> N>(
    state: CalculatorState<N>,
    operator: Operator,
    arithmetic: F,
    flagged: CalculatorState<N>,
    cleared: CalculatorState<N>,
)
    requires
        state.is_unreachable(),
        state.button_step(ButtonType::Operator(operator), arithmetic, flagged),
        flagged.button_step(ButtonType::Special(SpecialButton::Clear), arithmetic, cleared),
    ensures
        flagged.error_message == Some(unreachable_message()),
        flagged.answer == state.answer,
        flagged.value == state.value,
        flagged.last_operation == state.last_operation,
        cleared == CalculatorState::<N>::initial(),
        cleared.error_message is None,
{
}

/// An error, once set, stays until clear is pressed: every other key leaves
/// an error message in place.
pub proof fn only_clear_removes_an_error<N, F: Fn(Calculation<N>) -> N>(
    state: CalculatorState<N>,
    button: ButtonType,
    arithmetic: F,
    next: CalculatorState<N>,
)
    requires
        state.error_message is Some,
        button != ButtonType::Special(SpecialButton::Clear),
        state.button_step(button, arithmetic, next),
    ensures
        next.error_message == state.error_message || next.error_message == Some(
            unreachable_message(),
        ),
{
}

/// Where an operator key asks for no arithmetic, a second operator key
/// pressed right after it takes its place: the two presses lead where the
/// second alone leads. In particular, pressing `Equal` again changes nothing.
pub proof fn later_operator_replaces_earlier<N, F: Fn(Calculation<N>) -> N>(
    state: CalculatorState<N>,
    earlier: Operator,
    later: Operator,
    arithmetic: F,
    between: CalculatorState<N>,
    next: CalculatorState<N>,
    direct: CalculatorState<N>,
)
    requires
        state.operator_calculation() is None,
        state.operator_step(earlier, arithmetic, between),
        between.operator_step(later, arithmetic, next),
        state.operator_step(later, arithmetic, direct),
    ensures
        next == direct,
{
}

/// The main display is a function of the state: with a `format` that writes
/// each number in one way only, any two texts that it may show for one state
/// read the same.
pub proof fn display_value_is_repeatable<N, F: Fn(N) -> String>(
    state: CalculatorState<N>,
    zero: N,
    format: F,
    first: String,
    second: String,
)
    requires
        writes_one_text(format),
        state.is_display_value(zero, format, first),
        state.is_display_value(zero, format, second),
    ensures
        first@ == second@,
{
}

/// The small display is a function of the state, as the main one is.
pub proof fn partial_result_display_is_repeatable<N, F: Fn(N) -> String>(
    state: CalculatorState<N>,
    format: F,
    first: String,
    second: String,
)
    requires
        writes_one_text(format),
        state.is_partial_result_display(format, first),
        state.is_partial_result_display(format, second),
    ensures
        first@ == second@,
{
}

} // verus!
