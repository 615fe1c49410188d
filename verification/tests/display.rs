use calculator::{ButtonType, Calculation, CalculatorApp, Operator, SpecialButton};

fn arithmetic(calculation: Calculation<f64>) -> f64 {
    match calculation {
        Calculation::Digit(digit) => f64::from(digit),
        Calculation::AppendDigit(number, digit) => number * 10.0 + f64::from(digit),
        Calculation::Add(a, b) => a + b,
        Calculation::Subtract(a, b) => a - b,
        Calculation::Multiply(a, b) => a * b,
        Calculation::Divide(a, b) => a / b,
    }
}

fn write(number: f64) -> String {
    format!("{}", number)
}

fn shown_after(buttons: &[ButtonType]) -> (String, String) {
    let mut calc = CalculatorApp::new();
    for button in buttons {
        calc.click_button(*button, arithmetic);
    }
    (calc.display_value(0.0, write), calc.partial_result_display(write))
}

const CLEAR: ButtonType = ButtonType::Special(SpecialButton::Clear);
const ADD: ButtonType = ButtonType::Operator(Operator::Add);
const SUBTRACT: ButtonType = ButtonType::Operator(Operator::Subtract);
const MULTIPLY: ButtonType = ButtonType::Operator(Operator::Multiply);
const DIVIDE: ButtonType = ButtonType::Operator(Operator::Divide);
const EQUAL: ButtonType = ButtonType::Operator(Operator::Equal);

#[test]
fn display_shows_zero_at_startup() {
    let calc: CalculatorApp<f64> = CalculatorApp::new();
    assert_eq!(calc.display_value(0.0, write), "0");
    assert_eq!(calc.partial_result_display(write), " ");
}

#[test]
fn display_shows_the_zero_it_is_given() {
    let calc: CalculatorApp<i32> = CalculatorApp::new();
    assert_eq!(calc.display_value(-3, |n: i32| n.to_string()), "-3");
}

#[test]
fn display_shows_the_number_being_typed() {
    let (main, small) =
        shown_after(&[ButtonType::Number(1), ButtonType::Number(2), ButtonType::Number(3)]);
    assert_eq!(main, "123");
    assert_eq!(small, " ");
}

#[test]
fn display_of_single_operation() {
    let (main, small) = shown_after(&[ButtonType::Number(5), ADD, ButtonType::Number(6), EQUAL]);
    assert_eq!(main, "11");
    assert_eq!(small, "");
}

#[test]
fn display_of_operator_replaced_before_operand() {
    let (main, small) =
        shown_after(&[ButtonType::Number(5), ADD, SUBTRACT, ButtonType::Number(3), EQUAL]);
    assert_eq!(main, "2");
    assert_eq!(small, "");
}

#[test]
fn display_of_chained_equals() {
    let first = [ButtonType::Number(5), ADD, ButtonType::Number(6), EQUAL];
    assert_eq!(shown_after(&first).0, "11");
    let all = [
        ButtonType::Number(5),
        ADD,
        ButtonType::Number(6),
        EQUAL,
        ADD,
        ButtonType::Number(5),
        EQUAL,
    ];
    assert_eq!(shown_after(&all[..5]), ("11".to_string(), "11 +".to_string()));
    assert_eq!(shown_after(&all[..6]), ("5".to_string(), "11 +".to_string()));
    assert_eq!(shown_after(&all), ("16".to_string(), "".to_string()));
}

#[test]
fn display_prefers_the_typed_number_to_the_answer() {
    let calc = CalculatorApp {
        value: Some(6.0),
        answer: Some(5.0),
        last_operation: Some(Operator::Add),
        error_message: None,
    };
    assert_eq!(calc.display_value(0.0, write), "6");
    assert_eq!(calc.partial_result_display(write), "5 +");
}

#[test]
fn display_shows_the_answer_while_nothing_is_typed() {
    let (main, small) = shown_after(&[ButtonType::Number(4), ButtonType::Number(2), MULTIPLY]);
    assert_eq!(main, "42");
    assert_eq!(small, "42 \u{d7}");
}

#[test]
fn partial_result_shows_each_operator_symbol() {
    assert_eq!(shown_after(&[ButtonType::Number(8), ADD]).1, "8 +");
    assert_eq!(shown_after(&[ButtonType::Number(8), SUBTRACT]).1, "8 \u{2212}");
    assert_eq!(shown_after(&[ButtonType::Number(8), MULTIPLY]).1, "8 \u{d7}");
    assert_eq!(shown_after(&[ButtonType::Number(8), DIVIDE]).1, "8 \u{f7}");
    assert_eq!(shown_after(&[ButtonType::Number(8), EQUAL]).1, "");
}

#[test]
fn partial_result_without_answer_or_operator() {
    let only_operator: CalculatorApp<f64> = CalculatorApp {
        value: None,
        answer: None,
        last_operation: Some(Operator::Divide),
        error_message: None,
    };
    assert_eq!(only_operator.partial_result_display(write), " \u{f7}");
    let only_answer = CalculatorApp {
        value: None,
        answer: Some(2.5),
        last_operation: None,
        error_message: None,
    };
    assert_eq!(only_answer.partial_result_display(write), "2.5 ");
}

#[test]
fn display_writes_fractions_and_infinities_as_the_formatter_does() {
    assert_eq!(shown_after(&[ButtonType::Number(5), DIVIDE, ButtonType::Number(2), EQUAL]).0, "2.5");
    assert_eq!(shown_after(&[ButtonType::Number(5), DIVIDE, ButtonType::Number(0), EQUAL]).0, "inf");
    assert_eq!(shown_after(&[ButtonType::Number(0), DIVIDE, ButtonType::Number(0), EQUAL]).0, "NaN");
    assert_eq!(shown_after(&[ButtonType::Number(3), SUBTRACT, ButtonType::Number(5), EQUAL]).0, "-2");
}

#[test]
fn error_message_wins_over_the_numbers() {
    let mut calc = CalculatorApp {
        value: Some(6.0),
        answer: Some(5.0),
        last_operation: None,
        error_message: None,
    };
    calc.click_operator(Operator::Add, arithmetic);
    assert_eq!(calc.display_value(0.0, write), "Err: Unreachable");
    calc.click_number(1, arithmetic);
    assert_eq!(calc.display_value(0.0, write), "Err: Unreachable");
    calc.click_button(CLEAR, arithmetic);
    assert_eq!(calc.display_value(0.0, write), "0");
}

#[test]
fn error_message_is_shown_as_it_stands() {
    let calc: CalculatorApp<f64> = CalculatorApp {
        value: Some(1.0),
        answer: None,
        last_operation: None,
        error_message: Some("out of paper".to_string()),
    };
    assert_eq!(calc.display_value(0.0, write), "out of paper");
}

#[test]
fn display_is_the_same_when_read_twice() {
    let mut calc = CalculatorApp::new();
    let buttons = [
        ButtonType::Number(5),
        ADD,
        ButtonType::Number(6),
        EQUAL,
        ButtonType::Number(7),
        DIVIDE,
        DIVIDE,
        ButtonType::Number(0),
        MULTIPLY,
    ];
    for button in buttons {
        calc.click_button(button, arithmetic);
        let before = calc.clone();
        let first = (calc.display_value(0.0, write), calc.partial_result_display(write));
        let second = (calc.display_value(0.0, write), calc.partial_result_display(write));
        assert_eq!(first, second);
        assert_eq!(calc.value.map(f64::to_bits), before.value.map(f64::to_bits));
        assert_eq!(calc.answer.map(f64::to_bits), before.answer.map(f64::to_bits));
        assert_eq!(calc.last_operation, before.last_operation);
        assert_eq!(calc.error_message, before.error_message);
    }
}
