//! The operator keys, and the arithmetic that the engine asks of its caller.

use vstd::prelude::*;

verus! {

/// One piece of arithmetic on numbers of type `N` that the engine asks its
/// caller to carry out.
#[derive(Debug, PartialEq)]
pub enum Calculation<N> {
    /// The number that a decimal digit stands for.
    Digit(u8),
    /// Ten times the number, plus the digit: the number with one more digit
    /// typed behind it.
    AppendDigit(N, u8),
    /// The sum of the two numbers.
    Add(N, N),
    /// The first number less the second.
    Subtract(N, N),
    /// The product of the two numbers.
    Multiply(N, N),
    /// The first number divided by the second.
    Divide(N, N),
}

/// The five operator keys.
#[derive(Clone, Copy, Debug, PartialEq, Eq, Structural)]
pub enum Operator {
    Add,
    Subtract,
    Multiply,
    Divide,
    Equal,
}

impl Operator {
    /// The arithmetic that the operator stands for, on the operands `op1` and
    /// `op2`. `Equal` stands for none.
    pub open spec fn calculation<N>(self, op1: N, op2: N) -> Option<Calculation<N>> {
        match self {
            Operator::Add => Some(Calculation::Add(op1, op2)),
            Operator::Subtract => Some(Calculation::Subtract(op1, op2)),
            Operator::Multiply => Some(Calculation::Multiply(op1, op2)),
            Operator::Divide => Some(Calculation::Divide(op1, op2)),
            Operator::Equal => None,
        }
    }

    /// Whether `result` is a number that applying the operator to `op1` and
    /// `op2` may give, with `arithmetic` computing. For the four arithmetic
    /// operators it is what `arithmetic` may return for their calculation.
    /// `Equal` has no rule of its own: with it the second operand, the number
    /// typed last, is the result.
    pub open spec fn yields<N, F: Fn(Calculation<N>) -> N>(
        self,
        op1: N,
        op2: N,
        arithmetic: F,
        result: N,
    ) -> bool {
        match self.calculation(op1, op2) {
            Some(c) => arithmetic.ensures((c,), result),
            None => result == op2,
        }
    }

    /// The symbol of the operator, as the keys and the display show it.
    pub open spec fn symbol_text(self) -> Seq<char> {
        match self {
            Operator::Add => seq!['+'],
            Operator::Subtract => seq!['\u{2212}'],
            Operator::Multiply => seq!['\u{d7}'],
            Operator::Divide => seq!['\u{f7}'],
            Operator::Equal => seq!['='],
        }
    }

    /// The symbol of the operator, as the keys and the display show it.
    pub fn symbol(&self) -> (text: String)
        ensures
            text@ == self.symbol_text(),
    {
        proof {
            reveal_strlit("+");
            reveal_strlit("\u{2212}");
            reveal_strlit("\u{d7}");
            reveal_strlit("\u{f7}");
            reveal_strlit("=");
        }
        let text = match self {
            Operator::Add => String::from_str("+"),
            Operator::Subtract => String::from_str("\u{2212}"),
            Operator::Multiply => String::from_str("\u{d7}"),
            Operator::Divide => String::from_str("\u{f7}"),
            Operator::Equal => String::from_str("="),
        };
        assert(text@ =~= self.symbol_text());
        text
    }

    /// Applies the operator to two operands, leaving the arithmetic to
    /// `arithmetic`.
    pub fn binary_operation<N: Copy, F: Fn(Calculation<N>) -> N>(
        &self,
        op1: N,
        op2: N,
        arithmetic: F,
    ) -> (result: N)
        requires
            self.calculation(op1, op2) matches Some(c) ==> arithmetic.requires((c,)),
        ensures
            self.yields(op1, op2, arithmetic, result),
    {
        match self {
            Operator::Add => arithmetic(Calculation::Add(op1, op2)),
            Operator::Subtract => arithmetic(Calculation::Subtract(op1, op2)),
            Operator::Multiply => arithmetic(Calculation::Multiply(op1, op2)),
            Operator::Divide => arithmetic(Calculation::Divide(op1, op2)),
            Operator::Equal => op2,
        }
    }
}

} // verus!
