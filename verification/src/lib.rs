//! The engine of a four-function calculator: which state each key press leads
//! to, and what the two lines of the display show.
//!
//! The engine is generic in the number type `N`. It decides when a number is
//! to be computed and from what; the arithmetic itself, and the text of a
//! number, are the caller's, handed in as functions.

pub mod button;
pub mod engine;
pub mod guarantees;
pub mod operator;
pub mod state;

pub use button::ButtonType;
pub use button::SpecialButton;
pub use engine::CalculatorApp;
pub use operator::Calculation;
pub use operator::Operator;
pub use state::CalculatorState;
