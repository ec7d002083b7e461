//! Operators and error values of a two-operand arithmetic evaluator.
//!
//! The library decides what an evaluation amounts to: which operator a piece
//! of text names, how an operator is written, and whether executing it is
//! allowed (and which arithmetic it performs) or fails, and with what reason.

pub mod error;
pub mod op;
