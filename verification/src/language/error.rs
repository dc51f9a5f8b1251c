//! Why a program could not be transpiled.

use vstd::prelude::*;
use crate::dsl::DslError;

verus! {

/// Why a program, or a template of a builtin, could not be turned into code.
#[derive(Debug, PartialEq, Eq, Structural)]
pub enum TranspileError {
    /// A builtin's template is malformed.
    Template(DslError),
    /// All `usize::MAX` fresh variable names have been handed out.
    NamesExhausted,
    /// A counter of stack positions or inputs would overflow.
    CounterOverflow,
    /// A template names an input, output or local variable that is not there.
    UnknownVariable,
    /// A template's input variable index is `usize::MAX`.
    InputIndexOverflow,
    /// An output handler tried to define an output variable.
    OutputHandlerOutVar,
    /// An output handler that takes only the first values found too few.
    NotEnoughValues,
    /// An output handler that takes values one by one, or as one list,
    /// does not read exactly one input.
    HandlerArity,
    /// A variadic fragment does not push exactly one value.
    VariadicPushes,
    /// The output handler behaviour is not supported.
    UnsupportedBehavior,
    /// No group on the stack has an output handler.
    NoOutputHandler,
    /// A modifier was not followed by anything.
    ModifierExpectedFunction,
    /// A group was opened and never closed.
    ExpectedClosingParenthesis,
    /// A `|` appeared where no modifier expects one.
    PipeInUnmodifiedContext,
    /// A character that is no builtin.
    UnexpectedToken(char),
    /// A number literal does not fit in 32 bits.
    LiteralOverflow,
    /// A `|` or `)` closes a group that was never opened.
    UnbalancedGroup,
}

} // verus!
