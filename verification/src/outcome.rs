//! The tri-state outcome of one parsing step.
//!
//! A step either matches (producing a value and the point it consumed up to),
//! does not match (a recoverable signal: the enclosing grammar may try another
//! alternative or end a repetition), or fails fatally (the input is malformed;
//! the whole parse aborts). A fatal outcome is never downgraded: every
//! combinator passes it through unchanged.

use vstd::prelude::*;

use crate::error::{Error, ErrorModel};
use crate::position::{Position, PositionModel};

verus! {

/// The outcome of one executable parsing step over a buffer of codepoints.
///
/// `at` is the index of the first codepoint the step did not consume, and
/// `pos` the row/column cursor standing there.
pub enum Outcome<T> {
    Matched { value: T, at: usize, pos: Position },
    NoMatch,
    Fatal { err: Error },
}

/// The outcome of one parsing step in the mathematical model. `rest` is the
/// part of the input the step did not consume.
pub enum OutcomeModel<T> {
    Matched { value: T, rest: Seq<char>, pos: PositionModel },
    NoMatch,
    Fatal { err: ErrorModel },
}

} // verus!
