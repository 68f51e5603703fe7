//! The errors a parse can end in.
//!
//! Every error is fatal: once one arises, the whole parse aborts and no
//! partial tree is returned. Each carries the position at which the defect
//! was detected.

use vstd::prelude::*;

use crate::position::{Position, PositionModel};

verus! {

/// Why a parse failed.
#[derive(Debug, PartialEq, Eq)]
pub enum Error {
    /// The input ends with an unfinished escape: a bare `\` as its last
    /// codepoint. `input_end` is the position one past that `\`, that is, the
    /// end of the input.
    EscapeAtTheEndOfInput { input_end: Position },
    /// A `\` is followed by a codepoint that is not one of `\`, `|`, `[`, `]`.
    /// `character_position` points at that codepoint.
    UnknownCharacterEscaped { character_position: Position },
    /// A `[` is never matched by a `]`. `pos` points at the opening `[`.
    UnclosedBracket { pos: Position },
    /// A `]` has no matching `[`. `pos` points at that `]`.
    UnexpectedClosingBracket { pos: Position },
}

/// The mathematical model of an [`Error`]: the same four variants over
/// unbounded positions.
pub enum ErrorModel {
    EscapeAtTheEndOfInput { input_end: PositionModel },
    UnknownCharacterEscaped { character_position: PositionModel },
    UnclosedBracket { pos: PositionModel },
    UnexpectedClosingBracket { pos: PositionModel },
}

impl View for Error {
    type V = ErrorModel;

    open spec fn view(&self) -> ErrorModel {
        match self {
            Error::EscapeAtTheEndOfInput { input_end } => ErrorModel::EscapeAtTheEndOfInput {
                input_end: input_end@,
            },
            Error::UnknownCharacterEscaped { character_position } => {
                ErrorModel::UnknownCharacterEscaped { character_position: character_position@ }
            },
            Error::UnclosedBracket { pos } => ErrorModel::UnclosedBracket { pos: pos@ },
            Error::UnexpectedClosingBracket { pos } => ErrorModel::UnexpectedClosingBracket {
                pos: pos@,
            },
        }
    }
}

} // verus!
