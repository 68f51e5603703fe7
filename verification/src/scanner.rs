//! The text-character scanner: classifies one codepoint of a text run,
//! consuming escape pairs.
//!
//! From the front of the remaining input it yields
//! - no match on `[` or `]` (the text run ends there; the codepoint belongs to
//!   the enclosing grammar) and at the end of the input;
//! - a fatal error on `\` at the end of the input, or on `\` followed by a
//!   codepoint that is not one of the four control codepoints;
//! - otherwise one matched [`Character`]: the terminator for an unescaped `|`,
//!   or the literal codepoint (escaped or plain) as ordinary text content.

use vstd::prelude::*;

use crate::error::{Error, ErrorModel};
use crate::outcome::{Outcome, OutcomeModel};
use crate::position::{pos_advance, pos_bounded, Position, PositionModel};

verus! {

/// One scanned codepoint of a text run.
pub enum Character {
    /// An unescaped `|`: ends the text run explicitly.
    VerticalBar,
    /// A codepoint that stands for itself in the text content.
    Other(char),
}

/// The four codepoints with grammatical meaning: `[`, `]`, `|`, `\`.
pub open spec fn is_control(c: char) -> bool {
    c == '[' || c == ']' || c == '|' || c == '\\'
}

/// What the scanner yields on the remaining input `s` at position `p`.
pub open spec fn scan_model(s: Seq<char>, p: PositionModel) -> OutcomeModel<Character> {
    if s.len() == 0 {
        OutcomeModel::NoMatch
    } else {
        let c = s[0];
        let p1 = pos_advance(p, c);
        if c == '[' || c == ']' {
            OutcomeModel::NoMatch
        } else if c == '\\' {
            if s.len() == 1 {
                OutcomeModel::Fatal { err: ErrorModel::EscapeAtTheEndOfInput { input_end: p1 } }
            } else if is_control(s[1]) {
                OutcomeModel::Matched {
                    value: Character::Other(s[1]),
                    rest: s.skip(2),
                    pos: pos_advance(p1, s[1]),
                }
            } else {
                OutcomeModel::Fatal {
                    err: ErrorModel::UnknownCharacterEscaped { character_position: p1 },
                }
            }
        } else if c == '|' {
            OutcomeModel::Matched { value: Character::VerticalBar, rest: s.skip(1), pos: p1 }
        } else {
            OutcomeModel::Matched { value: Character::Other(c), rest: s.skip(1), pos: p1 }
        }
    }
}

/// Scan one text character of `v` from index `i` at position `p`.
pub fn scan(v: &Vec<char>, i: usize, p: Position) -> (r: Outcome<Character>)
    requires
        i <= v@.len() < usize::MAX,
        pos_bounded(p@, i as int),
    ensures
        ({
            let m = scan_model(v@.skip(i as int), p@);
            match r {
                Outcome::Matched { value, at, pos } => {
                    &&& i < at <= v@.len()
                    &&& pos_bounded(pos@, at as int)
                    &&& m == (OutcomeModel::Matched {
                        value,
                        rest: v@.skip(at as int),
                        pos: pos@,
                    })
                },
                Outcome::NoMatch => m is NoMatch,
                Outcome::Fatal { err } => m == (OutcomeModel::<Character>::Fatal { err: err@ }),
            }
        }),
{
    proof {
        assert(v@.skip(i as int).len() == v@.len() - i);
    }
    if i == v.len() {
        return Outcome::NoMatch;
    }
    let c = v[i];
    assert(v@.skip(i as int)[0] == c);
    if c == '[' || c == ']' {
        Outcome::NoMatch
    } else if c == '\\' {
        let p1 = p.advance(c);
        if i + 1 == v.len() {
            Outcome::Fatal { err: Error::EscapeAtTheEndOfInput { input_end: p1 } }
        } else {
            let c2 = v[i + 1];
            assert(v@.skip(i as int)[1] == c2);
            if c2 == '\\' || c2 == '|' || c2 == '[' || c2 == ']' {
                proof {
                    assert(v@.skip(i as int).skip(2) =~= v@.skip(i as int + 2));
                }
                Outcome::Matched { value: Character::Other(c2), at: i + 2, pos: p1.advance(c2) }
            } else {
                Outcome::Fatal { err: Error::UnknownCharacterEscaped { character_position: p1 } }
            }
        }
    } else {
        proof {
            assert(v@.skip(i as int).skip(1) =~= v@.skip(i as int + 1));
        }
        if c == '|' {
            Outcome::Matched { value: Character::VerticalBar, at: i + 1, pos: p.advance(c) }
        } else {
            Outcome::Matched { value: Character::Other(c), at: i + 1, pos: p.advance(c) }
        }
    }
}

} // verus!
