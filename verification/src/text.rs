//! The text parser: greedily consumes a maximal run of text characters into
//! one [`Text`] node.
//!
//! The run ends explicitly when the scanner yields the terminator (an
//! unescaped `|`, which is consumed and not part of the content), and
//! implicitly when the scanner stops matching (at `[`, `]` or the end of the
//! input, none of which is consumed). A run of no characters at all is no
//! match: no text node is produced from nothing. A fatal scanner outcome
//! aborts the run unchanged.

use vstd::prelude::*;

use crate::outcome::{Outcome, OutcomeModel};
use crate::position::{pos_bounded, Position, PositionModel};
use crate::scanner;
use crate::scanner::Character;
use crate::tree::{Text, TextModel};

verus! {

/// What the text parser yields on the remaining input `s` at position `p`.
pub open spec fn text_model(s: Seq<char>, p: PositionModel) -> OutcomeModel<TextModel>
    decreases s.len(),
{
    match scanner::scan_model(s, p) {
        OutcomeModel::Matched { value, rest, pos } => match value {
            Character::VerticalBar => OutcomeModel::Matched {
                value: TextModel { content: Seq::empty(), ended_explicitly: true },
                rest,
                pos,
            },
            Character::Other(c) => match text_model(rest, pos) {
                OutcomeModel::Matched { value: t, rest: r2, pos: p2 } => OutcomeModel::Matched {
                    value: TextModel {
                        content: seq![c] + t.content,
                        ended_explicitly: t.ended_explicitly,
                    },
                    rest: r2,
                    pos: p2,
                },
                OutcomeModel::NoMatch => OutcomeModel::Matched {
                    value: TextModel { content: seq![c], ended_explicitly: false },
                    rest,
                    pos,
                },
                OutcomeModel::Fatal { err } => OutcomeModel::Fatal { err },
            },
        },
        OutcomeModel::NoMatch => OutcomeModel::NoMatch,
        OutcomeModel::Fatal { err } => OutcomeModel::Fatal { err },
    }
}

/// The text parser's outcome once the codepoints of `acc` have already been
/// consumed into the run: what [`text_model`] yields from the point `(s, p)`,
/// with `acc` prepended to the content.
spec fn text_glue(acc: Seq<char>, s: Seq<char>, p: PositionModel) -> OutcomeModel<TextModel> {
    match text_model(s, p) {
        OutcomeModel::Matched { value: t, rest, pos } => OutcomeModel::Matched {
            value: TextModel { content: acc + t.content, ended_explicitly: t.ended_explicitly },
            rest,
            pos,
        },
        OutcomeModel::NoMatch => if acc.len() == 0 {
            OutcomeModel::NoMatch
        } else {
            OutcomeModel::Matched {
                value: TextModel { content: acc, ended_explicitly: false },
                rest: s,
                pos: p,
            }
        },
        OutcomeModel::Fatal { err } => OutcomeModel::Fatal { err },
    }
}

/// Relies on `String::push`: appends the given codepoint to the end of the
/// string.
#[verifier::external_body]
fn push_char(s: &mut String, c: char)
    ensures
        final(s)@ == old(s)@.push(c),
{
    s.push(c);
}

/// Parse one text run of `v` from index `i` at position `p`.
pub fn parse(v: &Vec<char>, i: usize, p: Position) -> (r: Outcome<Text>)
    requires
        i <= v@.len() < usize::MAX,
        pos_bounded(p@, i as int),
    ensures
        ({
            let m = text_model(v@.skip(i as int), p@);
            match r {
                Outcome::Matched { value, at, pos } => {
                    &&& i < at <= v@.len()
                    &&& pos_bounded(pos@, at as int)
                    &&& m == (OutcomeModel::Matched {
                        value: value@,
                        rest: v@.skip(at as int),
                        pos: pos@,
                    })
                },
                Outcome::NoMatch => m is NoMatch,
                Outcome::Fatal { err } => m == (OutcomeModel::<TextModel>::Fatal { err: err@ }),
            }
        }),
{
    let mut content = String::new();
    let mut at = i;
    let mut pos = p;
    loop
        invariant
            i <= at <= v@.len() < usize::MAX,
            pos_bounded(pos@, at as int),
            content@.len() > 0 ==> i < at,
            text_glue(content@, v@.skip(at as int), pos@) == text_model(v@.skip(i as int), p@),
        decreases v@.len() - at,
    {
        match scanner::scan(v, at, pos) {
            Outcome::Matched { value, at: at2, pos: pos2 } => match value {
                Character::VerticalBar => {
                    proof {
                        assert(content@ + Seq::<char>::empty() =~= content@);
                    }
                    return Outcome::Matched {
                        value: Text { content, ended_explicitly: true },
                        at: at2,
                        pos: pos2,
                    };
                },
                Character::Other(c) => {
                    proof {
                        let cur = v@.skip(at as int);
                        let next = v@.skip(at2 as int);
                        match text_model(next, pos2@) {
                            OutcomeModel::Matched { value: t, rest: r2, pos: p2 } => {
                                assert(content@ + (seq![c] + t.content) =~= content@.push(c)
                                    + t.content);
                            },
                            OutcomeModel::NoMatch => {
                                assert(content@ + seq![c] =~= content@.push(c));
                            },
                            OutcomeModel::Fatal { err } => {},
                        }
                        assert(text_glue(content@.push(c), next, pos2@) == text_glue(
                            content@,
                            cur,
                            pos@,
                        ));
                    }
                    push_char(&mut content, c);
                    at = at2;
                    pos = pos2;
                },
            },
            Outcome::NoMatch => {
                if content.as_str().is_empty() {
                    return Outcome::NoMatch;
                }
                return Outcome::Matched {
                    value: Text { content, ended_explicitly: false },
                    at,
                    pos,
                };
            },
            Outcome::Fatal { err } => {
                return Outcome::Fatal { err };
            },
        }
    }
}

} // verus!
