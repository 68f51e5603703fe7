//! The node and sequence parsers — the grammar's recursive heart — and the
//! public entry points.
//!
//! A node is a text run, or a `[`-opened sequence that must be closed by `]`.
//! A sequence is a repetition of nodes that simply stops at the first point
//! where no node matches; stopping is not an error for the sequence itself.
//! A fatal outcome from any element aborts everything unchanged.
//!
//! At the top level, [`parse_sequential_nodes`] demands that the whole input
//! be consumed: input left over after the sequence stops necessarily begins
//! with an unmatched `]`, reported as
//! [`Error::UnexpectedClosingBracket`](crate::error::Error).
//!
//! The parsers recurse on the input, one level per `[`, so the call stack
//! grows with the bracket-nesting depth of the input; adversarially deep
//! nesting can exhaust it. Every call is proved to terminate.

use vstd::prelude::*;
use vstd::string::StrSliceExecFns;

use crate::error::{Error, ErrorModel};
use crate::outcome::{Outcome, OutcomeModel};
use crate::position::{pos_advance, pos_bounded, start_position, Position, PositionModel};
use crate::text;
use crate::tree::{node_model, nodes_model, Node, NodeModel, Sequence};

verus! {

/// What the node parser yields on the remaining input `s` at position `p`:
/// first a text run is tried, then a bracket-delimited sub-sequence. A `[`
/// whose sub-sequence is not followed by `]` is fatal, reported at the `[`.
pub open spec fn parse_node_model(s: Seq<char>, p: PositionModel) -> OutcomeModel<NodeModel>
    decreases s.len(), 0int,
{
    match text::text_model(s, p) {
        OutcomeModel::Matched { value: t, rest, pos } => OutcomeModel::Matched {
            value: t.as_node(),
            rest,
            pos,
        },
        OutcomeModel::Fatal { err } => OutcomeModel::Fatal { err },
        OutcomeModel::NoMatch => {
            if s.len() > 0 && s[0] == '[' {
                let p1 = pos_advance(p, '[');
                let r1 = s.skip(1);
                if r1.len() > 0 && r1[0] == ']' {
                    OutcomeModel::Matched {
                        value: NodeModel::Sequence { contents: Seq::empty() },
                        rest: r1.skip(1),
                        pos: pos_advance(p1, ']'),
                    }
                } else {
                    match parse_sequence_model(r1, p1) {
                        OutcomeModel::Matched { value: nodes, rest: r2, pos: p2 } => {
                            if r2.len() > 0 && r2[0] == ']' {
                                OutcomeModel::Matched {
                                    value: NodeModel::Sequence { contents: nodes },
                                    rest: r2.skip(1),
                                    pos: pos_advance(p2, ']'),
                                }
                            } else {
                                OutcomeModel::Fatal {
                                    err: ErrorModel::UnclosedBracket { pos: p },
                                }
                            }
                        },
                        OutcomeModel::NoMatch => OutcomeModel::Fatal {
                            err: ErrorModel::UnclosedBracket { pos: p },
                        },
                        OutcomeModel::Fatal { err } => OutcomeModel::Fatal { err },
                    }
                }
            } else {
                OutcomeModel::NoMatch
            }
        },
    }
}

/// What the sequence parser yields: node after node until one does not match,
/// never less than a match with the empty list. A matched node always
/// consumes at least one codepoint, so the guard on the recursion below is
/// always true; it only makes the recursion visibly well-founded.
pub open spec fn parse_sequence_model(s: Seq<char>, p: PositionModel) -> OutcomeModel<
    Seq<NodeModel>,
>
    decreases s.len(), 1int,
{
    match parse_node_model(s, p) {
        OutcomeModel::NoMatch => OutcomeModel::Matched { value: Seq::empty(), rest: s, pos: p },
        OutcomeModel::Fatal { err } => OutcomeModel::Fatal { err },
        OutcomeModel::Matched { value: nd, rest, pos } => {
            if rest.len() < s.len() {
                match parse_sequence_model(rest, pos) {
                    OutcomeModel::Matched { value: nodes, rest: r2, pos: p2 } => {
                        OutcomeModel::Matched { value: seq![nd] + nodes, rest: r2, pos: p2 }
                    },
                    OutcomeModel::NoMatch => OutcomeModel::NoMatch,
                    OutcomeModel::Fatal { err } => OutcomeModel::Fatal { err },
                }
            } else {
                OutcomeModel::Matched { value: seq![nd], rest, pos }
            }
        },
    }
}

/// What [`parse_sequential_nodes`] returns on input `s`.
pub open spec fn parse_sequential_nodes_model(s: Seq<char>) -> Result<Seq<NodeModel>, ErrorModel> {
    match parse_sequence_model(s, start_position()) {
        OutcomeModel::Matched { value, rest, pos } => if rest.len() == 0 {
            Ok(value)
        } else {
            Err(ErrorModel::UnexpectedClosingBracket { pos })
        },
        OutcomeModel::NoMatch => Ok(Seq::empty()),
        OutcomeModel::Fatal { err } => Err(err),
    }
}

/// What [`parse_one_node`] returns on input `s`: the first node with the
/// unconsumed remainder and the position standing there, `None` when no node
/// matches at the front.
pub open spec fn parse_one_node_model(s: Seq<char>) -> Result<
    Option<(NodeModel, Seq<char>, PositionModel)>,
    ErrorModel,
> {
    match parse_node_model(s, start_position()) {
        OutcomeModel::Matched { value, rest, pos } => Ok(Some((value, rest, pos))),
        OutcomeModel::NoMatch => Ok(None),
        OutcomeModel::Fatal { err } => Err(err),
    }
}

/// The sequence parser's outcome once the nodes of `acc` have already been
/// collected: what [`parse_sequence_model`] yields from the point `(s, p)`,
/// with `acc` prepended to the collected list.
spec fn sequence_glue(acc: Seq<NodeModel>, s: Seq<char>, p: PositionModel) -> OutcomeModel<
    Seq<NodeModel>,
> {
    match parse_sequence_model(s, p) {
        OutcomeModel::Matched { value, rest, pos } => OutcomeModel::Matched {
            value: acc + value,
            rest,
            pos,
        },
        OutcomeModel::NoMatch => OutcomeModel::NoMatch,
        OutcomeModel::Fatal { err } => OutcomeModel::Fatal { err },
    }
}

/// Parse one node of `v` from index `i` at position `p`.
pub fn parse_node(v: &Vec<char>, i: usize, p: Position) -> (r: Outcome<Node>)
    requires
        i <= v@.len() < usize::MAX,
        pos_bounded(p@, i as int),
    ensures
        ({
            let m = parse_node_model(v@.skip(i as int), p@);
            match r {
                Outcome::Matched { value, at, pos } => {
                    &&& i < at <= v@.len()
                    &&& pos_bounded(pos@, at as int)
                    &&& m == (OutcomeModel::Matched {
                        value: node_model(value),
                        rest: v@.skip(at as int),
                        pos: pos@,
                    })
                },
                Outcome::NoMatch => m is NoMatch,
                Outcome::Fatal { err } => m == (OutcomeModel::<NodeModel>::Fatal { err: err@ }),
            }
        }),
    decreases v@.len() - i, 0int,
{
    match text::parse(v, i, p) {
        Outcome::Matched { value, at, pos } => {
            return Outcome::Matched { value: Node::Text(value), at, pos };
        },
        Outcome::Fatal { err } => {
            return Outcome::Fatal { err };
        },
        Outcome::NoMatch => {},
    }
    if i == v.len() {
        return Outcome::NoMatch;
    }
    let c = v[i];
    assert(v@.skip(i as int)[0] == c);
    if c != '[' {
        return Outcome::NoMatch;
    }
    let p1 = p.advance(c);
    proof {
        assert(v@.skip(i as int).skip(1) =~= v@.skip(i as int + 1));
    }
    if i + 1 < v.len() {
        let c2 = v[i + 1];
        if c2 == ']' {
            proof {
                assert(v@.skip(i as int + 1).skip(1) =~= v@.skip(i as int + 2));
            }
            let n = Node::Sequence(Sequence { contents: Vec::new() });
            let r = Outcome::Matched { value: n, at: i + 2, pos: p1.advance(c2) };
            return r;
        }
    }
    match parse_sequence(v, i + 1, p1) {
        Outcome::Matched { value: nodes, at: j, pos: q } => {
            if j < v.len() {
                let c2 = v[j];
                assert(v@.skip(j as int)[0] == c2);
                if c2 == ']' {
                    proof {
                        assert(v@.skip(j as int).skip(1) =~= v@.skip(j as int + 1));
                    }
                    return Outcome::Matched {
                        value: Node::Sequence(Sequence { contents: nodes }),
                        at: j + 1,
                        pos: q.advance(c2),
                    };
                }
            }
            Outcome::Fatal { err: Error::UnclosedBracket { pos: p } }
        },
        Outcome::NoMatch => Outcome::Fatal { err: Error::UnclosedBracket { pos: p } },
        Outcome::Fatal { err } => Outcome::Fatal { err },
    }
}

/// Parse a sequence of nodes of `v` from index `i` at position `p`: node
/// after node until one does not match.
pub fn parse_sequence(v: &Vec<char>, i: usize, p: Position) -> (r: Outcome<Vec<Node>>)
    requires
        i <= v@.len() < usize::MAX,
        pos_bounded(p@, i as int),
    ensures
        ({
            let m = parse_sequence_model(v@.skip(i as int), p@);
            match r {
                Outcome::Matched { value, at, pos } => {
                    &&& i <= at <= v@.len()
                    &&& pos_bounded(pos@, at as int)
                    &&& m == (OutcomeModel::Matched {
                        value: nodes_model(value@),
                        rest: v@.skip(at as int),
                        pos: pos@,
                    })
                },
                Outcome::NoMatch => m is NoMatch,
                Outcome::Fatal { err } => m == (OutcomeModel::<Seq<NodeModel>>::Fatal {
                    err: err@,
                }),
            }
        }),
    decreases v@.len() - i, 1int,
{
    let mut nodes: Vec<Node> = Vec::new();
    let mut at = i;
    let mut pos = p;
    proof {
        let orig = v@.skip(i as int);
        match parse_sequence_model(orig, p@) {
            OutcomeModel::Matched { value, rest, pos: q } => {
                assert(Seq::<NodeModel>::empty() + value =~= value);
            },
            OutcomeModel::NoMatch => {},
            OutcomeModel::Fatal { err } => {},
        }
        assert(sequence_glue(nodes_model(nodes@), orig, p@) == parse_sequence_model(orig, p@));
    }
    loop
        invariant
            i <= at <= v@.len() < usize::MAX,
            pos_bounded(pos@, at as int),
            sequence_glue(nodes_model(nodes@), v@.skip(at as int), pos@) == parse_sequence_model(
                v@.skip(i as int),
                p@,
            ),
        decreases v@.len() - at,
    {
        match parse_node(v, at, pos) {
            Outcome::Matched { value, at: at2, pos: pos2 } => {
                proof {
                    let acc = nodes_model(nodes@);
                    let ndm = node_model(value);
                    let cur = v@.skip(at as int);
                    let next = v@.skip(at2 as int);
                    assert(cur.len() == v@.len() - at);
                    assert(next.len() == v@.len() - at2);
                    match parse_sequence_model(next, pos2@) {
                        OutcomeModel::Matched { value: ns, rest: r2, pos: p2 } => {
                            assert(acc + (seq![ndm] + ns) =~= (acc + seq![ndm]) + ns);
                        },
                        OutcomeModel::NoMatch => {},
                        OutcomeModel::Fatal { err } => {},
                    }
                    assert(sequence_glue(acc + seq![ndm], next, pos2@) == sequence_glue(
                        acc,
                        cur,
                        pos@,
                    ));
                    crate::tree::lemma_nodes_model_push(nodes@, value);
                }
                nodes.push(value);
                at = at2;
                pos = pos2;
            },
            Outcome::NoMatch => {
                proof {
                    let acc = nodes_model(nodes@);
                    let cur = v@.skip(at as int);
                    assert(parse_sequence_model(cur, pos@) == (OutcomeModel::Matched {
                        value: Seq::<NodeModel>::empty(),
                        rest: cur,
                        pos: pos@,
                    }));
                    assert(acc + Seq::<NodeModel>::empty() =~= acc);
                }
                return Outcome::Matched { value: nodes, at, pos };
            },
            Outcome::Fatal { err } => {
                return Outcome::Fatal { err };
            },
        }
    }
}

/// The codepoints of `s`, in order.
fn chars_of(s: &str) -> (v: Vec<char>)
    ensures
        v@ == s@,
{
    let n = s.unicode_len();
    let mut v: Vec<char> = Vec::new();
    let mut k: usize = 0;
    while k < n
        invariant
            k <= n,
            n == s@.len(),
            v@ == s@.subrange(0, k as int),
        decreases n - k,
    {
        let c = s.get_char(k);
        v.push(c);
        proof {
            assert(v@ =~= s@.subrange(0, k as int + 1));
        }
        k += 1;
    }
    proof {
        assert(s@.subrange(0, s@.len() as int) =~= s@);
    }
    v
}

/// Parse the whole input as a sequence of nodes, from row 1, column 1.
///
/// Returns the complete tree, or the first fatal error; when the sequence
/// parser stops before the end of the input, the leftover necessarily begins
/// with an unmatched `]`, reported at its position.
pub fn parse_sequential_nodes(input: &str) -> (r: Result<Sequence, Error>)
    requires
        input@.len() < usize::MAX,
    ensures
        ({
            let m = parse_sequential_nodes_model(input@);
            match r {
                Ok(sequence) => m == Ok::<Seq<NodeModel>, ErrorModel>(sequence@),
                Err(e) => m == Err::<Seq<NodeModel>, ErrorModel>(e@),
            }
        }),
{
    let v = chars_of(input);
    proof {
        assert(v@.skip(0) =~= input@);
    }
    match parse_sequence(&v, 0, Position::start()) {
        Outcome::Matched { value, at, pos } => {
            if at == v.len() {
                proof {
                    assert(v@.skip(at as int).len() == 0);
                }
                Ok(Sequence { contents: value })
            } else {
                Err(Error::UnexpectedClosingBracket { pos })
            }
        },
        Outcome::NoMatch => Ok(Sequence { contents: Vec::new() }),
        Outcome::Fatal { err } => Err(err),
    }
}

/// Parse one node from the front of the input, from row 1, column 1.
///
/// Returns the node together with the unconsumed remainder of the input and
/// the position standing there; `Ok(None)` when no node matches at the front
/// (in particular on empty input), or the fatal error.
pub fn parse_one_node<'a>(input: &'a str) -> (r: Result<
    Option<(Node, &'a str, Position)>,
    Error,
>)
    requires
        input@.len() < usize::MAX,
    ensures
        ({
            let m = parse_one_node_model(input@);
            match r {
                Ok(opt) => match opt {
                    Some((node, rest, pos)) => m == Ok::<
                        Option<(NodeModel, Seq<char>, PositionModel)>,
                        ErrorModel,
                    >(Some((node_model(node), rest@, pos@))),
                    None => m == Ok::<
                        Option<(NodeModel, Seq<char>, PositionModel)>,
                        ErrorModel,
                    >(None),
                },
                Err(e) => m == Err::<Option<(NodeModel, Seq<char>, PositionModel)>, ErrorModel>(
                    e@,
                ),
            }
        }),
{
    let v = chars_of(input);
    proof {
        assert(v@.skip(0) =~= input@);
    }
    match parse_node(&v, 0, Position::start()) {
        Outcome::Matched { value, at, pos } => {
            let n = input.unicode_len();
            let rest = input.substring_char(at, n);
            proof {
                assert(rest@ =~= input@.skip(at as int));
            }
            Ok(Some((value, rest, pos)))
        },
        Outcome::NoMatch => Ok(None),
        Outcome::Fatal { err } => Err(err),
    }
}

} // verus!
