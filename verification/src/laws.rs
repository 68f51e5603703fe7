//! Laws of the parser, proved against the spec-level parse functions.

use vstd::prelude::*;

use crate::grammar::{parse_node_model, parse_sequence_model, parse_sequential_nodes_model};
use crate::outcome::OutcomeModel;
use crate::position::{pos_advance, pos_after, start_position, PositionModel};
use crate::scanner::is_control;
use crate::text::text_model;
use crate::tree::{NodeModel, TextModel};

verus! {

/// On input without control codepoints the text parser consumes everything
/// into one implicitly ended run.
proof fn lemma_text_run_all_plain(s: Seq<char>, p: PositionModel)
    requires
        s.len() > 0,
        forall|k: int| 0 <= k < s.len() ==> !is_control(#[trigger] s[k]),
    ensures
        text_model(s, p) == (OutcomeModel::Matched {
            value: TextModel { content: s, ended_explicitly: false },
            rest: Seq::<char>::empty(),
            pos: pos_after(p, s),
        }),
    decreases s.len(),
{
    let c = s[0];
    let p1 = pos_advance(p, c);
    let rest = s.skip(1);
    assert(!is_control(c));
    assert(rest =~= s.drop_first());
    assert(crate::scanner::scan_model(s, p) == (OutcomeModel::Matched {
        value: crate::scanner::Character::Other(c),
        rest,
        pos: p1,
    }));
    if s.len() == 1 {
        assert(rest =~= Seq::<char>::empty());
        assert(text_model(rest, p1) is NoMatch);
        assert(seq![c] =~= s);
        assert(pos_after(p, s) == pos_after(p1, rest));
        assert(text_model(s, p) == (OutcomeModel::Matched {
            value: TextModel { content: seq![c], ended_explicitly: false },
            rest,
            pos: p1,
        }));
    } else {
        assert(forall|k: int| 0 <= k < rest.len() ==> !is_control(#[trigger] rest[k]));
        lemma_text_run_all_plain(rest, p1);
        assert(seq![c] + rest =~= s);
        assert(pos_after(p, s) == pos_after(p1, rest));
    }
}

/// Any nonempty string with no control codepoint (`[`, `]`, `|`, `\`) parses
/// to a single implicitly ended text run holding the string itself. (The
/// empty string is the one exception: it parses to an empty sequence.)
pub proof fn lemma_plain_text_input(s: Seq<char>)
    requires
        s.len() > 0,
        forall|k: int| 0 <= k < s.len() ==> !is_control(#[trigger] s[k]),
    ensures
        parse_sequential_nodes_model(s) == Ok::<_, crate::error::ErrorModel>(
            seq![NodeModel::Text { content: s, ended_explicitly: false }],
        ),
{
    let p = start_position();
    lemma_text_run_all_plain(s, p);
    let q = pos_after(p, s);
    let ndm = NodeModel::Text { content: s, ended_explicitly: false };
    assert(parse_node_model(s, p) == (OutcomeModel::Matched {
        value: ndm,
        rest: Seq::<char>::empty(),
        pos: q,
    }));
    assert(text_model(Seq::<char>::empty(), q) is NoMatch);
    assert(parse_node_model(Seq::<char>::empty(), q) is NoMatch);
    assert(parse_sequence_model(Seq::<char>::empty(), q) == (OutcomeModel::Matched {
        value: Seq::<NodeModel>::empty(),
        rest: Seq::<char>::empty(),
        pos: q,
    }));
    assert(parse_sequence_model(s, p) == (OutcomeModel::Matched {
        value: seq![ndm] + Seq::<NodeModel>::empty(),
        rest: Seq::<char>::empty(),
        pos: q,
    }));
    assert(seq![ndm] + Seq::<NodeModel>::empty() =~= seq![ndm]);
}

/// `n` opening brackets followed by `n` closing brackets.
pub open spec fn nested_brackets(n: nat) -> Seq<char>
    decreases n,
{
    if n == 0 {
        Seq::empty()
    } else {
        seq!['['] + nested_brackets((n - 1) as nat) + seq![']']
    }
}

/// The `n`-deep nesting of otherwise empty sequence nodes.
pub open spec fn nested_empty_sequence(n: nat) -> NodeModel
    decreases n,
{
    if n <= 1 {
        NodeModel::Sequence { contents: Seq::empty() }
    } else {
        NodeModel::Sequence { contents: seq![nested_empty_sequence((n - 1) as nat)] }
    }
}

proof fn lemma_nested_brackets_len(n: nat)
    ensures
        nested_brackets(n).len() == 2 * n,
    decreases n,
{
    if n > 0 {
        lemma_nested_brackets_len((n - 1) as nat);
    }
}

/// The node parser consumes a balanced run of brackets whole, whatever
/// follows it, and yields the nesting of empty sequences.
proof fn lemma_nested_node(n: nat, t: Seq<char>, p: PositionModel)
    requires
        n >= 1,
    ensures
        parse_node_model(nested_brackets(n) + t, p) == (OutcomeModel::Matched {
            value: nested_empty_sequence(n),
            rest: t,
            pos: PositionModel { row: p.row, col: p.col + 2 * n },
        }),
    decreases n,
{
    let s = nested_brackets(n) + t;
    lemma_nested_brackets_len(n);
    lemma_nested_brackets_len((n - 1) as nat);
    assert(s[0] == '[');
    assert(crate::scanner::scan_model(s, p) is NoMatch);
    assert(text_model(s, p) is NoMatch);
    let p1 = pos_advance(p, '[');
    assert(p1 == (PositionModel { row: p.row, col: p.col + 1 }));
    let tail = seq![']'] + t;
    let r1 = s.skip(1);
    assert(r1 =~= nested_brackets((n - 1) as nat) + tail);
    if n == 1 {
        assert(r1 =~= tail);
        assert(r1[0] == ']');
        assert(r1.skip(1) =~= t);
        assert(parse_node_model(s, p) == (OutcomeModel::Matched {
            value: NodeModel::Sequence { contents: Seq::<NodeModel>::empty() },
            rest: r1.skip(1),
            pos: pos_advance(p1, ']'),
        }));
    } else {
        assert(nested_brackets((n - 1) as nat)[0] == '[');
        assert(r1[0] == '[');
        lemma_nested_node((n - 1) as nat, tail, p1);
        let q = PositionModel { row: p.row, col: p.col + 2 * n - 1 };
        assert(parse_node_model(r1, p1) == (OutcomeModel::Matched {
            value: nested_empty_sequence((n - 1) as nat),
            rest: tail,
            pos: q,
        }));
        assert(tail.len() < r1.len());
        assert(crate::scanner::scan_model(tail, q) is NoMatch);
        assert(text_model(tail, q) is NoMatch);
        assert(tail[0] == ']');
        assert(parse_node_model(tail, q) is NoMatch);
        assert(parse_sequence_model(tail, q) == (OutcomeModel::Matched {
            value: Seq::<NodeModel>::empty(),
            rest: tail,
            pos: q,
        }));
        assert(seq![nested_empty_sequence((n - 1) as nat)] + Seq::<NodeModel>::empty()
            =~= seq![nested_empty_sequence((n - 1) as nat)]);
        assert(parse_sequence_model(r1, p1) == (OutcomeModel::Matched {
            value: seq![nested_empty_sequence((n - 1) as nat)],
            rest: tail,
            pos: q,
        }));
        assert(tail.skip(1) =~= t);
        assert(parse_node_model(s, p) == (OutcomeModel::Matched {
            value: NodeModel::Sequence {
                contents: seq![nested_empty_sequence((n - 1) as nat)],
            },
            rest: t,
            pos: pos_advance(q, ']'),
        }));
    }
}

/// For any nesting depth `n >= 1`, the input of `n` opening brackets followed
/// by `n` closing brackets parses, without fatal error, to the single
/// `n`-deep nesting of empty sequences. (Depth 0 is the empty input, which
/// parses to an empty sequence of nodes.)
pub proof fn lemma_balanced_brackets(n: nat)
    ensures
        n == 0 ==> parse_sequential_nodes_model(nested_brackets(n)) == Ok::<
            Seq<NodeModel>,
            crate::error::ErrorModel,
        >(Seq::empty()),
        n >= 1 ==> parse_sequential_nodes_model(nested_brackets(n)) == Ok::<
            Seq<NodeModel>,
            crate::error::ErrorModel,
        >(seq![nested_empty_sequence(n)]),
{
    let p = start_position();
    if n == 0 {
        assert(text_model(Seq::<char>::empty(), p) is NoMatch);
        assert(parse_node_model(Seq::<char>::empty(), p) is NoMatch);
        assert(parse_sequence_model(Seq::<char>::empty(), p) == (OutcomeModel::Matched {
            value: Seq::<NodeModel>::empty(),
            rest: Seq::<char>::empty(),
            pos: p,
        }));
    } else {
        lemma_nested_node(n, Seq::empty(), p);
        lemma_nested_brackets_len(n);
        let s = nested_brackets(n);
        assert(s + Seq::<char>::empty() =~= s);
        let q = PositionModel { row: p.row, col: p.col + 2 * n };
        assert(parse_node_model(s, p) == (OutcomeModel::Matched {
            value: nested_empty_sequence(n),
            rest: Seq::<char>::empty(),
            pos: q,
        }));
        assert(text_model(Seq::<char>::empty(), q) is NoMatch);
        assert(parse_node_model(Seq::<char>::empty(), q) is NoMatch);
        assert(parse_sequence_model(Seq::<char>::empty(), q) == (OutcomeModel::Matched {
            value: Seq::<NodeModel>::empty(),
            rest: Seq::<char>::empty(),
            pos: q,
        }));
        assert(parse_sequence_model(s, p) == (OutcomeModel::Matched {
            value: seq![nested_empty_sequence(n)] + Seq::<NodeModel>::empty(),
            rest: Seq::<char>::empty(),
            pos: q,
        }));
        assert(seq![nested_empty_sequence(n)] + Seq::<NodeModel>::empty()
            =~= seq![nested_empty_sequence(n)]);
    }
}

/// For each control codepoint `c`, the escape pair `\c` inside a bracketed
/// context parses to a text run whose content is exactly `c` itself: escaping
/// and parsing round-trip.
pub proof fn lemma_escape_round_trip(c: char)
    requires
        is_control(c),
    ensures
        parse_sequential_nodes_model(seq!['[', '\\', c, ']']) == Ok::<
            Seq<NodeModel>,
            crate::error::ErrorModel,
        >(
            seq![
                NodeModel::Sequence {
                    contents: seq![
                        NodeModel::Text { content: seq![c], ended_explicitly: false },
                    ],
                },
            ],
        ),
{
    let p = start_position();
    let s = seq!['[', '\\', c, ']'];
    assert(s[0] == '[');
    assert(crate::scanner::scan_model(s, p) is NoMatch);
    assert(text_model(s, p) is NoMatch);
    let p1 = pos_advance(p, '[');
    let r1 = s.skip(1);
    assert(r1 =~= seq!['\\', c, ']']);
    assert(r1[0] == '\\');
    let q2 = pos_advance(pos_advance(p1, '\\'), c);
    let rest2 = r1.skip(2);
    assert(rest2 =~= seq![']']);
    assert(r1[1] == c);
    assert(crate::scanner::scan_model(r1, p1) == (OutcomeModel::Matched {
        value: crate::scanner::Character::Other(c),
        rest: rest2,
        pos: q2,
    }));
    assert(crate::scanner::scan_model(rest2, q2) is NoMatch);
    assert(text_model(rest2, q2) is NoMatch);
    let tm = TextModel { content: seq![c], ended_explicitly: false };
    assert(text_model(r1, p1) == (OutcomeModel::Matched { value: tm, rest: rest2, pos: q2 }));
    let ndm = NodeModel::Text { content: seq![c], ended_explicitly: false };
    assert(parse_node_model(r1, p1) == (OutcomeModel::Matched {
        value: ndm,
        rest: rest2,
        pos: q2,
    }));
    assert(rest2[0] == ']');
    assert(parse_node_model(rest2, q2) is NoMatch);
    assert(parse_sequence_model(rest2, q2) == (OutcomeModel::Matched {
        value: Seq::<NodeModel>::empty(),
        rest: rest2,
        pos: q2,
    }));
    assert(seq![ndm] + Seq::<NodeModel>::empty() =~= seq![ndm]);
    assert(parse_sequence_model(r1, p1) == (OutcomeModel::Matched {
        value: seq![ndm],
        rest: rest2,
        pos: q2,
    }));
    assert(rest2.skip(1) =~= Seq::<char>::empty());
    let q3 = pos_advance(q2, ']');
    let sq = NodeModel::Sequence { contents: seq![ndm] };
    assert(parse_node_model(s, p) == (OutcomeModel::Matched {
        value: sq,
        rest: Seq::<char>::empty(),
        pos: q3,
    }));
    assert(text_model(Seq::<char>::empty(), q3) is NoMatch);
    assert(parse_node_model(Seq::<char>::empty(), q3) is NoMatch);
    assert(parse_sequence_model(Seq::<char>::empty(), q3) == (OutcomeModel::Matched {
        value: Seq::<NodeModel>::empty(),
        rest: Seq::<char>::empty(),
        pos: q3,
    }));
    assert(parse_sequence_model(s, p) == (OutcomeModel::Matched {
        value: seq![sq] + Seq::<NodeModel>::empty(),
        rest: Seq::<char>::empty(),
        pos: q3,
    }));
    assert(seq![sq] + Seq::<NodeModel>::empty() =~= seq![sq]);
}

} // verus!
