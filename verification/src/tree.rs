//! The tree a parse produces: text runs and nested sequences.

use vstd::prelude::*;

verus! {

/// A maximal run of ordinary (or escaped) codepoints.
#[derive(Debug, PartialEq, Eq)]
pub struct Text {
    pub content: String,
    /// Ended with a vertical bar (`|`).
    pub ended_explicitly: bool,
}

/// An ordered list of nodes, produced by a balanced `[...]` pair (or by the
/// whole input at top level). May be empty.
#[derive(Debug, PartialEq, Eq)]
pub struct Sequence {
    pub contents: Vec<Node>,
}

/// One node of the parsed tree.
#[derive(Debug, PartialEq, Eq)]
pub enum Node {
    Sequence(Sequence),
    Text(Text),
}

/// The mathematical model of a [`Node`]: the same tree over `Seq`.
pub enum NodeModel {
    Sequence { contents: Seq<NodeModel> },
    Text { content: Seq<char>, ended_explicitly: bool },
}

/// The mathematical model of a [`Text`] run.
pub struct TextModel {
    pub content: Seq<char>,
    pub ended_explicitly: bool,
}

impl TextModel {
    /// The corresponding tree node.
    pub open spec fn as_node(self) -> NodeModel {
        NodeModel::Text { content: self.content, ended_explicitly: self.ended_explicitly }
    }
}

/// The model of a [`Node`], taken recursively through its children.
pub open spec fn node_model(n: Node) -> NodeModel
    decreases n,
    via node_model_decreases
{
    match n {
        Node::Text(t) => NodeModel::Text {
            content: t.content@,
            ended_explicitly: t.ended_explicitly,
        },
        Node::Sequence(s) => NodeModel::Sequence { contents: nodes_model(s.contents@) },
    }
}

/// The models of a list of nodes, in order.
pub open spec fn nodes_model(s: Seq<Node>) -> Seq<NodeModel>
    decreases s,
    via nodes_model_decreases
{
    if s.len() == 0 {
        Seq::empty()
    } else {
        seq![node_model(s[0])] + nodes_model(s.drop_first())
    }
}

/// Appending a node to a list appends its model.
pub proof fn lemma_nodes_model_push(s: Seq<Node>, n: Node)
    ensures
        nodes_model(s.push(n)) == nodes_model(s) + seq![node_model(n)],
    decreases s.len(),
{
    if s.len() == 0 {
        assert(s.push(n).drop_first() =~= Seq::<Node>::empty());
        assert(s.push(n)[0] == n);
        assert(nodes_model(Seq::<Node>::empty()) == Seq::<NodeModel>::empty());
        assert(nodes_model(s.push(n)) == seq![node_model(n)] + Seq::<NodeModel>::empty());
        assert(nodes_model(s) + seq![node_model(n)] =~= seq![node_model(n)]);
        assert(seq![node_model(n)] + Seq::<NodeModel>::empty() =~= seq![node_model(n)]);
    } else {
        lemma_nodes_model_push(s.drop_first(), n);
        assert(s.push(n).drop_first() =~= s.drop_first().push(n));
        assert(s.push(n)[0] == s[0]);
        assert(nodes_model(s.push(n)) == seq![node_model(s[0])] + nodes_model(
            s.drop_first().push(n),
        ));
        assert(nodes_model(s) == seq![node_model(s[0])] + nodes_model(s.drop_first()));
        assert(seq![node_model(s[0])] + (nodes_model(s.drop_first()) + seq![node_model(n)]) =~= (
        seq![node_model(s[0])] + nodes_model(s.drop_first())) + seq![node_model(n)]);
    }
}

#[via_fn]
proof fn node_model_decreases(n: Node) {
    broadcast use vstd::std_specs::vec::axiom_vec_decreases_to_view;

}

#[via_fn]
proof fn nodes_model_decreases(s: Seq<Node>) {
    broadcast use vstd::seq::axiom_seq_index_decreases, vstd::seq::axiom_seq_subrange_decreases;

}

impl View for Node {
    type V = NodeModel;

    open spec fn view(&self) -> NodeModel {
        node_model(*self)
    }
}

impl View for Sequence {
    type V = Seq<NodeModel>;

    open spec fn view(&self) -> Seq<NodeModel> {
        nodes_model(self.contents@)
    }
}

impl View for Text {
    type V = TextModel;

    open spec fn view(&self) -> TextModel {
        TextModel { content: self.content@, ended_explicitly: self.ended_explicitly }
    }
}

} // verus!
