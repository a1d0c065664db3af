//! Node descriptions handed to the measurement engine, and their
//! mathematical models.

use vstd::prelude::*;
use crate::geom::{Align, Direction, Gen, GenAxis, Linear, Sides, TrackSizing};
use crate::template::Level;

verus! {

/// A node of fixed width and height around one child.
#[derive(Debug, PartialEq, Eq)]
pub struct FixedNode {
    pub width: Option<Linear>,
    pub height: Option<Linear>,
    /// Width divided by height, in thousandths, where it is constrained.
    pub aspect: Option<i64>,
    pub child: Box<Node>,
}

/// A node that pads its child at the sides.
#[derive(Debug, PartialEq, Eq)]
pub struct PadNode {
    pub padding: Sides<Linear>,
    pub child: Box<Node>,
}

/// A child of a stack.
#[derive(Debug, PartialEq, Eq)]
pub enum StackChild {
    /// Spacing between other children.
    Spacing(Linear),
    /// A node with the alignment it is placed by.
    Any(Node, Gen<Align>),
}

/// A node that stacks its children along the block direction.
#[derive(Debug, PartialEq, Eq)]
pub struct StackNode {
    pub dirs: Gen<Direction>,
    pub children: Vec<StackChild>,
}

/// A node that arranges its children in a grid.
#[derive(Debug, PartialEq, Eq)]
pub struct GridNode {
    pub dirs: Gen<Direction>,
    pub tracks: Gen<Vec<TrackSizing>>,
    pub gutter: Gen<Vec<TrackSizing>>,
    pub children: Vec<Node>,
}

/// Any node the arrangement produces.
#[derive(Debug, PartialEq, Eq)]
pub enum Node {
    Fixed(FixedNode),
    Pad(PadNode),
    Stack(StackNode),
    Grid(GridNode),
}

/// The mathematical value of a node: the same tree over sequences.
pub enum NodeModel {
    Fixed { width: Option<Linear>, height: Option<Linear>, aspect: Option<i64>, child: Box<NodeModel> },
    Pad { padding: Sides<Linear>, child: Box<NodeModel> },
    Stack { dirs: Gen<Direction>, children: Seq<ChildModel> },
    Grid {
        dirs: Gen<Direction>,
        tracks: Gen<Seq<TrackSizing>>,
        gutter: Gen<Seq<TrackSizing>>,
        children: Seq<NodeModel>,
    },
}

/// The mathematical value of a stack child.
pub enum ChildModel {
    Spacing(Linear),
    Any(NodeModel, Gen<Align>),
}

/// One thing that a replayed template asks the composer to place.
#[derive(Debug, PartialEq, Eq)]
pub enum Placed {
    /// Spacing along an axis.
    Spacing(GenAxis, Linear),
    /// A node, inline-level or block-level, with the alignment it is placed by.
    Node(Level, Node, Gen<Align>),
    /// The end of a paragraph.
    ParBreak,
    /// The end of a page; a strong break holds even on an empty page.
    PageBreak(bool),
}

/// The mathematical value of a placed item.
pub enum PlacedModel {
    Spacing(GenAxis, Linear),
    Node(Level, NodeModel, Gen<Align>),
    ParBreak,
    PageBreak(bool),
}

impl View for Placed {
    type V = PlacedModel;

    open spec fn view(&self) -> PlacedModel {
        match *self {
            Placed::Spacing(axis, amount) => PlacedModel::Spacing(axis, amount),
            Placed::Node(level, node, aligns) => PlacedModel::Node(level, node_model(node), aligns),
            Placed::ParBreak => PlacedModel::ParBreak,
            Placed::PageBreak(strong) => PlacedModel::PageBreak(strong),
        }
    }
}

/// The models of a sequence of placed items.
pub open spec fn placed_models(items: Seq<Placed>) -> Seq<PlacedModel> {
    items.map_values(|item: Placed| item@)
}

/// The views of a pair of track lists.
pub open spec fn tracks_model(tracks: Gen<Vec<TrackSizing>>) -> Gen<Seq<TrackSizing>> {
    Gen { block: tracks.block@, inline: tracks.inline@ }
}

/// The model of a node.
pub open spec fn node_model(node: Node) -> NodeModel
    decreases node, 0nat,
{
    match node {
        Node::Fixed(f) => NodeModel::Fixed {
            width: f.width,
            height: f.height,
            aspect: f.aspect,
            child: Box::new(node_model(*f.child)),
        },
        Node::Pad(p) => NodeModel::Pad { padding: p.padding, child: Box::new(node_model(*p.child)) },
        Node::Stack(s) => NodeModel::Stack {
            dirs: s.dirs,
            children: child_models(s.children@, s.children@.len()),
        },
        Node::Grid(g) => NodeModel::Grid {
            dirs: g.dirs,
            tracks: tracks_model(g.tracks),
            gutter: tracks_model(g.gutter),
            children: node_models(g.children@, g.children@.len()),
        },
    }
}

/// The model of a stack child.
pub open spec fn child_model(child: StackChild) -> ChildModel
    decreases child, 0nat,
{
    match child {
        StackChild::Spacing(amount) => ChildModel::Spacing(amount),
        StackChild::Any(node, aligns) => ChildModel::Any(node_model(node), aligns),
    }
}

/// The models of the first `n` nodes of a sequence.
pub open spec fn node_models(nodes: Seq<Node>, n: nat) -> Seq<NodeModel>
    decreases nodes, n,
{
    if n == 0 || n > nodes.len() {
        Seq::empty()
    } else {
        node_models(nodes, (n - 1) as nat).push(node_model(nodes[n - 1]))
    }
}

/// The models of the first `n` stack children of a sequence.
pub open spec fn child_models(children: Seq<StackChild>, n: nat) -> Seq<ChildModel>
    decreases children, n,
{
    if n == 0 || n > children.len() {
        Seq::empty()
    } else {
        child_models(children, (n - 1) as nat).push(child_model(children[n - 1]))
    }
}

impl View for Node {
    type V = NodeModel;

    open spec fn view(&self) -> NodeModel {
        node_model(*self)
    }
}

impl View for StackNode {
    type V = NodeModel;

    open spec fn view(&self) -> NodeModel {
        node_model(Node::Stack(*self))
    }
}

/// The models of the first `n` items depend on those items alone.
pub proof fn node_models_prefix(a: Seq<Node>, b: Seq<Node>, n: nat)
    requires
        n <= a.len(),
        n <= b.len(),
        forall|i: int| 0 <= i < n ==> a[i] == b[i],
    ensures
        node_models(a, n) == node_models(b, n),
        node_models(a, n).len() == n,
    decreases n,
{
    if n > 0 {
        node_models_prefix(a, b, (n - 1) as nat);
    }
}

/// The models of the first `n` children depend on those children alone.
pub proof fn child_models_prefix(a: Seq<StackChild>, b: Seq<StackChild>, n: nat)
    requires
        n <= a.len(),
        n <= b.len(),
        forall|i: int| 0 <= i < n ==> a[i] == b[i],
    ensures
        child_models(a, n) == child_models(b, n),
        child_models(a, n).len() == n,
    decreases n,
{
    if n > 0 {
        child_models_prefix(a, b, (n - 1) as nat);
    }
}

} // verus!
