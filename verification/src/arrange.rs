//! Replay of templates: the state they leave and the nodes they yield.

use vstd::prelude::*;
use crate::geom::{Align, Direction, Gen, GenAxis, Linear, TrackSizing};
use crate::node::{
    child_model, child_models, child_models_prefix, node_model, node_models, node_models_prefix,
    placed_models, tracks_model, ChildModel, FixedNode, GridNode, Node, NodeModel, PadNode, Placed,
    PlacedModel, StackChild, StackNode,
};
use crate::state::State;
use crate::template::{Deferred, Op, StackItem, Template};

verus! {

/// The directions of a stack: the requested pair, else the ambient one; where
/// both run along one axis, the inline direction becomes the ambient block
/// direction.
pub open spec fn stack_dirs_spec(dir: Option<Gen<Direction>>, ambient: Gen<Direction>) -> Gen<
    Direction,
> {
    let chosen = if let Some(d) = dir {
        d
    } else {
        ambient
    };
    if chosen.block.axis_of() == chosen.inline.axis_of() {
        Gen { block: chosen.block, inline: ambient.block }
    } else {
        chosen
    }
}

/// The alignments handed to the children of a stack: the ambient pair,
/// swapped where the stack's block axis is the ambient inline axis.
pub open spec fn stack_aligns_spec(dirs: Gen<Direction>, state: State) -> Gen<Align> {
    if dirs.block.axis_of() == state.dirs.inline.axis_of() {
        Gen { block: state.aligns.inline, inline: state.aligns.block }
    } else {
        state.aligns
    }
}

/// The ambient direction that does not run along the ambient inline axis if
/// `target` does, else the ambient inline direction.
pub open spec fn turned(target: Direction, ambient: Gen<Direction>) -> Direction {
    if target.axis_of() == ambient.inline.axis_of() {
        ambient.block
    } else {
        ambient.inline
    }
}

/// The directions of a grid: columns run along the inline direction, rows
/// along the block direction, each taken from the ambient pair where it is
/// not given. Where both run along one axis, the block direction yields if
/// the column direction was given, else the inline direction.
pub open spec fn grid_dirs_spec(
    column_dir: Option<Direction>,
    row_dir: Option<Direction>,
    ambient: Gen<Direction>,
) -> Gen<Direction> {
    let given = (Gen { block: row_dir, inline: column_dir }).or_spec(ambient);
    if given.block.axis_of() != given.inline.axis_of() {
        given
    } else if column_dir is Some {
        Gen { block: turned(given.block, ambient), inline: given.inline }
    } else {
        Gen { block: given.block, inline: turned(given.inline, ambient) }
    }
}

/// Resolves the directions of a stack against the ambient ones.
pub fn stack_dirs(dir: Option<Gen<Direction>>, ambient: Gen<Direction>) -> (dirs: Gen<Direction>)
    ensures
        dirs == stack_dirs_spec(dir, ambient),
        dir is Some && dir->0.block.axis_of() == dir->0.inline.axis_of() ==> dirs.inline
            == ambient.block && dirs.block == dir->0.block,
{
    let mut dirs = match dir {
        Some(d) => d,
        None => ambient,
    };
    if dirs.block.axis() == dirs.inline.axis() {
        dirs.inline = ambient.block;
    }
    dirs
}

/// Picks the alignments for the children of a stack with the given directions.
pub fn stack_aligns(dirs: Gen<Direction>, state: State) -> (aligns: Gen<Align>)
    ensures
        aligns == stack_aligns_spec(dirs, state),
{
    if dirs.block.axis() == state.dirs.inline.axis() {
        Gen { block: state.aligns.inline, inline: state.aligns.block }
    } else {
        state.aligns
    }
}

fn turn(target: Direction, ambient: Gen<Direction>) -> (dir: Direction)
    ensures
        dir == turned(target, ambient),
{
    if target.axis() == ambient.inline.axis() {
        ambient.block
    } else {
        ambient.inline
    }
}

/// Resolves the directions of a grid against the ambient ones.
pub fn grid_dirs(
    column_dir: Option<Direction>,
    row_dir: Option<Direction>,
    ambient: Gen<Direction>,
) -> (dirs: Gen<Direction>)
    ensures
        dirs == grid_dirs_spec(column_dir, row_dir, ambient),
        column_dir is Some ==> dirs.inline == column_dir->0,
        column_dir is None && row_dir is Some ==> dirs.block == row_dir->0,
{
    let mut dirs = Gen::new(column_dir, row_dir).unwrap_or(ambient);
    if dirs.block.axis() == dirs.inline.axis() {
        if column_dir.is_some() {
            dirs.block = turn(dirs.block, ambient);
        } else {
            dirs.inline = turn(dirs.inline, ambient);
        }
    }
    dirs
}

/// The live state of a replay and the states saved so far, oldest first.
pub struct Frame {
    pub state: State,
    pub saved: Seq<State>,
}

/// A frame with nothing saved.
pub open spec fn fresh(state: State) -> Frame {
    Frame { state, saved: Seq::empty() }
}

/// The frame after one operation. A restore with nothing saved changes
/// nothing; operations that insert content or breaks leave the frame alone.
pub open spec fn step(op: Op, frame: Frame) -> Frame {
    match op {
        Op::Modify(change) => Frame { state: change.applied(frame.state), saved: frame.saved },
        Op::Save => Frame { state: frame.state, saved: frame.saved.push(frame.state) },
        Op::Restore => if frame.saved.len() > 0 {
            Frame { state: frame.saved.last(), saved: frame.saved.drop_last() }
        } else {
            frame
        },
        _ => frame,
    }
}

/// The frame after the first `n` operations, in their order.
pub open spec fn run(ops: Seq<Op>, n: nat, start: Frame) -> Frame
    decreases n,
{
    if n == 0 || n > ops.len() {
        start
    } else {
        step(ops[n - 1], run(ops, (n - 1) as nat, start))
    }
}

/// The state a template leaves when replayed from `init`.
pub open spec fn final_state(ops: Seq<Op>, init: State) -> State {
    run(ops, ops.len(), fresh(init)).state
}

/// The gap that is pending after the first `n` items of a stack's list: the
/// default gap right after content, none at the start or after a gap.
pub open spec fn pending_gap(list: Seq<StackItem>, n: nat, spacing: Option<Linear>) -> Option<
    Linear,
> {
    if n == 0 || n > list.len() {
        None
    } else {
        match list[n - 1] {
            StackItem::Spacing(_) => None,
            StackItem::Any(_) => spacing,
        }
    }
}

/// The node a template is arranged into: a stack along the ambient
/// directions of the children that its operations yield.
pub open spec fn stacked(template: Template, state: State) -> NodeModel
    decreases template, 0nat,
{
    NodeModel::Stack {
        dirs: state.dirs,
        children: yielded(template.ops@, template.ops@.len(), state),
    }
}

/// The stack children that the first `n` operations yield when replayed from
/// `init`: block spacing gives a gap, a node description gives its node with
/// the alignment current at that point, everything else gives no child.
pub open spec fn yielded(ops: Seq<Op>, n: nat, init: State) -> Seq<ChildModel>
    decreases ops, n,
{
    if n == 0 || n > ops.len() {
        Seq::empty()
    } else {
        yielded(ops, (n - 1) as nat, init) + emitted(
            ops[n - 1],
            run(ops, (n - 1) as nat, fresh(init)).state,
        )
    }
}

/// The stack children that one operation yields in a state.
pub open spec fn emitted(op: Op, state: State) -> Seq<ChildModel>
    decreases op, 0nat,
{
    match op {
        Op::InsertSpacing(GenAxis::Block, amount) => seq![ChildModel::Spacing(amount)],
        Op::InsertNode(_, node) => seq![ChildModel::Any(built(node, state), state.aligns)],
        _ => Seq::empty(),
    }
}

/// The node that a description yields in a state.
pub open spec fn built(node: Deferred, state: State) -> NodeModel
    decreases node, 0nat,
{
    match node {
        Deferred::Fixed { width, height, body } => NodeModel::Fixed {
            width,
            height,
            aspect: None,
            child: Box::new(stacked(body, state)),
        },
        Deferred::Block { body } => stacked(body, state),
        Deferred::Pad { padding, body } => NodeModel::Pad {
            padding,
            child: Box::new(stacked(body, state)),
        },
        Deferred::Stack { dir, spacing, list } => {
            let dirs = stack_dirs_spec(dir, state.dirs);
            NodeModel::Stack {
                dirs,
                children: stack_children(
                    list@,
                    list@.len(),
                    state,
                    stack_aligns_spec(dirs, state),
                    spacing,
                ),
            }
        },
        Deferred::Grid { column_dir, row_dir, tracks, gutter, children } => NodeModel::Grid {
            dirs: grid_dirs_spec(column_dir, row_dir, state.dirs),
            tracks: tracks_model(tracks),
            gutter: tracks_model(gutter),
            children: grid_children(children@, children@.len(), state),
        },
    }
}

/// The children of a stack for the first `n` items of its list: a gap item
/// gives that gap; content gives the pending default gap, if any, and then
/// the arranged content with the stack's alignments.
pub open spec fn stack_children(
    list: Seq<StackItem>,
    n: nat,
    state: State,
    aligns: Gen<Align>,
    spacing: Option<Linear>,
) -> Seq<ChildModel>
    decreases list, n,
{
    if n == 0 || n > list.len() {
        Seq::empty()
    } else {
        let before = stack_children(list, (n - 1) as nat, state, aligns, spacing);
        match list[n - 1] {
            StackItem::Spacing(amount) => before.push(ChildModel::Spacing(amount)),
            StackItem::Any(template) => {
                let gapped = if let Some(gap) = pending_gap(list, (n - 1) as nat, spacing) {
                    before.push(ChildModel::Spacing(gap))
                } else {
                    before
                };
                gapped.push(ChildModel::Any(stacked(template, state), aligns))
            },
        }
    }
}

/// The children of a grid for the first `n` templates: each arranged against
/// the unchanged state.
pub open spec fn grid_children(children: Seq<Template>, n: nat, state: State) -> Seq<NodeModel>
    decreases children, n,
{
    if n == 0 || n > children.len() {
        Seq::empty()
    } else {
        grid_children(children, (n - 1) as nat, state).push(stacked(children[n - 1], state))
    }
}

/// What one operation asks the composer to place in a state: spacing,
/// nodes and breaks are handed on as they are; changes, saves and restores
/// place nothing.
pub open spec fn placed_by(op: Op, state: State) -> Seq<PlacedModel> {
    match op {
        Op::InsertSpacing(axis, amount) => seq![PlacedModel::Spacing(axis, amount)],
        Op::InsertNode(level, node) => seq![
            PlacedModel::Node(level, built(node, state), state.aligns),
        ],
        Op::ParBreak => seq![PlacedModel::ParBreak],
        Op::PageBreak(strong) => seq![PlacedModel::PageBreak(strong)],
        _ => Seq::empty(),
    }
}

/// What the first `n` operations ask the composer to place when replayed
/// from `init`, in their order; each node is built in the state that the
/// operations before it leave.
pub open spec fn placed(ops: Seq<Op>, n: nat, init: State) -> Seq<PlacedModel>
    decreases n,
{
    if n == 0 || n > ops.len() {
        Seq::empty()
    } else {
        placed(ops, (n - 1) as nat, init) + placed_by(
            ops[n - 1],
            run(ops, (n - 1) as nat, fresh(init)).state,
        )
    }
}

/// The outcome of a replay: the state it leaves and what is to be placed.
#[derive(Debug, PartialEq, Eq)]
pub struct Replayed {
    pub state: State,
    pub items: Vec<Placed>,
}

proof fn child_models_push(children: Seq<StackChild>, child: StackChild)
    ensures
        child_models(children.push(child), children.len() + 1) == child_models(
            children,
            children.len(),
        ).push(child_model(child)),
{
    child_models_prefix(children.push(child), children, children.len());
}

proof fn node_models_push(nodes: Seq<Node>, node: Node)
    ensures
        node_models(nodes.push(node), nodes.len() + 1) == node_models(nodes, nodes.len()).push(
            node_model(node),
        ),
{
    node_models_prefix(nodes.push(node), nodes, nodes.len());
}

/// Copies a track list.
pub fn copy_tracks(tracks: &Vec<TrackSizing>) -> (copy: Vec<TrackSizing>)
    ensures
        copy@ == tracks@,
{
    let mut copy: Vec<TrackSizing> = Vec::new();
    let n = tracks.len();
    let mut i: usize = 0;
    while i < n
        invariant
            i <= n,
            n == tracks@.len(),
            copy@ == tracks@.take(i as int),
        decreases n - i,
    {
        copy.push(tracks[i]);
        i += 1;
        assert(copy@ =~= tracks@.take(i as int));
    }
    assert(tracks@.take(n as int) =~= tracks@);
    copy
}

impl Template {
    /// Replays the state changes of the template from `init` and returns the
    /// state they leave.
    pub fn replay_state(&self, init: State) -> (state: State)
        ensures
            state == final_state(self@, init),
    {
        let mut cur = init;
        let mut saved: Vec<State> = Vec::new();
        let n = self.ops.len();
        let mut i: usize = 0;
        while i < n
            invariant
                i <= n,
                n == self.ops@.len(),
                run(self.ops@, i as nat, fresh(init)) == (Frame { state: cur, saved: saved@ }),
            decreases n - i,
        {
            match &self.ops[i] {
                Op::Modify(change) => {
                    cur = change.apply(cur);
                },
                Op::Save => {
                    saved.push(cur);
                },
                Op::Restore => {
                    if let Some(state) = saved.pop() {
                        cur = state;
                    }
                },
                _ => {},
            }
            i += 1;
        }
        cur
    }

    /// Replays the template from `init`: applies its changes in order,
    /// with saves and restores, and collects what is to be placed.
    pub fn replay(&self, init: State) -> (done: Replayed)
        ensures
            done.state == final_state(self@, init),
            placed_models(done.items@) == placed(self@, self@.len(), init),
    {
        let mut items: Vec<Placed> = Vec::new();
        let mut cur = init;
        let mut saved: Vec<State> = Vec::new();
        let n = self.ops.len();
        let mut i: usize = 0;
        while i < n
            invariant
                i <= n,
                n == self.ops@.len(),
                run(self.ops@, i as nat, fresh(init)) == (Frame { state: cur, saved: saved@ }),
                placed_models(items@) == placed(self.ops@, i as nat, init),
            decreases n - i,
        {
            let ghost sofar = placed(self.ops@, i as nat, init);
            let ghost before = items@;
            let ghost met = cur;
            assert(placed(self.ops@, (i + 1) as nat, init) == sofar + placed_by(
                self.ops@[i as int],
                met,
            ));
            match &self.ops[i] {
                Op::Modify(change) => {
                    cur = change.apply(cur);
                },
                Op::Save => {
                    saved.push(cur);
                },
                Op::Restore => {
                    if let Some(state) = saved.pop() {
                        cur = state;
                    }
                },
                Op::InsertSpacing(axis, amount) => {
                    items.push(Placed::Spacing(*axis, *amount));
                },
                Op::InsertNode(level, description) => {
                    let node = description.build(cur);
                    items.push(Placed::Node(*level, node, cur.aligns));
                },
                Op::ParBreak => {
                    items.push(Placed::ParBreak);
                },
                Op::PageBreak(strong) => {
                    items.push(Placed::PageBreak(*strong));
                },
            }
            assert(placed_models(items@) =~= placed_models(before) + placed_by(
                self.ops@[i as int],
                met,
            ));
            i += 1;
        }
        Replayed { state: cur, items }
    }

    /// Arranges the template into a stack against `state`.
    ///
    /// The stack runs along the directions of `state`. Its children are the
    /// block spacing and the nodes of the template, each node built in the
    /// state current at its place and carrying the alignment of that state.
    /// Inline spacing and breaks steer the composition of lines and pages
    /// and yield no child of the stack.
    pub fn to_stack(&self, state: State) -> (node: StackNode)
        ensures
            node@ == stacked(*self, state),
        decreases self, 0nat,
    {
        let mut children: Vec<StackChild> = Vec::new();
        let mut cur = state;
        let mut saved: Vec<State> = Vec::new();
        let n = self.ops.len();
        let mut i: usize = 0;
        while i < n
            invariant
                i <= n,
                n == self.ops@.len(),
                run(self.ops@, i as nat, fresh(state)) == (Frame { state: cur, saved: saved@ }),
                child_models(children@, children@.len()) == yielded(self.ops@, i as nat, state),
            decreases n - i,
        {
            let ghost before = children@;
            let ghost sofar = yielded(self.ops@, i as nat, state);
            let ghost met = cur;
            proof {
                assert(yielded(self.ops@, (i + 1) as nat, state) == sofar + emitted(
                    self.ops@[i as int],
                    met,
                ));
                assert(sofar + Seq::<ChildModel>::empty() =~= sofar);
            }
            match &self.ops[i] {
                Op::Modify(change) => {
                    cur = change.apply(cur);
                },
                Op::Save => {
                    saved.push(cur);
                },
                Op::Restore => {
                    if let Some(state) = saved.pop() {
                        cur = state;
                    }
                },
                Op::InsertSpacing(GenAxis::Block, amount) => {
                    let child = StackChild::Spacing(*amount);
                    proof {
                        child_models_push(before, child);
                        assert(sofar + seq![child_model(child)] =~= sofar.push(child_model(child)));
                    }
                    children.push(child);
                },
                Op::InsertNode(_, description) => {
                    let node = description.build(cur);
                    let child = StackChild::Any(node, cur.aligns);
                    proof {
                        child_models_push(before, child);
                        assert(sofar + seq![child_model(child)] =~= sofar.push(child_model(child)));
                    }
                    children.push(child);
                },
                _ => {},
            }
            i += 1;
        }
        StackNode { dirs: state.dirs, children }
    }
}

impl Deferred {
    /// Produces the node that the description yields in `state`.
    #[verifier::loop_isolation(false)]
    pub fn build(&self, state: State) -> (node: Node)
        ensures
            node@ == built(*self, state),
        decreases self, 0nat,
    {
        match self {
            Deferred::Fixed { width, height, body } => Node::Fixed(
                FixedNode {
                    width: *width,
                    height: *height,
                    aspect: None,
                    child: Box::new(Node::Stack(body.to_stack(state))),
                },
            ),
            Deferred::Block { body } => Node::Stack(body.to_stack(state)),
            Deferred::Pad { padding, body } => Node::Pad(
                PadNode { padding: *padding, child: Box::new(Node::Stack(body.to_stack(state))) },
            ),
            Deferred::Stack { dir, spacing, list } => {
                let dirs = stack_dirs(*dir, state.dirs);
                let aligns = stack_aligns(dirs, state);
                let mut children: Vec<StackChild> = Vec::new();
                let mut delayed: Option<Linear> = None;
                let n = list.len();
                let mut i: usize = 0;
                while i < n
                    invariant
                        i <= n,
                        n == list@.len(),
                        delayed == pending_gap(list@, i as nat, *spacing),
                        child_models(children@, children@.len()) == stack_children(
                            list@,
                            i as nat,
                            state,
                            aligns,
                            *spacing,
                        ),
                    decreases n - i,
                {
                    match &list[i] {
                        StackItem::Spacing(amount) => {
                            let child = StackChild::Spacing(*amount);
                            proof {
                                child_models_push(children@, child);
                            }
                            children.push(child);
                            delayed = None;
                        },
                        StackItem::Any(template) => {
                            if let Some(gap) = delayed {
                                let child = StackChild::Spacing(gap);
                                proof {
                                    child_models_push(children@, child);
                                }
                                children.push(child);
                            }
                            let node = Node::Stack(template.to_stack(state));
                            let child = StackChild::Any(node, aligns);
                            proof {
                                child_models_push(children@, child);
                            }
                            children.push(child);
                            delayed = *spacing;
                        },
                    }
                    i += 1;
                }
                Node::Stack(StackNode { dirs, children })
            },
            Deferred::Grid { column_dir, row_dir, tracks, gutter, children } => {
                let dirs = grid_dirs(*column_dir, *row_dir, state.dirs);
                let mut nodes: Vec<Node> = Vec::new();
                let n = children.len();
                let mut i: usize = 0;
                while i < n
                    invariant
                        i <= n,
                        n == children@.len(),
                        node_models(nodes@, nodes@.len()) == grid_children(
                            children@,
                            i as nat,
                            state,
                        ),
                    decreases n - i,
                {
                    let node = Node::Stack(children[i].to_stack(state));
                    proof {
                        node_models_push(nodes@, node);
                    }
                    nodes.push(node);
                    i += 1;
                }
                Node::Grid(
                    GridNode {
                        dirs,
                        tracks: Gen {
                            block: copy_tracks(&tracks.block),
                            inline: copy_tracks(&tracks.inline),
                        },
                        gutter: Gen {
                            block: copy_tracks(&gutter.block),
                            inline: copy_tracks(&gutter.inline),
                        },
                        children: nodes,
                    },
                )
            },
        }
    }
}

} // verus!
