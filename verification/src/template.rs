//! Templates: ordered logs of deferred operations.

use vstd::prelude::*;
use crate::geom::{Direction, Gen, GenAxis, Linear, Sides, TrackSizing};
use crate::state::Change;

verus! {

/// Whether a node takes part in a line of text or stands as a block.
#[derive(Clone, Copy, Debug, PartialEq, Eq, Structural)]
pub enum Level {
    Inline,
    Block,
}

/// One positional item of a stack: a gap or content.
#[derive(Debug, PartialEq, Eq)]
pub enum StackItem {
    Spacing(Linear),
    Any(Template),
}

/// A node that is still to be produced from the state at replay time.
#[derive(Debug, PartialEq, Eq)]
pub enum Deferred {
    /// Content in a box of optional width and height.
    Fixed { width: Option<Linear>, height: Option<Linear>, body: Template },
    /// Content as a block of its own.
    Block { body: Template },
    /// Content padded at the sides.
    Pad { padding: Sides<Linear>, body: Template },
    /// Gaps and content stacked along a direction.
    Stack { dir: Option<Gen<Direction>>, spacing: Option<Linear>, list: Vec<StackItem> },
    /// Content arranged in tracks.
    Grid {
        column_dir: Option<Direction>,
        row_dir: Option<Direction>,
        tracks: Gen<Vec<TrackSizing>>,
        gutter: Gen<Vec<TrackSizing>>,
        children: Vec<Template>,
    },
}

/// One deferred operation of a template.
#[derive(Debug, PartialEq, Eq)]
pub enum Op {
    /// Change the state seen by all later operations.
    Modify(Change),
    /// Insert spacing along an axis.
    InsertSpacing(GenAxis, Linear),
    /// Insert the node that the description yields for the current state.
    InsertNode(Level, Deferred),
    /// Remember the current state.
    Save,
    /// Go back to the state remembered last.
    Restore,
    /// End the paragraph.
    ParBreak,
    /// End the page; a strong break does so even on an empty page.
    PageBreak(bool),
}

/// An ordered, replayable log of operations.
#[derive(Debug, PartialEq, Eq)]
pub struct Template {
    pub ops: Vec<Op>,
}

impl View for Template {
    type V = Seq<Op>;

    open spec fn view(&self) -> Seq<Op> {
        self.ops@
    }
}

/// How many states are remembered after the first `n` operations, starting
/// from `depth`; a restore with nothing remembered leaves the count at zero.
pub open spec fn depth_after(ops: Seq<Op>, n: nat, depth: nat) -> nat
    decreases n,
{
    if n == 0 || n > ops.len() {
        depth
    } else {
        let before = depth_after(ops, (n - 1) as nat, depth);
        match ops[n - 1] {
            Op::Save => before + 1,
            Op::Restore => if before > 0 {
                (before - 1) as nat
            } else {
                0
            },
            _ => before,
        }
    }
}

/// Whether no restore among the first `n` operations finds nothing remembered
/// by an earlier save of the same sequence.
pub open spec fn restores_matched(ops: Seq<Op>, n: nat) -> bool
    decreases n,
{
    if n == 0 || n > ops.len() {
        true
    } else {
        &&& restores_matched(ops, (n - 1) as nat)
        &&& ops[n - 1] is Restore ==> depth_after(ops, (n - 1) as nat, 0) > 0
    }
}

/// Whether saves and restores nest: every restore answers an earlier save,
/// and every save is answered.
pub open spec fn balanced(ops: Seq<Op>) -> bool {
    &&& restores_matched(ops, ops.len())
    &&& depth_after(ops, ops.len(), 0) == 0
}

/// A restore that finds nothing remembered stays unmatched however many
/// operations follow.
pub proof fn unmatched_stays(ops: Seq<Op>, n: nat, m: nat)
    requires
        n <= m <= ops.len(),
        !restores_matched(ops, n),
    ensures
        !restores_matched(ops, m),
    decreases m - n,
{
    if n < m {
        unmatched_stays(ops, n, (m - 1) as nat);
    }
}

impl Template {
    /// The empty template.
    pub fn new() -> (template: Template)
        ensures
            template@ == Seq::<Op>::empty(),
    {
        Template { ops: Vec::new() }
    }

    /// Appends a change of the state.
    pub fn modify(&mut self, change: Change)
        ensures
            final(self)@ == old(self)@.push(Op::Modify(change)),
    {
        self.ops.push(Op::Modify(change));
    }

    /// Appends a save of the current state.
    pub fn save(&mut self)
        ensures
            final(self)@ == old(self)@.push(Op::Save),
    {
        self.ops.push(Op::Save);
    }

    /// Appends a return to the state saved last.
    pub fn restore(&mut self)
        ensures
            final(self)@ == old(self)@.push(Op::Restore),
    {
        self.ops.push(Op::Restore);
    }

    /// Appends spacing along an axis.
    pub fn spacing(&mut self, axis: GenAxis, amount: Linear)
        ensures
            final(self)@ == old(self)@.push(Op::InsertSpacing(axis, amount)),
    {
        self.ops.push(Op::InsertSpacing(axis, amount));
    }

    /// Appends a page break, strong or weak.
    pub fn pagebreak(&mut self, strong: bool)
        ensures
            final(self)@ == old(self)@.push(Op::PageBreak(strong)),
    {
        self.ops.push(Op::PageBreak(strong));
    }

    /// Appends a paragraph break.
    pub fn parbreak(&mut self)
        ensures
            final(self)@ == old(self)@.push(Op::ParBreak),
    {
        self.ops.push(Op::ParBreak);
    }

    /// A template of one inline-level node.
    pub fn from_inline(node: Deferred) -> (template: Template)
        ensures
            template@ == seq![Op::InsertNode(Level::Inline, node)],
    {
        let mut ops: Vec<Op> = Vec::new();
        ops.push(Op::InsertNode(Level::Inline, node));
        Template { ops }
    }

    /// A template of one block-level node.
    pub fn from_block(node: Deferred) -> (template: Template)
        ensures
            template@ == seq![Op::InsertNode(Level::Block, node)],
    {
        let mut ops: Vec<Op> = Vec::new();
        ops.push(Op::InsertNode(Level::Block, node));
        Template { ops }
    }

    /// Whether saves and restores nest in the template.
    pub fn is_balanced(&self) -> (yes: bool)
        ensures
            yes == balanced(self@),
    {
        let n = self.ops.len();
        let mut depth: usize = 0;
        let mut i: usize = 0;
        while i < n
            invariant
                i <= n,
                n == self.ops@.len(),
                depth <= i,
                depth == depth_after(self.ops@, i as nat, 0),
                restores_matched(self.ops@, i as nat),
            decreases n - i,
        {
            match &self.ops[i] {
                Op::Save => {
                    depth += 1;
                },
                Op::Restore => {
                    if depth == 0 {
                        proof {
                            unmatched_stays(self.ops@, (i + 1) as nat, n as nat);
                        }
                        return false;
                    }
                    depth -= 1;
                },
                _ => {},
            }
            i += 1;
        }
        depth == 0
    }

    /// Appends all operations of another template, in their order.
    pub fn append(&mut self, other: Template)
        ensures
            final(self)@ == old(self)@ + other@,
    {
        let mut other = other;
        self.ops.append(&mut other.ops);
    }
}

} // verus!
