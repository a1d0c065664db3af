//! Laws that relate the directives, the state changes and the replay.

use vstd::prelude::*;
use crate::args::{find_spec, Arg, Name, Value};
use crate::arrange::{
    final_state, fresh, grid_dirs_spec, run, stack_children, stack_dirs_spec, stacked, step, Frame,
};
use crate::directives::{filled, page_request, scoped, Paper};
use crate::geom::{Align, Axis, Direction, Gen, Linear, Sides};
use crate::node::ChildModel;
use crate::state::{AlignChange, Change, PageChange, Size, State};
use crate::template::{balanced, depth_after, restores_matched, Op, StackItem, Template};

verus! {

/// On every side the side's own margin wins over the blanket margin, and
/// the blanket margin wins over the margin in place.
pub proof fn margin_precedence(change: PageChange, state: State)
    ensures
        change.left is Some ==> change.applied(state).margins.left == change.left,
        change.top is Some ==> change.applied(state).margins.top == change.top,
        change.right is Some ==> change.applied(state).margins.right == change.right,
        change.bottom is Some ==> change.applied(state).margins.bottom == change.bottom,
        change.left is None && change.margins is Some ==> change.applied(state).margins.left
            == change.margins,
        change.top is None && change.margins is Some ==> change.applied(state).margins.top
            == change.margins,
        change.right is None && change.margins is Some ==> change.applied(state).margins.right
            == change.margins,
        change.bottom is None && change.margins is Some ==> change.applied(state).margins.bottom
            == change.margins,
        change.margins is None && change.left is None ==> change.applied(state).margins.left
            == state.margins.left,
        change.margins is None && change.top is None ==> change.applied(state).margins.top
            == state.margins.top,
        change.margins is None && change.right is None ==> change.applied(state).margins.right
            == state.margins.right,
        change.margins is None && change.bottom is None ==> change.applied(state).margins.bottom
            == state.margins.bottom,
{
}

/// A blanket margin and a left margin ask for the same page change in
/// either order of the two arguments: left is the left margin, the other
/// three sides are the blanket margin.
pub proof fn margin_order_irrelevant(
    blanket: Arg,
    left: Arg,
    papers: Seq<Paper>,
    m: Linear,
    l: Linear,
    state: State,
)
    requires
        blanket.name == Some(Name::Margins),
        blanket.value == Value::Linear(m),
        left.name == Some(Name::Left),
        left.value == Value::Linear(l),
    ensures
        page_request(seq![blanket, left], papers) == page_request(seq![left, blanket], papers),
        page_request(seq![blanket, left], papers) matches Ok(change) && change.applied(
            state,
        ).margins == (Sides { left: Some(l), top: Some(m), right: Some(m), bottom: Some(m) }),
{
    reveal_with_fuel(find_spec, 4);
}

/// A page of given width and height that is flipped has them swapped, and
/// flipping any page twice restores its size.
pub proof fn flip_swaps_and_undoes(w: Linear, h: Linear, state: State)
    ensures
        (PageChange { width: Some(w), height: Some(h), flip: true, ..PageChange::none_spec() }).applied(
            state,
        ).page.size == (Size { w: h, h: w }),
        (PageChange { flip: true, ..PageChange::none_spec() }).applied(
            (PageChange { flip: true, ..PageChange::none_spec() }).applied(state),
        ).page.size == state.page.size,
{
}

/// Where a stack is asked to run both directions along one axis, its inline
/// direction is the ambient block direction and its block direction is
/// the one asked for; the pair is then orthogonal exactly if the block
/// direction asked for leaves the ambient block axis.
pub proof fn stack_collision_takes_ambient_block(dir: Gen<Direction>, ambient: Gen<Direction>)
    requires
        dir.block.axis_of() == dir.inline.axis_of(),
    ensures
        stack_dirs_spec(Some(dir), ambient).inline == ambient.block,
        stack_dirs_spec(Some(dir), ambient).block == dir.block,
        (stack_dirs_spec(Some(dir), ambient).block.axis_of() != stack_dirs_spec(
            Some(dir),
            ambient,
        ).inline.axis_of()) == (dir.block.axis_of() != ambient.block.axis_of()),
{
}

/// A stack without a direction of its own runs along the ambient
/// directions.
pub proof fn stack_inherits_orthogonal(ambient: Gen<Direction>)
    requires
        ambient.block.axis_of() != ambient.inline.axis_of(),
    ensures
        stack_dirs_spec(None, ambient) == ambient,
{
}

/// A column direction that was given is never rewritten by a grid: where
/// it collides with the row axis, the row direction yields. Against
/// orthogonal ambient directions the resolved pair is orthogonal whatever
/// was given.
pub proof fn grid_keeps_given_column(
    column_dir: Option<Direction>,
    row_dir: Option<Direction>,
    ambient: Gen<Direction>,
)
    ensures
        column_dir is Some ==> grid_dirs_spec(column_dir, row_dir, ambient).inline
            == column_dir->0,
        column_dir is None && row_dir is Some ==> grid_dirs_spec(column_dir, row_dir, ambient).block
            == row_dir->0,
        ambient.block.axis_of() != ambient.inline.axis_of() ==> grid_dirs_spec(
            column_dir,
            row_dir,
            ambient,
        ).block.axis_of() != grid_dirs_spec(column_dir, row_dir, ambient).inline.axis_of(),
{
}

/// A horizontal and a vertical alignment fill the same slots in either
/// positional order, and a named value keeps its slot whatever is given
/// by position.
pub proof fn slots_ignore_positional_order(
    horizontal: Align,
    vertical: Align,
    first: Option<Align>,
    second: Option<Align>,
    named: Align,
    other: Option<Align>,
)
    requires
        horizontal.axis_of() == Some(Axis::Horizontal),
        vertical.axis_of() == Some(Axis::Vertical),
    ensures
        filled(Some(horizontal), Some(vertical), None, None) == (AlignChange {
            horizontal: Some(horizontal),
            vertical: Some(vertical),
        }),
        filled(Some(vertical), Some(horizontal), None, None) == (AlignChange {
            horizontal: Some(horizontal),
            vertical: Some(vertical),
        }),
        filled(first, second, Some(named), other).horizontal == Some(named),
        filled(first, second, other, Some(named)).vertical == Some(named),
        filled(Some(horizontal), None, Some(named), None) == (AlignChange {
            horizontal: Some(named),
            vertical: None,
        }),
{
}

/// Three pieces of content stacked with a default gap are separated by
/// exactly that gap, with none in front; an explicit gap between two
/// pieces of content stands alone.
pub proof fn stack_gaps(
    a: Template,
    b: Template,
    c: Template,
    gap: Linear,
    explicit: Linear,
    state: State,
    aligns: Gen<Align>,
)
    ensures
        stack_children(
            seq![StackItem::Any(a), StackItem::Any(b), StackItem::Any(c)],
            3,
            state,
            aligns,
            Some(gap),
        ) == seq![
            ChildModel::Any(stacked(a, state), aligns),
            ChildModel::Spacing(gap),
            ChildModel::Any(stacked(b, state), aligns),
            ChildModel::Spacing(gap),
            ChildModel::Any(stacked(c, state), aligns),
        ],
        stack_children(
            seq![StackItem::Any(a), StackItem::Spacing(explicit), StackItem::Any(b)],
            3,
            state,
            aligns,
            Some(gap),
        ) == seq![
            ChildModel::Any(stacked(a, state), aligns),
            ChildModel::Spacing(explicit),
            ChildModel::Any(stacked(b, state), aligns),
        ],
{
    reveal_with_fuel(stack_children, 5);
    let first = seq![StackItem::Any(a), StackItem::Any(b), StackItem::Any(c)];
    assert(stack_children(first, 3, state, aligns, Some(gap)) =~= seq![
        ChildModel::Any(stacked(a, state), aligns),
        ChildModel::Spacing(gap),
        ChildModel::Any(stacked(b, state), aligns),
        ChildModel::Spacing(gap),
        ChildModel::Any(stacked(c, state), aligns),
    ]);
    let second = seq![StackItem::Any(a), StackItem::Spacing(explicit), StackItem::Any(b)];
    assert(stack_children(second, 3, state, aligns, Some(gap)) =~= seq![
        ChildModel::Any(stacked(a, state), aligns),
        ChildModel::Spacing(explicit),
        ChildModel::Any(stacked(b, state), aligns),
    ]);
}

/// Replaying `a` and then `b` is replaying `b` from where `a` ends.
pub proof fn run_concat(a: Seq<Op>, b: Seq<Op>, k: nat, start: Frame)
    requires
        k <= b.len(),
    ensures
        run(a + b, a.len() + k, start) == run(b, k, run(a, a.len(), start)),
    decreases k,
{
    if k == 0 {
        run_prefix(a + b, a, a.len(), start);
    } else {
        run_concat(a, b, (k - 1) as nat, start);
        assert((a + b)[a.len() + k - 1] == b[k - 1]);
    }
}

/// The frame after the first `n` operations depends on those alone.
pub proof fn run_prefix(a: Seq<Op>, b: Seq<Op>, n: nat, start: Frame)
    requires
        n <= a.len(),
        n <= b.len(),
        forall|i: int| 0 <= i < n ==> a[i] == b[i],
    ensures
        run(a, n, start) == run(b, n, start),
    decreases n,
{
    if n > 0 {
        run_prefix(a, b, (n - 1) as nat, start);
    }
}

/// Operations whose restores answer their own saves leave alone what
/// was saved before them: it stays below what they save themselves.
pub proof fn run_keeps_saved(ops: Seq<Op>, n: nat, start: Frame)
    requires
        n <= ops.len(),
        restores_matched(ops, n),
    ensures
        run(ops, n, start).saved.len() == start.saved.len() + depth_after(ops, n, 0),
        run(ops, n, start).saved.take(start.saved.len() as int) == start.saved,
    decreases n,
{
    if n == 0 {
        assert(start.saved.take(start.saved.len() as int) =~= start.saved);
    } else {
        run_keeps_saved(ops, (n - 1) as nat, start);
        let before = run(ops, (n - 1) as nat, start);
        let after = run(ops, n, start);
        assert(after == step(ops[n - 1], before));
        assert(after.saved.take(start.saved.len() as int) =~= before.saved.take(
            start.saved.len() as int,
        ));
    }
}

/// An alignment change scoped to balanced content is undone at its end:
/// the replay continues with the state and the saved states it had before.
pub proof fn scoped_change_is_undone(change: AlignChange, body: Seq<Op>, start: Frame)
    requires
        balanced(body),
    ensures
        run(scoped(change, body), scoped(change, body).len(), start) == start,
{
    let head = seq![Op::Save, Op::Modify(Change::Align(change))];
    let tail = seq![Op::Restore];
    let entered = Frame {
        state: Change::Align(change).applied(start.state),
        saved: start.saved.push(start.state),
    };
    reveal_with_fuel(run, 3);
    assert(run(head, 2, start) == entered);
    run_concat(head, body, body.len(), start);
    let inner = run(body, body.len(), entered);
    run_keeps_saved(body, body.len(), entered);
    assert(inner.saved =~= entered.saved) by {
        assert(inner.saved.take(entered.saved.len() as int) =~= inner.saved);
    }
    run_concat(head + body, tail, 1, start);
    assert(run(tail, 1, inner) == step(Op::Restore, inner));
    assert(start.saved.push(start.state).drop_last() =~= start.saved);
}

/// What follows content with a scoped alignment change is replayed as if
/// that content were not there: each later operation meets the state, and
/// the alignment in it, that it would meet without it.
pub proof fn scoped_change_stays_inside(
    change: AlignChange,
    body: Seq<Op>,
    before: Seq<Op>,
    after: Seq<Op>,
    k: nat,
    init: State,
)
    requires
        balanced(body),
        k <= after.len(),
    ensures
        run(
            before + scoped(change, body) + after,
            before.len() + scoped(change, body).len() + k,
            fresh(init),
        ) == run(before + after, before.len() + k, fresh(init)),
{
    let inner = scoped(change, body);
    let entered = run(before, before.len(), fresh(init));
    run_concat(before, inner, inner.len(), fresh(init));
    scoped_change_is_undone(change, body, entered);
    run_concat(before + inner, after, k, fresh(init));
    run_concat(before, after, k, fresh(init));
}

/// The depth and the matching of restores over the first `n` operations
/// depend on those operations alone.
pub proof fn depth_prefix(a: Seq<Op>, b: Seq<Op>, n: nat, depth: nat)
    requires
        n <= a.len(),
        n <= b.len(),
        forall|i: int| 0 <= i < n ==> a[i] == b[i],
    ensures
        depth_after(a, n, depth) == depth_after(b, n, depth),
        restores_matched(a, n) == restores_matched(b, n),
    decreases n,
{
    if n > 0 {
        depth_prefix(a, b, (n - 1) as nat, depth);
        depth_prefix(a, b, (n - 1) as nat, 0);
    }
}

/// The depth after `a` and then the first `k` operations of `b` is the
/// depth that `b` reaches from the depth `a` ends at.
pub proof fn depth_concat(a: Seq<Op>, b: Seq<Op>, k: nat)
    requires
        k <= b.len(),
    ensures
        depth_after(a + b, a.len() + k, 0) == depth_after(b, k, depth_after(a, a.len(), 0)),
    decreases k,
{
    if k == 0 {
        depth_prefix(a + b, a, a.len(), 0);
    } else {
        depth_concat(a, b, (k - 1) as nat);
        assert((a + b)[a.len() + k - 1] == b[k - 1]);
    }
}

/// Operations whose restores answer their own saves raise any starting
/// depth by the depth they reach from zero.
pub proof fn depth_shift(ops: Seq<Op>, n: nat, depth: nat)
    requires
        n <= ops.len(),
        restores_matched(ops, n),
    ensures
        depth_after(ops, n, depth) == depth + depth_after(ops, n, 0),
    decreases n,
{
    if n > 0 {
        depth_shift(ops, (n - 1) as nat, depth);
    }
}

/// Restores stay matched when operations with matched restores follow
/// others with matched restores.
pub proof fn matched_concat(a: Seq<Op>, b: Seq<Op>, k: nat)
    requires
        k <= b.len(),
        restores_matched(a, a.len()),
        restores_matched(b, k),
    ensures
        restores_matched(a + b, a.len() + k),
    decreases k,
{
    if k == 0 {
        depth_prefix(a + b, a, a.len(), 0);
    } else {
        matched_concat(a, b, (k - 1) as nat);
        depth_concat(a, b, (k - 1) as nat);
        depth_shift(b, (k - 1) as nat, depth_after(a, a.len(), 0));
        assert((a + b)[a.len() + k - 1] == b[k - 1]);
    }
}

/// Scoping an alignment change to balanced content gives balanced
/// operations: the save in front is answered by the restore at the end.
pub proof fn scoped_is_balanced(change: AlignChange, body: Seq<Op>)
    requires
        balanced(body),
    ensures
        balanced(scoped(change, body)),
{
    let head = seq![Op::Save, Op::Modify(Change::Align(change))];
    let whole = scoped(change, body);
    let n = (head + body).len();
    reveal_with_fuel(depth_after, 3);
    reveal_with_fuel(restores_matched, 3);
    assert(restores_matched(head, 2));
    assert(depth_after(head, 2, 0) == 1);
    matched_concat(head, body, body.len());
    depth_concat(head, body, body.len());
    depth_shift(body, body.len(), 1);
    depth_prefix(whole, head + body, n, 0);
    assert(whole[n as int] == Op::Restore);
    assert(whole.len() == n + 1);
}

/// No replay turns the directions: the live state and every saved state
/// keep the directions of the initial state, and with them their
/// orthogonality.
pub proof fn replay_keeps_directions(ops: Seq<Op>, n: nat, init: State)
    requires
        n <= ops.len(),
    ensures
        run(ops, n, fresh(init)).state.dirs == init.dirs,
        forall|i: int|
            0 <= i < run(ops, n, fresh(init)).saved.len() ==> (#[trigger] run(
                ops,
                n,
                fresh(init),
            ).saved[i]).dirs == init.dirs,
        init.orthogonal() ==> run(ops, n, fresh(init)).state.orthogonal(),
    decreases n,
{
    if n > 0 {
        replay_keeps_directions(ops, (n - 1) as nat, init);
    }
}

/// The state after the first `n` operations where only the changes count,
/// each applied to the state left by those before it.
pub open spec fn folded(ops: Seq<Op>, n: nat, init: State) -> State
    decreases n,
{
    if n == 0 || n > ops.len() {
        init
    } else {
        match ops[n - 1] {
            Op::Modify(change) => change.applied(folded(ops, (n - 1) as nat, init)),
            _ => folded(ops, (n - 1) as nat, init),
        }
    }
}

/// A template that never saves leaves the state that its changes give when
/// applied one after another to the initial state.
pub proof fn replay_is_fold(ops: Seq<Op>, n: nat, init: State)
    requires
        n <= ops.len(),
        forall|i: int| 0 <= i < ops.len() ==> !(ops[i] is Save),
    ensures
        run(ops, n, fresh(init)).state == folded(ops, n, init),
        run(ops, n, fresh(init)).saved.len() == 0,
        n == ops.len() ==> final_state(ops, init) == folded(ops, ops.len(), init),
    decreases n,
{
    if n > 0 {
        replay_is_fold(ops, (n - 1) as nat, init);
    }
}

} // verus!
