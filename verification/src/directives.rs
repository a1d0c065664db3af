//! The layout directives: each validates its arguments and records its
//! intent in a template.

use vstd::prelude::*;
use crate::args::{
    amount, cast_linear, amount_spec, content_spec, contents_spec, find, find_spec, linear_of, named_align,
    named_align_spec, named_bool, named_bool_spec, named_dir, named_dir_spec, named_dirs,
    named_dirs_spec, named_linear, named_linear_spec, named_tracks, named_tracks_spec,
    take_content, take_contents, Arg, ArgError, Args, Name, Param, Value, Want,
};
use crate::geom::{Align, Axis, Gen, GenAxis, Linear, Sides, TrackSizing};
use crate::arrange::copy_tracks;
use crate::state::{AlignChange, Change, PageChange, PaperSize};
use crate::template::{Deferred, Level, Op, StackItem, Template};

verus! {

/// A named paper size.
#[derive(Debug, PartialEq, Eq)]
pub struct Paper {
    pub name: String,
    pub size: PaperSize,
}

/// What a directive works on: the template under construction and the table
/// of known papers.
#[derive(Debug, PartialEq, Eq)]
pub struct EvalContext {
    pub template: Template,
    pub papers: Vec<Paper>,
}

/// The size of the first paper of that name at or after `from`.
pub open spec fn paper_named(papers: Seq<Paper>, name: Seq<char>, from: nat) -> Option<PaperSize>
    decreases papers.len() - from,
{
    if from >= papers.len() {
        None
    } else if papers[from as int].name@ == name {
        Some(papers[from as int].size)
    } else {
        paper_named(papers, name, from + 1)
    }
}

/// The paper that the first positional string names: none where there is no
/// such string, an error at its place where the name is not known.
pub open spec fn paper_request(items: Seq<Arg>, papers: Seq<Paper>) -> Result<
    Option<PaperSize>,
    ArgError,
> {
    match find_spec(items, Want::Text, 0) {
        None => Ok(None),
        Some(i) => match items[i as int].value {
            Value::Str(name) => match paper_named(papers, name@, 0) {
                Some(size) => Ok(Some(size)),
                None => Err(ArgError::UnknownPaper(items[i as int].span)),
            },
            _ => Ok(None),
        },
    }
}

/// The change that the arguments of `page` ask for, or the first error among
/// the paper name and the named arguments in their fixed order.
pub open spec fn page_request(items: Seq<Arg>, papers: Seq<Paper>) -> Result<PageChange, ArgError> {
    let paper = paper_request(items, papers);
    let width = named_linear_spec(items, Name::Width);
    let height = named_linear_spec(items, Name::Height);
    let margins = named_linear_spec(items, Name::Margins);
    let left = named_linear_spec(items, Name::Left);
    let top = named_linear_spec(items, Name::Top);
    let right = named_linear_spec(items, Name::Right);
    let bottom = named_linear_spec(items, Name::Bottom);
    let flip = named_bool_spec(items, Name::Flip);
    if paper is Err {
        Err(paper->Err_0)
    } else if width is Err {
        Err(width->Err_0)
    } else if height is Err {
        Err(height->Err_0)
    } else if margins is Err {
        Err(margins->Err_0)
    } else if left is Err {
        Err(left->Err_0)
    } else if top is Err {
        Err(top->Err_0)
    } else if right is Err {
        Err(right->Err_0)
    } else if bottom is Err {
        Err(bottom->Err_0)
    } else if flip is Err {
        Err(flip->Err_0)
    } else {
        Ok(
            PageChange {
                paper: paper->Ok_0,
                width: width->Ok_0,
                height: height->Ok_0,
                margins: margins->Ok_0,
                left: left->Ok_0,
                top: top->Ok_0,
                right: right->Ok_0,
                bottom: bottom->Ok_0,
                flip: flip->Ok_0 == Some(true),
            },
        )
    }
}

/// The slots after a positional alignment is offered: it takes the
/// horizontal slot if that is open and the value is not bound to the
/// vertical axis, else the vertical slot on the mirrored condition, else
/// nothing changes.
pub open spec fn offered(slots: AlignChange, value: Option<Align>) -> AlignChange {
    match value {
        None => slots,
        Some(align) => if align.axis_of() != Some(Axis::Vertical) && slots.horizontal is None {
            AlignChange { horizontal: Some(align), vertical: slots.vertical }
        } else if align.axis_of() != Some(Axis::Horizontal) && slots.vertical is None {
            AlignChange { horizontal: slots.horizontal, vertical: Some(align) }
        } else {
            slots
        },
    }
}

/// The slots once the named values are fixed and the two positional values
/// are offered in their order.
pub open spec fn filled(
    first: Option<Align>,
    second: Option<Align>,
    horizontal: Option<Align>,
    vertical: Option<Align>,
) -> AlignChange {
    offered(offered(AlignChange { horizontal, vertical }, first), second)
}

/// The alignment at an index, where the value there is one.
pub open spec fn align_at(items: Seq<Arg>, at: Option<nat>) -> Option<Align> {
    match at {
        Some(i) => match items[i as int].value {
            Value::Align(align) => Some(align),
            _ => None,
        },
        None => None,
    }
}

/// The first positional alignment.
pub open spec fn first_align(items: Seq<Arg>) -> Option<Align> {
    align_at(items, find_spec(items, Want::Alignment, 0))
}

/// The second positional alignment.
pub open spec fn second_align(items: Seq<Arg>) -> Option<Align> {
    match find_spec(items, Want::Alignment, 0) {
        Some(i) => align_at(items, find_spec(items, Want::Alignment, i + 1)),
        None => None,
    }
}

/// The alignment change that the arguments of `align` ask for, or the first
/// error among the two named arguments.
pub open spec fn align_request(items: Seq<Arg>) -> Result<AlignChange, ArgError> {
    let horizontal = named_align_spec(items, Name::Horizontal);
    let vertical = named_align_spec(items, Name::Vertical);
    if horizontal is Err {
        Err(horizontal->Err_0)
    } else if vertical is Err {
        Err(vertical->Err_0)
    } else {
        Ok(filled(first_align(items), second_align(items), horizontal->Ok_0, vertical->Ok_0))
    }
}

/// The operations that scope an alignment change to content.
pub open spec fn scoped(change: AlignChange, body: Seq<Op>) -> Seq<Op> {
    seq![Op::Save, Op::Modify(Change::Align(change))] + body + seq![Op::Restore]
}

/// The operations after an alignment change is recorded for all that
/// follows: the change, and a paragraph break where it sets a vertical
/// alignment.
pub open spec fn recorded(before: Seq<Op>, change: AlignChange) -> Seq<Op> {
    if change.vertical is Some {
        before.push(Op::Modify(Change::Align(change))).push(Op::ParBreak)
    } else {
        before.push(Op::Modify(Change::Align(change)))
    }
}

/// The padding of one side: the side's own value, else the value for all
/// sides, else none.
pub open spec fn side_padding(side: Option<Linear>, all: Option<Linear>) -> Linear {
    if let Some(value) = side {
        value
    } else if let Some(value) = all {
        value
    } else {
        Linear::zero_spec()
    }
}

/// The padding that the arguments of `pad` ask for, or the first error
/// among the named sides and the required content.
pub open spec fn pad_request(items: Seq<Arg>) -> Result<Sides<Linear>, ArgError> {
    let all = amount_spec(items);
    let left = named_linear_spec(items, Name::Left);
    let top = named_linear_spec(items, Name::Top);
    let right = named_linear_spec(items, Name::Right);
    let bottom = named_linear_spec(items, Name::Bottom);
    if left is Err {
        Err(left->Err_0)
    } else if top is Err {
        Err(top->Err_0)
    } else if right is Err {
        Err(right->Err_0)
    } else if bottom is Err {
        Err(bottom->Err_0)
    } else if content_spec(items) is None {
        Err(ArgError::Missing(Param::Body))
    } else {
        Ok(
            Sides {
                left: side_padding(left->Ok_0, all),
                top: side_padding(top->Ok_0, all),
                right: side_padding(right->Ok_0, all),
                bottom: side_padding(bottom->Ok_0, all),
            },
        )
    }
}

/// The items of a stack among the arguments, in their order: a positional
/// linear is a gap, a positional template is content, all else is left out.
pub open spec fn stack_items_spec(items: Seq<Arg>) -> Seq<StackItem>
    decreases items.len(),
{
    if items.len() == 0 {
        Seq::empty()
    } else {
        let rest = stack_items_spec(items.drop_first());
        if items[0].name is Some {
            rest
        } else {
            match items[0].value {
                Value::Template(template) => seq![StackItem::Any(template)] + rest,
                value => match linear_of(value) {
                    Some(gap) => seq![StackItem::Spacing(gap)] + rest,
                    None => rest,
                },
            }
        }
    }
}

/// The first error among the named arguments of `grid`, in their fixed order.
pub open spec fn grid_error(items: Seq<Arg>) -> Option<ArgError> {
    let columns = named_tracks_spec(items, Name::Columns);
    let rows = named_tracks_spec(items, Name::Rows);
    let column_dir = named_dir_spec(items, Name::ColumnDir);
    let row_dir = named_dir_spec(items, Name::RowDir);
    let gutter_columns = named_tracks_spec(items, Name::GutterColumns);
    let gutter_rows = named_tracks_spec(items, Name::GutterRows);
    let gutter = named_linear_spec(items, Name::Gutter);
    if columns is Err {
        Some(columns->Err_0)
    } else if rows is Err {
        Some(rows->Err_0)
    } else if column_dir is Err {
        Some(column_dir->Err_0)
    } else if row_dir is Err {
        Some(row_dir->Err_0)
    } else if gutter_columns is Err {
        Some(gutter_columns->Err_0)
    } else if gutter_rows is Err {
        Some(gutter_rows->Err_0)
    } else if gutter is Err {
        Some(gutter->Err_0)
    } else {
        None
    }
}

/// The track list in effect: the given one, else the default.
pub open spec fn tracks_or(
    given: Result<Option<Seq<TrackSizing>>, ArgError>,
    default: Seq<TrackSizing>,
) -> Seq<TrackSizing> {
    match given {
        Ok(Some(tracks)) => tracks,
        _ => default,
    }
}

/// The gutter that serves both axes unless one has its own: the bare gutter
/// value as a single track, else no track.
pub open spec fn gutter_default(items: Seq<Arg>) -> Seq<TrackSizing> {
    match named_linear_spec(items, Name::Gutter) {
        Ok(Some(value)) => seq![TrackSizing::Linear(value)],
        _ => Seq::empty(),
    }
}

fn drain(args: &mut Args) -> (items: Vec<Arg>)
    ensures
        items@ == old(args).items@,
        final(args).items@ == Seq::<Arg>::empty(),
{
    let mut items: Vec<Arg> = Vec::new();
    core::mem::swap(&mut args.items, &mut items);
    items
}

fn find_paper(papers: &Vec<Paper>, name: &String) -> (found: Option<PaperSize>)
    ensures
        found == paper_named(papers@, name@, 0),
{
    let n = papers.len();
    let mut i: usize = 0;
    while i < n
        invariant
            n == papers@.len(),
            paper_named(papers@, name@, 0) == paper_named(papers@, name@, i as nat),
        decreases n - i,
    {
        if papers[i].name == *name {
            return Some(papers[i].size);
        }
        i += 1;
    }
    None
}

fn requested_paper(items: &Vec<Arg>, papers: &Vec<Paper>) -> (found: Result<
    Option<PaperSize>,
    ArgError,
>)
    ensures
        found == paper_request(items@, papers@),
{
    match find(items, Want::Text, 0) {
        None => Ok(None),
        Some(i) => match &items[i].value {
            Value::Str(name) => match find_paper(papers, name) {
                Some(size) => Ok(Some(size)),
                None => Err(ArgError::UnknownPaper(items[i].span)),
            },
            _ => Ok(None),
        },
    }
}

fn requested_page(items: &Vec<Arg>, papers: &Vec<Paper>) -> (found: Result<PageChange, ArgError>)
    ensures
        found == page_request(items@, papers@),
{
    let paper = requested_paper(items, papers)?;
    let width = named_linear(items, Name::Width)?;
    let height = named_linear(items, Name::Height)?;
    let margins = named_linear(items, Name::Margins)?;
    let left = named_linear(items, Name::Left)?;
    let top = named_linear(items, Name::Top)?;
    let right = named_linear(items, Name::Right)?;
    let bottom = named_linear(items, Name::Bottom)?;
    let flip = named_bool(items, Name::Flip)?;
    let flip = match flip {
        Some(b) => b,
        None => false,
    };
    Ok(PageChange { paper, width, height, margins, left, top, right, bottom, flip })
}

/// `page`: configures the page and asks for a weak page break.
///
/// On an error nothing is recorded. The argument list is taken over in
/// either case.
pub fn page(ctx: &mut EvalContext, args: &mut Args) -> (result: Result<Value, ArgError>)
    ensures
        final(args).items@ == Seq::<Arg>::empty(),
        final(ctx).papers == old(ctx).papers,
        match page_request(old(args).items@, old(ctx).papers@) {
            Ok(change) => result matches Ok(Value::Nothing) && final(ctx).template@ == old(
                ctx,
            ).template@.push(Op::Modify(Change::Page(change))).push(Op::PageBreak(false)),
            Err(e) => result matches Err(got) && got == e && final(ctx).template@ == old(
                ctx,
            ).template@,
        },
{
    let items = drain(args);
    let change = requested_page(&items, &ctx.papers)?;
    ctx.template.modify(Change::Page(change));
    ctx.template.pagebreak(false);
    Ok(Value::Nothing)
}

/// `pagebreak`: asks for a strong page break.
pub fn pagebreak(ctx: &mut EvalContext, args: &mut Args) -> (result: Result<Value, ArgError>)
    ensures
        result matches Ok(Value::Nothing),
        *final(args) == *old(args),
        final(ctx).papers == old(ctx).papers,
        final(ctx).template@ == old(ctx).template@.push(Op::PageBreak(true)),
{
    ctx.template.pagebreak(true);
    Ok(Value::Nothing)
}

fn space(ctx: &mut EvalContext, args: &mut Args, axis: GenAxis) -> (result: Result<Value, ArgError>)
    ensures
        final(args).items@ == Seq::<Arg>::empty(),
        final(ctx).papers == old(ctx).papers,
        match amount_spec(old(args).items@) {
            Some(gap) => result matches Ok(Value::Nothing) && final(ctx).template@ == old(
                ctx,
            ).template@.push(Op::InsertSpacing(axis, gap)),
            None => result matches Err(ArgError::Missing(Param::Spacing)) && final(ctx).template@
                == old(ctx).template@,
        },
{
    let items = drain(args);
    match amount(&items) {
        Some(gap) => {
            ctx.template.spacing(axis, gap);
            Ok(Value::Nothing)
        },
        None => Err(ArgError::Missing(Param::Spacing)),
    }
}

/// `h`: inserts spacing along the inline axis.
///
/// The amount is the first positional linear; without one nothing is
/// recorded.
pub fn h(ctx: &mut EvalContext, args: &mut Args) -> (result: Result<Value, ArgError>)
    ensures
        final(args).items@ == Seq::<Arg>::empty(),
        final(ctx).papers == old(ctx).papers,
        match amount_spec(old(args).items@) {
            Some(gap) => result matches Ok(Value::Nothing) && final(ctx).template@ == old(
                ctx,
            ).template@.push(Op::InsertSpacing(GenAxis::Inline, gap)),
            None => result matches Err(ArgError::Missing(Param::Spacing)) && final(ctx).template@
                == old(ctx).template@,
        },
{
    space(ctx, args, GenAxis::Inline)
}

/// `v`: inserts spacing along the block axis.
///
/// The amount is the first positional linear; without one nothing is
/// recorded.
pub fn v(ctx: &mut EvalContext, args: &mut Args) -> (result: Result<Value, ArgError>)
    ensures
        final(args).items@ == Seq::<Arg>::empty(),
        final(ctx).papers == old(ctx).papers,
        match amount_spec(old(args).items@) {
            Some(gap) => result matches Ok(Value::Nothing) && final(ctx).template@ == old(
                ctx,
            ).template@.push(Op::InsertSpacing(GenAxis::Block, gap)),
            None => result matches Err(ArgError::Missing(Param::Spacing)) && final(ctx).template@
                == old(ctx).template@,
        },
{
    space(ctx, args, GenAxis::Block)
}

fn offer(slots: AlignChange, value: Option<Align>) -> (after: AlignChange)
    ensures
        after == offered(slots, value),
{
    match value {
        None => slots,
        Some(align) => {
            let axis = align.axis();
            let takes_horizontal = match axis {
                Some(Axis::Vertical) => false,
                _ => true,
            };
            let takes_vertical = match axis {
                Some(Axis::Horizontal) => false,
                _ => true,
            };
            if takes_horizontal && slots.horizontal.is_none() {
                AlignChange { horizontal: Some(align), vertical: slots.vertical }
            } else if takes_vertical && slots.vertical.is_none() {
                AlignChange { horizontal: slots.horizontal, vertical: Some(align) }
            } else {
                slots
            }
        },
    }
}

/// Fills the horizontal and vertical slots: named values are fixed first,
/// then the positional values are offered in their order.
pub fn fill_slots(
    first: Option<Align>,
    second: Option<Align>,
    horizontal: Option<Align>,
    vertical: Option<Align>,
) -> (change: AlignChange)
    ensures
        change == filled(first, second, horizontal, vertical),
{
    offer(offer(AlignChange { horizontal, vertical }, first), second)
}

fn read_align(items: &Vec<Arg>, at: Option<usize>) -> (found: Option<Align>)
    requires
        at matches Some(i) ==> i < items@.len(),
    ensures
        found == align_at(
            items@,
            match at {
                Some(i) => Some(i as nat),
                None => None,
            },
        ),
{
    match at {
        Some(i) => match &items[i].value {
            Value::Align(align) => Some(*align),
            _ => None,
        },
        None => None,
    }
}

fn requested_align(items: &Vec<Arg>) -> (found: Result<AlignChange, ArgError>)
    ensures
        found == align_request(items@),
{
    let n = items.len();
    let first_at = find(items, Want::Alignment, 0);
    let first = read_align(items, first_at);
    let second = match first_at {
        Some(i) => {
            assert(i < n);
            let second_at = find(items, Want::Alignment, i + 1);
            read_align(items, second_at)
        },
        None => None,
    };
    let horizontal = named_align(items, Name::Horizontal)?;
    let vertical = named_align(items, Name::Vertical)?;
    Ok(fill_slots(first, second, horizontal, vertical))
}

/// `align`: sets the alignment, for the given content or from here on.
///
/// With content the result is a template that saves the state, changes the
/// alignment, holds the content and restores the state; the enclosing
/// template is left alone. Without content the change is recorded in the
/// enclosing template, followed by a paragraph break where a vertical
/// alignment was set. On an error nothing is recorded.
pub fn align(ctx: &mut EvalContext, args: &mut Args) -> (result: Result<Value, ArgError>)
    ensures
        final(args).items@ == Seq::<Arg>::empty(),
        final(ctx).papers == old(ctx).papers,
        match align_request(old(args).items@) {
            Err(e) => result matches Err(got) && got == e && final(ctx).template@ == old(
                ctx,
            ).template@,
            Ok(change) => match content_spec(old(args).items@) {
                Some(body) => result matches Ok(Value::Template(template)) && template@ == scoped(
                    change,
                    body@,
                ) && final(ctx).template@ == old(ctx).template@,
                None => result matches Ok(Value::Nothing) && final(ctx).template@ == recorded(
                    old(ctx).template@,
                    change,
                ),
            },
        },
{
    let mut items = drain(args);
    let change = requested_align(&items)?;
    match take_content(&mut items) {
        Some(body) => {
            let mut template = Template::new();
            template.save();
            template.modify(Change::Align(change));
            template.append(body);
            template.restore();
            assert(template@ =~= scoped(change, body@));
            Ok(Value::Template(template))
        },
        None => {
            ctx.template.modify(Change::Align(change));
            if change.vertical.is_some() {
                ctx.template.parbreak();
            }
            Ok(Value::Nothing)
        },
    }
}

/// The width and height that the arguments of `box` ask for, or the first
/// error among them.
pub open spec fn box_request(items: Seq<Arg>) -> Result<(Option<Linear>, Option<Linear>), ArgError> {
    let width = named_linear_spec(items, Name::Width);
    let height = named_linear_spec(items, Name::Height);
    if width is Err {
        Err(width->Err_0)
    } else if height is Err {
        Err(height->Err_0)
    } else {
        Ok((width->Ok_0, height->Ok_0))
    }
}

/// `box`: places content in a box of optional width and height, as an
/// inline-level node without aspect constraint.
///
/// The content is the first positional template, else empty.
pub fn boxed(ctx: &mut EvalContext, args: &mut Args) -> (result: Result<Value, ArgError>)
    ensures
        final(args).items@ == Seq::<Arg>::empty(),
        *final(ctx) == *old(ctx),
        match box_request(old(args).items@) {
            Err(e) => result matches Err(got) && got == e,
            Ok(size) => {
                &&& result matches Ok(Value::Template(template))
                &&& template@.len() == 1
                &&& template@[0] matches Op::InsertNode(
                    Level::Inline,
                    Deferred::Fixed { width, height, body },
                )
                &&& width == size.0
                &&& height == size.1
                &&& match content_spec(old(args).items@) {
                    Some(content) => body == content,
                    None => body@ == Seq::<Op>::empty(),
                }
            },
        },
{
    let mut items = drain(args);
    let width = named_linear(&items, Name::Width)?;
    let height = named_linear(&items, Name::Height)?;
    let body = match take_content(&mut items) {
        Some(content) => content,
        None => Template::new(),
    };
    Ok(Value::Template(Template::from_inline(Deferred::Fixed { width, height, body })))
}

/// `block`: places content in a block of its own.
///
/// The content is the first positional template and is required.
pub fn block(ctx: &mut EvalContext, args: &mut Args) -> (result: Result<Value, ArgError>)
    ensures
        final(args).items@ == Seq::<Arg>::empty(),
        *final(ctx) == *old(ctx),
        match content_spec(old(args).items@) {
            None => result matches Err(ArgError::Missing(Param::Body)),
            Some(content) => result matches Ok(Value::Template(template)) && template@ == seq![
                Op::InsertNode(Level::Block, Deferred::Block { body: content }),
            ],
        },
{
    let mut items = drain(args);
    match take_content(&mut items) {
        Some(body) => Ok(Value::Template(Template::from_block(Deferred::Block { body }))),
        None => Err(ArgError::Missing(Param::Body)),
    }
}

fn pick_padding(side: Option<Linear>, all: Option<Linear>) -> (padding: Linear)
    ensures
        padding == side_padding(side, all),
{
    match side {
        Some(value) => value,
        None => match all {
            Some(value) => value,
            None => Linear::zero(),
        },
    }
}

/// `pad`: pads content at the sides.
///
/// Per side, the named value wins over the positional value for all sides,
/// which wins over zero. The content is the first positional template and
/// is required.
pub fn pad(ctx: &mut EvalContext, args: &mut Args) -> (result: Result<Value, ArgError>)
    ensures
        final(args).items@ == Seq::<Arg>::empty(),
        *final(ctx) == *old(ctx),
        match pad_request(old(args).items@) {
            Err(e) => result matches Err(got) && got == e,
            Ok(padding) => result matches Ok(Value::Template(template)) && template@ == seq![
                Op::InsertNode(
                    Level::Block,
                    Deferred::Pad { padding, body: content_spec(old(args).items@)->0 },
                ),
            ],
        },
{
    let mut items = drain(args);
    let all = amount(&items);
    let left = named_linear(&items, Name::Left)?;
    let top = named_linear(&items, Name::Top)?;
    let right = named_linear(&items, Name::Right)?;
    let bottom = named_linear(&items, Name::Bottom)?;
    let body = match take_content(&mut items) {
        Some(content) => content,
        None => {
            return Err(ArgError::Missing(Param::Body));
        },
    };
    let padding = Sides::new(
        pick_padding(left, all),
        pick_padding(top, all),
        pick_padding(right, all),
        pick_padding(bottom, all),
    );
    Ok(Value::Template(Template::from_block(Deferred::Pad { padding, body })))
}

/// Takes the items of a stack out of an argument list, in their order.
pub fn take_stack_items(items: Vec<Arg>) -> (list: Vec<StackItem>)
    ensures
        list@ == stack_items_spec(items@),
{
    let mut items = items;
    let ghost all = items@;
    let mut list: Vec<StackItem> = Vec::new();
    while items.len() > 0
        invariant
            list@ + stack_items_spec(items@) == stack_items_spec(all),
        decreases items@.len(),
    {
        let ghost before = items@;
        let ghost sofar = list@;
        let arg = items.remove(0);
        assert(items@ =~= before.drop_first());
        if arg.name.is_none() {
            match arg.value {
                Value::Template(template) => {
                    let item = StackItem::Any(template);
                    list.push(item);
                    assert(sofar.push(item) + stack_items_spec(items@) =~= sofar + (seq![item]
                        + stack_items_spec(items@)));
                },
                value => {
                    if let Some(gap) = cast_linear(&value) {
                        let item = StackItem::Spacing(gap);
                        list.push(item);
                        assert(sofar.push(item) + stack_items_spec(items@) =~= sofar + (seq![item]
                            + stack_items_spec(items@)));
                    }
                },
            }
        }
    }
    assert(list@ + Seq::<StackItem>::empty() =~= list@);
    list
}

/// The direction pair and default gap that the arguments of `stack` ask
/// for, or the first error among them.
pub open spec fn stack_request(items: Seq<Arg>) -> Result<
    (Option<Gen<crate::geom::Direction>>, Option<Linear>),
    ArgError,
> {
    let dir = named_dirs_spec(items, Name::Dir);
    let spacing = named_linear_spec(items, Name::Spacing);
    if dir is Err {
        Err(dir->Err_0)
    } else if spacing is Err {
        Err(spacing->Err_0)
    } else {
        Ok((dir->Ok_0, spacing->Ok_0))
    }
}

/// `stack`: stacks gaps and content along a direction, as a block-level
/// node that is arranged when the template is replayed.
pub fn stack(ctx: &mut EvalContext, args: &mut Args) -> (result: Result<Value, ArgError>)
    ensures
        final(args).items@ == Seq::<Arg>::empty(),
        *final(ctx) == *old(ctx),
        match stack_request(old(args).items@) {
            Err(e) => result matches Err(got) && got == e,
            Ok(asked) => {
                &&& result matches Ok(Value::Template(template))
                &&& template@.len() == 1
                &&& template@[0] matches Op::InsertNode(
                    Level::Block,
                    Deferred::Stack { dir, spacing, list },
                )
                &&& dir == asked.0
                &&& spacing == asked.1
                &&& list@ == stack_items_spec(old(args).items@)
            },
        },
{
    let items = drain(args);
    let dir = named_dirs(&items, Name::Dir)?;
    let spacing = named_linear(&items, Name::Spacing)?;
    let list = take_stack_items(items);
    Ok(Value::Template(Template::from_block(Deferred::Stack { dir, spacing, list })))
}

/// `grid`: arranges content in tracks, as a block-level node that is
/// arranged when the template is replayed.
///
/// Columns and gutter columns lie along the inline axis, rows and gutter
/// rows along the block axis. A bare gutter serves each axis that has no
/// gutter of its own.
pub fn grid(ctx: &mut EvalContext, args: &mut Args) -> (result: Result<Value, ArgError>)
    ensures
        final(args).items@ == Seq::<Arg>::empty(),
        *final(ctx) == *old(ctx),
        match grid_error(old(args).items@) {
            Some(e) => result matches Err(got) && got == e,
            None => {
                &&& result matches Ok(Value::Template(template))
                &&& template@.len() == 1
                &&& template@[0] matches Op::InsertNode(
                    Level::Block,
                    Deferred::Grid { column_dir, row_dir, tracks, gutter, children },
                )
                &&& named_dir_spec(old(args).items@, Name::ColumnDir) == Ok::<_, ArgError>(
                    column_dir,
                )
                &&& named_dir_spec(old(args).items@, Name::RowDir) == Ok::<_, ArgError>(row_dir)
                &&& tracks.inline@ == tracks_or(
                    named_tracks_spec(old(args).items@, Name::Columns),
                    Seq::empty(),
                )
                &&& tracks.block@ == tracks_or(
                    named_tracks_spec(old(args).items@, Name::Rows),
                    Seq::empty(),
                )
                &&& gutter.inline@ == tracks_or(
                    named_tracks_spec(old(args).items@, Name::GutterColumns),
                    gutter_default(old(args).items@),
                )
                &&& gutter.block@ == tracks_or(
                    named_tracks_spec(old(args).items@, Name::GutterRows),
                    gutter_default(old(args).items@),
                )
                &&& children@ == contents_spec(old(args).items@)
            },
        },
{
    let items = drain(args);
    let columns = match named_tracks(&items, Name::Columns)? {
        Some(tracks) => tracks,
        None => Vec::new(),
    };
    let rows = match named_tracks(&items, Name::Rows)? {
        Some(tracks) => tracks,
        None => Vec::new(),
    };
    let column_dir = named_dir(&items, Name::ColumnDir)?;
    let row_dir = named_dir(&items, Name::RowDir)?;
    let gutter_columns = named_tracks(&items, Name::GutterColumns)?;
    let gutter_rows = named_tracks(&items, Name::GutterRows)?;
    let mut gutter_default: Vec<TrackSizing> = Vec::new();
    if let Some(value) = named_linear(&items, Name::Gutter)? {
        gutter_default.push(TrackSizing::Linear(value));
    }
    let gutter = Gen::new(
        match gutter_columns {
            Some(tracks) => tracks,
            None => copy_tracks(&gutter_default),
        },
        match gutter_rows {
            Some(tracks) => tracks,
            None => gutter_default,
        },
    );
    let children = take_contents(items);
    Ok(
        Value::Template(
            Template::from_block(
                Deferred::Grid {
                    column_dir,
                    row_dir,
                    tracks: Gen::new(columns, rows),
                    gutter,
                    children,
                },
            ),
        ),
    )
}

} // verus!
