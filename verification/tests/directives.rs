use layout_flow::args::{Arg, ArgError, Args, Expected, Name, Param, Span, Value};
use layout_flow::arrange::{copy_tracks, grid_dirs, stack_aligns, stack_dirs};
use layout_flow::args::{amount, cast_linear, cast_track, cast_tracks, find, take_content, Want};
use layout_flow::directives::{
    align, block, boxed, fill_slots, grid, h, pad, page, pagebreak, stack, v, EvalContext, Paper,
};
use layout_flow::geom::{
    Align, Axis, Direction, Fractional, Gen, GenAxis, Linear, Sides, TrackSizing,
};
use layout_flow::node::{FixedNode, GridNode, Node, PadNode, Placed, StackChild, StackNode};
use layout_flow::state::{
    AlignChange, Change, PageChange, PageState, PaperClass, PaperSize, Size, State,
};
use layout_flow::template::{Deferred, Level, Op, StackItem, Template};

fn pt(abs: i64) -> Linear {
    Linear { abs, rel: 0 }
}

fn span(at: usize) -> Span {
    Span { start: at, end: at + 1 }
}

fn pos(at: usize, value: Value) -> Arg {
    Arg { span: span(at), name: None, value }
}

fn named(at: usize, name: Name, value: Value) -> Arg {
    Arg { span: span(at), name: Some(name), value }
}

fn a4() -> PaperSize {
    PaperSize { class: PaperClass::Base, size: Size { w: pt(595_280), h: pt(841_890) } }
}

fn ctx() -> EvalContext {
    EvalContext {
        template: Template::new(),
        papers: vec![
            Paper { name: String::from("a4"), size: a4() },
            Paper {
                name: String::from("us-letter"),
                size: PaperSize {
                    class: PaperClass::US,
                    size: Size { w: pt(612_000), h: pt(792_000) },
                },
            },
        ],
    }
}

fn state() -> State {
    State {
        page: PageState { class: PaperClass::Base, size: Size { w: pt(100), h: pt(200) } },
        margins: Sides { left: None, top: None, right: None, bottom: None },
        aligns: Gen { block: Align::Start, inline: Align::Start },
        dirs: Gen { block: Direction::Down, inline: Direction::Right },
    }
}

fn leaf(width: i64) -> Template {
    Template::from_inline(Deferred::Fixed {
        width: Some(pt(width)),
        height: None,
        body: Template::new(),
    })
}

fn empty_stack(state: &State) -> Node {
    Node::Stack(StackNode { dirs: state.dirs, children: vec![] })
}

fn leaf_node(width: i64, state: &State) -> Node {
    Node::Stack(StackNode {
        dirs: state.dirs,
        children: vec![StackChild::Any(
            Node::Fixed(FixedNode {
                width: Some(pt(width)),
                height: None,
                aspect: None,
                child: Box::new(empty_stack(state)),
            }),
            state.aligns,
        )],
    })
}

fn template_of(value: Result<Value, ArgError>) -> Template {
    match value {
        Ok(Value::Template(template)) => template,
        other => panic!("no template: {:?}", other),
    }
}

fn only_node(template: &Template, state: State) -> Node {
    let mut stack = template.to_stack(state);
    assert_eq!(stack.children.len(), 1);
    match stack.children.remove(0) {
        StackChild::Any(node, _) => node,
        other => panic!("no node: {:?}", other),
    }
}

#[test]
fn margins_then_left() {
    let mut c = ctx();
    let mut args = Args {
        items: vec![
            named(0, Name::Margins, Value::Length(10)),
            named(1, Name::Left, Value::Length(3)),
        ],
    };
    assert_eq!(page(&mut c, &mut args), Ok(Value::Nothing));
    assert!(args.items.is_empty());
    let after = c.template.replay_state(state());
    assert_eq!(
        after.margins,
        Sides { left: Some(pt(3)), top: Some(pt(10)), right: Some(pt(10)), bottom: Some(pt(10)) }
    );
}

#[test]
fn left_then_margins() {
    let mut c = ctx();
    let mut args = Args {
        items: vec![
            named(0, Name::Left, Value::Length(3)),
            named(1, Name::Margins, Value::Length(10)),
        ],
    };
    assert_eq!(page(&mut c, &mut args), Ok(Value::Nothing));
    let after = c.template.replay_state(state());
    assert_eq!(
        after.margins,
        Sides { left: Some(pt(3)), top: Some(pt(10)), right: Some(pt(10)), bottom: Some(pt(10)) }
    );
}

#[test]
fn every_side_wins_over_margins() {
    let change = PageChange {
        margins: Some(pt(1)),
        top: Some(pt(2)),
        right: Some(pt(3)),
        bottom: Some(pt(4)),
        ..PageChange::none()
    };
    let after = change.apply(state());
    assert_eq!(
        after.margins,
        Sides { left: Some(pt(1)), top: Some(pt(2)), right: Some(pt(3)), bottom: Some(pt(4)) }
    );
}

#[test]
fn page_records_change_and_weak_break() {
    let mut c = ctx();
    let mut args = Args { items: vec![named(0, Name::Width, Value::Length(50))] };
    assert_eq!(page(&mut c, &mut args), Ok(Value::Nothing));
    assert_eq!(
        c.template.ops,
        vec![
            Op::Modify(Change::Page(PageChange { width: Some(pt(50)), ..PageChange::none() })),
            Op::PageBreak(false),
        ]
    );
    let after = c.template.replay_state(state());
    assert_eq!(after.page.class, PaperClass::Custom);
    assert_eq!(after.page.size, Size { w: pt(50), h: pt(200) });
}

#[test]
fn page_takes_paper_by_name() {
    let mut c = ctx();
    let mut args = Args { items: vec![pos(0, Value::Str(String::from("us-letter")))] };
    assert_eq!(page(&mut c, &mut args), Ok(Value::Nothing));
    let after = c.template.replay_state(state());
    assert_eq!(after.page.class, PaperClass::US);
    assert_eq!(after.page.size, Size { w: pt(612_000), h: pt(792_000) });
}

#[test]
fn page_width_overrides_paper() {
    let mut c = ctx();
    let mut args = Args {
        items: vec![
            named(0, Name::Height, Value::Length(7)),
            pos(1, Value::Str(String::from("a4"))),
        ],
    };
    assert_eq!(page(&mut c, &mut args), Ok(Value::Nothing));
    let after = c.template.replay_state(state());
    assert_eq!(after.page.class, PaperClass::Custom);
    assert_eq!(after.page.size, Size { w: pt(595_280), h: pt(7) });
}

#[test]
fn page_refuses_unknown_paper() {
    let mut c = ctx();
    let mut args = Args {
        items: vec![
            named(0, Name::Width, Value::Length(7)),
            pos(4, Value::Str(String::from("a99"))),
        ],
    };
    assert_eq!(page(&mut c, &mut args), Err(ArgError::UnknownPaper(span(4))));
    assert!(c.template.ops.is_empty());
}

#[test]
fn page_refuses_wrong_types() {
    let mut c = ctx();
    let mut args = Args { items: vec![named(2, Name::Width, Value::Bool(true))] };
    assert_eq!(page(&mut c, &mut args), Err(ArgError::Mismatch(span(2), Expected::Linear)));
    let mut args = Args { items: vec![named(3, Name::Flip, Value::Int(1))] };
    assert_eq!(page(&mut c, &mut args), Err(ArgError::Mismatch(span(3), Expected::Bool)));
    assert!(c.template.ops.is_empty());
}

#[test]
fn page_reports_first_error_in_fixed_order() {
    let mut c = ctx();
    let mut args = Args {
        items: vec![
            named(0, Name::Flip, Value::Int(1)),
            named(1, Name::Height, Value::Auto),
        ],
    };
    assert_eq!(page(&mut c, &mut args), Err(ArgError::Mismatch(span(1), Expected::Linear)));
}

#[test]
fn flip_swaps_width_and_height() {
    let mut c = ctx();
    let mut args = Args {
        items: vec![
            named(0, Name::Flip, Value::Bool(true)),
            named(1, Name::Width, Value::Length(30)),
            named(2, Name::Height, Value::Length(40)),
        ],
    };
    assert_eq!(page(&mut c, &mut args), Ok(Value::Nothing));
    let once = c.template.replay_state(state());
    assert_eq!(once.page.size, Size { w: pt(40), h: pt(30) });
    let mut args = Args { items: vec![named(0, Name::Flip, Value::Bool(true))] };
    assert_eq!(page(&mut c, &mut args), Ok(Value::Nothing));
    let twice = c.template.replay_state(state());
    assert_eq!(twice.page.size, Size { w: pt(30), h: pt(40) });
}

#[test]
fn pagebreak_is_strong() {
    let mut c = ctx();
    let mut args = Args { items: vec![] };
    assert_eq!(pagebreak(&mut c, &mut args), Ok(Value::Nothing));
    assert_eq!(c.template.ops, vec![Op::PageBreak(true)]);
}

#[test]
fn h_and_v_insert_spacing() {
    let mut c = ctx();
    let mut args = Args { items: vec![pos(0, Value::Length(5))] };
    assert_eq!(h(&mut c, &mut args), Ok(Value::Nothing));
    let mut args = Args { items: vec![pos(0, Value::Bool(true)), pos(1, Value::Relative(50))] };
    assert_eq!(v(&mut c, &mut args), Ok(Value::Nothing));
    assert_eq!(
        c.template.ops,
        vec![
            Op::InsertSpacing(GenAxis::Inline, Linear { abs: 5, rel: 0 }),
            Op::InsertSpacing(GenAxis::Block, Linear { abs: 0, rel: 50 }),
        ]
    );
}

#[test]
fn h_and_v_need_an_amount() {
    let mut c = ctx();
    let mut args = Args { items: vec![] };
    assert_eq!(h(&mut c, &mut args), Err(ArgError::Missing(Param::Spacing)));
    let mut args = Args { items: vec![named(0, Name::Spacing, Value::Length(1))] };
    assert_eq!(v(&mut c, &mut args), Err(ArgError::Missing(Param::Spacing)));
    assert!(c.template.ops.is_empty());
}

#[test]
fn align_ignores_positional_order() {
    let mut c = ctx();
    let mut args =
        Args { items: vec![pos(0, Value::Align(Align::Top)), pos(1, Value::Align(Align::Left))] };
    assert_eq!(align(&mut c, &mut args), Ok(Value::Nothing));
    let mut d = ctx();
    let mut args =
        Args { items: vec![pos(0, Value::Align(Align::Left)), pos(1, Value::Align(Align::Top))] };
    assert_eq!(align(&mut d, &mut args), Ok(Value::Nothing));
    let expected = vec![
        Op::Modify(Change::Align(AlignChange {
            horizontal: Some(Align::Left),
            vertical: Some(Align::Top),
        })),
        Op::ParBreak,
    ];
    assert_eq!(c.template.ops, expected);
    assert_eq!(d.template.ops, expected);
    let after = c.template.replay_state(state());
    assert_eq!(after.aligns, Gen { block: Align::Top, inline: Align::Left });
}

#[test]
fn align_named_wins() {
    let mut c = ctx();
    let mut args = Args {
        items: vec![
            pos(0, Value::Align(Align::Left)),
            named(1, Name::Horizontal, Value::Align(Align::Right)),
        ],
    };
    assert_eq!(align(&mut c, &mut args), Ok(Value::Nothing));
    assert_eq!(
        c.template.ops,
        vec![Op::Modify(Change::Align(AlignChange {
            horizontal: Some(Align::Right),
            vertical: None,
        }))]
    );
}

#[test]
fn align_agnostic_fills_open_slot() {
    assert_eq!(
        fill_slots(Some(Align::Center), Some(Align::End), None, None),
        AlignChange { horizontal: Some(Align::Center), vertical: Some(Align::End) }
    );
    assert_eq!(
        fill_slots(Some(Align::Center), Some(Align::Left), None, None),
        AlignChange { horizontal: Some(Align::Center), vertical: None }
    );
    assert_eq!(
        fill_slots(Some(Align::Top), Some(Align::Center), None, None),
        AlignChange { horizontal: Some(Align::Center), vertical: Some(Align::Top) }
    );
    assert_eq!(
        fill_slots(Some(Align::Center), None, Some(Align::Left), None),
        AlignChange { horizontal: Some(Align::Left), vertical: Some(Align::Center) }
    );
    assert_eq!(Align::Center.axis(), None);
    assert_eq!(Align::Bottom.axis(), Some(Axis::Vertical));
    assert_eq!(Align::Right.axis(), Some(Axis::Horizontal));
}

#[test]
fn align_refuses_wrong_type() {
    let mut c = ctx();
    let mut args = Args { items: vec![named(6, Name::Vertical, Value::Length(1))] };
    assert_eq!(align(&mut c, &mut args), Err(ArgError::Mismatch(span(6), Expected::Align)));
    assert!(c.template.ops.is_empty());
}

#[test]
fn align_with_content_is_scoped() {
    let mut c = ctx();
    let mut args = Args {
        items: vec![pos(0, Value::Align(Align::Top)), pos(1, Value::Template(leaf(1)))],
    };
    let scoped = template_of(align(&mut c, &mut args));
    assert!(c.template.ops.is_empty());
    assert_eq!(scoped.ops.len(), 4);
    assert_eq!(scoped.ops[0], Op::Save);
    assert_eq!(
        scoped.ops[1],
        Op::Modify(Change::Align(AlignChange { horizontal: None, vertical: Some(Align::Top) }))
    );
    assert_eq!(scoped.ops[3], Op::Restore);

    let mut whole = Template::new();
    whole.append(scoped);
    whole.append(leaf(2));
    let s = state();
    assert_eq!(whole.replay_state(s), s);
    let stack = whole.to_stack(s);
    assert_eq!(stack.children.len(), 2);
    match &stack.children[0] {
        StackChild::Any(_, aligns) => {
            assert_eq!(*aligns, Gen { block: Align::Top, inline: Align::Start })
        }
        other => panic!("no node: {:?}", other),
    }
    match &stack.children[1] {
        StackChild::Any(_, aligns) => assert_eq!(*aligns, s.aligns),
        other => panic!("no node: {:?}", other),
    }
}

#[test]
fn boxed_wraps_content_inline() {
    let mut c = ctx();
    let mut args = Args {
        items: vec![
            named(0, Name::Width, Value::Length(9)),
            pos(1, Value::Template(leaf(1))),
        ],
    };
    let template = template_of(boxed(&mut c, &mut args));
    assert_eq!(
        template.ops,
        vec![Op::InsertNode(
            Level::Inline,
            Deferred::Fixed { width: Some(pt(9)), height: None, body: leaf(1) }
        )]
    );
    let s = state();
    assert_eq!(
        only_node(&template, s),
        Node::Fixed(FixedNode {
            width: Some(pt(9)),
            height: None,
            aspect: None,
            child: Box::new(leaf_node(1, &s)),
        })
    );
}

#[test]
fn boxed_without_content_is_empty() {
    let mut c = ctx();
    let mut args = Args { items: vec![named(0, Name::Height, Value::Relative(5))] };
    let template = template_of(boxed(&mut c, &mut args));
    assert_eq!(
        template.ops,
        vec![Op::InsertNode(
            Level::Inline,
            Deferred::Fixed {
                width: None,
                height: Some(Linear { abs: 0, rel: 5 }),
                body: Template::new()
            }
        )]
    );
    let mut args = Args { items: vec![named(8, Name::Height, Value::Auto)] };
    assert_eq!(boxed(&mut c, &mut args), Err(ArgError::Mismatch(span(8), Expected::Linear)));
}

#[test]
fn block_needs_content() {
    let mut c = ctx();
    let mut args = Args { items: vec![pos(0, Value::Int(1))] };
    assert_eq!(block(&mut c, &mut args), Err(ArgError::Missing(Param::Body)));
    let mut args = Args { items: vec![pos(0, Value::Template(leaf(3)))] };
    let template = template_of(block(&mut c, &mut args));
    assert_eq!(
        template.ops,
        vec![Op::InsertNode(Level::Block, Deferred::Block { body: leaf(3) })]
    );
    let s = state();
    assert_eq!(only_node(&template, s), leaf_node(3, &s));
}

#[test]
fn pad_named_over_all_over_zero() {
    let mut c = ctx();
    let mut args = Args {
        items: vec![
            named(0, Name::Top, Value::Length(2)),
            pos(1, Value::Length(7)),
            pos(2, Value::Template(leaf(1))),
        ],
    };
    let template = template_of(pad(&mut c, &mut args));
    let s = state();
    assert_eq!(
        only_node(&template, s),
        Node::Pad(PadNode {
            padding: Sides { left: pt(7), top: pt(2), right: pt(7), bottom: pt(7) },
            child: Box::new(leaf_node(1, &s)),
        })
    );
    let mut args = Args {
        items: vec![named(0, Name::Right, Value::Length(2)), pos(2, Value::Template(leaf(1)))],
    };
    let template = template_of(pad(&mut c, &mut args));
    assert_eq!(
        template.ops,
        vec![Op::InsertNode(
            Level::Block,
            Deferred::Pad {
                padding: Sides { left: pt(0), top: pt(0), right: pt(2), bottom: pt(0) },
                body: leaf(1)
            }
        )]
    );
}

#[test]
fn pad_errors() {
    let mut c = ctx();
    let mut args = Args { items: vec![pos(1, Value::Length(7))] };
    assert_eq!(pad(&mut c, &mut args), Err(ArgError::Missing(Param::Body)));
    let mut args = Args {
        items: vec![named(5, Name::Bottom, Value::Str(String::from("x")))],
    };
    assert_eq!(pad(&mut c, &mut args), Err(ArgError::Mismatch(span(5), Expected::Linear)));
}

#[test]
fn stack_inserts_default_gaps() {
    let mut c = ctx();
    let mut args = Args {
        items: vec![
            pos(0, Value::Template(leaf(1))),
            named(1, Name::Spacing, Value::Length(4)),
            pos(2, Value::Template(leaf(2))),
            pos(3, Value::Template(leaf(3))),
        ],
    };
    let template = template_of(stack(&mut c, &mut args));
    let s = state();
    assert_eq!(
        only_node(&template, s),
        Node::Stack(StackNode {
            dirs: s.dirs,
            children: vec![
                StackChild::Any(leaf_node(1, &s), s.aligns),
                StackChild::Spacing(pt(4)),
                StackChild::Any(leaf_node(2, &s), s.aligns),
                StackChild::Spacing(pt(4)),
                StackChild::Any(leaf_node(3, &s), s.aligns),
            ],
        })
    );
}

#[test]
fn stack_explicit_gap_suppresses_default() {
    let mut c = ctx();
    let mut args = Args {
        items: vec![
            named(0, Name::Spacing, Value::Length(4)),
            pos(1, Value::Template(leaf(1))),
            pos(2, Value::Length(9)),
            pos(3, Value::Template(leaf(2))),
        ],
    };
    let template = template_of(stack(&mut c, &mut args));
    assert_eq!(
        template.ops,
        vec![Op::InsertNode(
            Level::Block,
            Deferred::Stack {
                dir: None,
                spacing: Some(pt(4)),
                list: vec![
                    StackItem::Any(leaf(1)),
                    StackItem::Spacing(pt(9)),
                    StackItem::Any(leaf(2))
                ]
            }
        )]
    );
    let s = state();
    assert_eq!(
        only_node(&template, s),
        Node::Stack(StackNode {
            dirs: s.dirs,
            children: vec![
                StackChild::Any(leaf_node(1, &s), s.aligns),
                StackChild::Spacing(pt(9)),
                StackChild::Any(leaf_node(2, &s), s.aligns),
            ],
        })
    );
}

#[test]
fn stack_without_spacing_has_no_gaps() {
    let mut c = ctx();
    let mut args = Args {
        items: vec![
            pos(0, Value::Length(1)),
            pos(1, Value::Template(leaf(1))),
            pos(2, Value::Template(leaf(2))),
            pos(3, Value::Bool(true)),
        ],
    };
    let template = template_of(stack(&mut c, &mut args));
    let s = state();
    assert_eq!(
        only_node(&template, s),
        Node::Stack(StackNode {
            dirs: s.dirs,
            children: vec![
                StackChild::Spacing(pt(1)),
                StackChild::Any(leaf_node(1, &s), s.aligns),
                StackChild::Any(leaf_node(2, &s), s.aligns),
            ],
        })
    );
}

#[test]
fn stack_collision_takes_ambient_block() {
    let ambient = Gen { block: Direction::Down, inline: Direction::Right };
    assert_eq!(
        stack_dirs(Some(Gen { block: Direction::Left, inline: Direction::Right }), ambient),
        Gen { block: Direction::Left, inline: Direction::Down }
    );
    assert_eq!(
        stack_dirs(Some(Gen { block: Direction::Up, inline: Direction::Down }), ambient),
        Gen { block: Direction::Up, inline: Direction::Down }
    );
    assert_eq!(
        stack_dirs(Some(Gen { block: Direction::Right, inline: Direction::Up }), ambient),
        Gen { block: Direction::Right, inline: Direction::Up }
    );
    assert_eq!(stack_dirs(None, ambient), ambient);
    assert_eq!(Direction::Up.axis(), Axis::Vertical);
    assert_eq!(Direction::Left.axis(), Axis::Horizontal);
}

#[test]
fn stack_rotated_swaps_alignments() {
    let mut s = state();
    s.aligns = Gen { block: Align::Top, inline: Align::Right };
    let rotated = Gen { block: Direction::Right, inline: Direction::Down };
    assert_eq!(stack_aligns(rotated, s), Gen { block: Align::Right, inline: Align::Top });
    assert_eq!(stack_aligns(s.dirs, s), s.aligns);

    let mut c = ctx();
    let mut args = Args {
        items: vec![
            named(0, Name::Dir, Value::Dirs(Gen { block: Direction::Left, inline: Direction::Right })),
            pos(1, Value::Template(leaf(1))),
        ],
    };
    let template = template_of(stack(&mut c, &mut args));
    assert_eq!(
        only_node(&template, s),
        Node::Stack(StackNode {
            dirs: Gen { block: Direction::Left, inline: Direction::Down },
            children: vec![StackChild::Any(
                leaf_node(1, &s),
                Gen { block: Align::Right, inline: Align::Top }
            )],
        })
    );
}

#[test]
fn stack_refuses_wrong_types() {
    let mut c = ctx();
    let mut args = Args { items: vec![named(3, Name::Dir, Value::Dir(Direction::Up))] };
    assert_eq!(stack(&mut c, &mut args), Err(ArgError::Mismatch(span(3), Expected::Dirs)));
    let mut args = Args { items: vec![named(4, Name::Spacing, Value::Auto)] };
    assert_eq!(stack(&mut c, &mut args), Err(ArgError::Mismatch(span(4), Expected::Linear)));
}

#[test]
fn grid_column_dir_makes_rows_yield() {
    let ambient = Gen { block: Direction::Down, inline: Direction::Right };
    assert_eq!(
        grid_dirs(Some(Direction::Up), None, ambient),
        Gen { block: Direction::Right, inline: Direction::Up }
    );
    assert_eq!(
        grid_dirs(None, Some(Direction::Left), ambient),
        Gen { block: Direction::Left, inline: Direction::Down }
    );
    assert_eq!(
        grid_dirs(Some(Direction::Left), Some(Direction::Right), ambient),
        Gen { block: Direction::Down, inline: Direction::Left }
    );
    assert_eq!(
        grid_dirs(Some(Direction::Left), Some(Direction::Up), ambient),
        Gen { block: Direction::Up, inline: Direction::Left }
    );
    assert_eq!(grid_dirs(None, None, ambient), ambient);
}

#[test]
fn grid_builds_tracks_gutter_and_children() {
    let mut c = ctx();
    let mut args = Args {
        items: vec![
            named(0, Name::Columns, Value::Int(3)),
            named(
                1,
                Name::Rows,
                Value::Array(vec![
                    Value::Auto,
                    Value::Bool(true),
                    Value::Length(5),
                    Value::Relative(6),
                    Value::Linear(Linear { abs: 1, rel: 2 }),
                    Value::Fractional(Fractional { parts: 2 }),
                    Value::Str(String::from("x")),
                ]),
            ),
            named(2, Name::Gutter, Value::Length(8)),
            named(3, Name::GutterRows, Value::Int(-4)),
            named(4, Name::ColumnDir, Value::Dir(Direction::Down)),
            pos(5, Value::Template(leaf(1))),
            pos(6, Value::Length(1)),
            pos(7, Value::Template(leaf(2))),
        ],
    };
    let template = template_of(grid(&mut c, &mut args));
    assert!(args.items.is_empty());
    let s = state();
    assert_eq!(
        only_node(&template, s),
        Node::Grid(GridNode {
            dirs: Gen { block: Direction::Right, inline: Direction::Down },
            tracks: Gen {
                inline: vec![TrackSizing::Auto, TrackSizing::Auto, TrackSizing::Auto],
                block: vec![
                    TrackSizing::Auto,
                    TrackSizing::Linear(pt(5)),
                    TrackSizing::Linear(Linear { abs: 0, rel: 6 }),
                    TrackSizing::Linear(Linear { abs: 1, rel: 2 }),
                    TrackSizing::Fractional(Fractional { parts: 2 }),
                ],
            },
            gutter: Gen { inline: vec![TrackSizing::Linear(pt(8))], block: vec![] },
            children: vec![leaf_node(1, &s), leaf_node(2, &s)],
        })
    );
}

#[test]
fn grid_defaults_are_empty() {
    let mut c = ctx();
    let mut args = Args { items: vec![] };
    let template = template_of(grid(&mut c, &mut args));
    let s = state();
    assert_eq!(
        only_node(&template, s),
        Node::Grid(GridNode {
            dirs: s.dirs,
            tracks: Gen { inline: vec![], block: vec![] },
            gutter: Gen { inline: vec![], block: vec![] },
            children: vec![],
        })
    );
}

#[test]
fn grid_children_keep_ambient_alignment() {
    let mut c = ctx();
    let mut args = Args {
        items: vec![
            named(0, Name::RowDir, Value::Dir(Direction::Right)),
            pos(1, Value::Template(leaf(1))),
        ],
    };
    let template = template_of(grid(&mut c, &mut args));
    let mut s = state();
    s.aligns = Gen { block: Align::Bottom, inline: Align::Center };
    match only_node(&template, s) {
        Node::Grid(node) => {
            assert_eq!(node.dirs, Gen { block: Direction::Right, inline: Direction::Down });
            assert_eq!(node.children, vec![leaf_node(1, &s)]);
        }
        other => panic!("no grid: {:?}", other),
    }
}

#[test]
fn grid_refuses_wrong_types() {
    let mut c = ctx();
    let mut args = Args { items: vec![named(1, Name::Columns, Value::Length(3))] };
    assert_eq!(grid(&mut c, &mut args), Err(ArgError::Mismatch(span(1), Expected::Tracks)));
    let mut args = Args { items: vec![named(2, Name::RowDir, Value::Align(Align::Top))] };
    assert_eq!(grid(&mut c, &mut args), Err(ArgError::Mismatch(span(2), Expected::Dir)));
    let mut args = Args { items: vec![named(3, Name::Gutter, Value::Int(3))] };
    assert_eq!(grid(&mut c, &mut args), Err(ArgError::Mismatch(span(3), Expected::Linear)));
}

#[test]
fn replay_folds_changes_in_order() {
    let first = Change::Page(PageChange { width: Some(pt(1)), ..PageChange::none() });
    let second = Change::Align(AlignChange { horizontal: Some(Align::Right), vertical: None });
    let third = Change::Page(PageChange { flip: true, ..PageChange::none() });
    let mut template = Template::new();
    template.modify(first);
    template.modify(second);
    template.modify(third);
    let s = state();
    let folded = third.apply(second.apply(first.apply(s)));
    assert_eq!(template.replay_state(s), folded);
    assert_eq!(folded.page.size, Size { w: pt(200), h: pt(1) });
    assert_eq!(folded.aligns.inline, Align::Right);
}

#[test]
fn save_and_restore_nest() {
    let wide = Change::Page(PageChange { width: Some(pt(1)), ..PageChange::none() });
    let tall = Change::Page(PageChange { height: Some(pt(2)), ..PageChange::none() });
    let mut template = Template::new();
    template.modify(wide);
    template.save();
    template.modify(tall);
    template.save();
    template.modify(Change::Page(PageChange { flip: true, ..PageChange::none() }));
    template.restore();
    let s = state();
    assert_eq!(template.replay_state(s), tall.apply(wide.apply(s)));
    template.restore();
    assert_eq!(template.replay_state(s), wide.apply(s));
    template.restore();
    assert_eq!(template.replay_state(s), wide.apply(s));
}

#[test]
fn to_stack_yields_block_spacing_and_nodes() {
    let mut template = Template::new();
    template.spacing(GenAxis::Block, pt(3));
    template.spacing(GenAxis::Inline, pt(4));
    template.parbreak();
    template.pagebreak(true);
    template.modify(Change::Align(AlignChange { horizontal: Some(Align::End), vertical: None }));
    template.append(leaf(5));
    let s = state();
    let stack = template.to_stack(s);
    assert_eq!(stack.dirs, s.dirs);
    assert_eq!(stack.children.len(), 2);
    assert_eq!(stack.children[0], StackChild::Spacing(pt(3)));
    match &stack.children[1] {
        StackChild::Any(_, aligns) => {
            assert_eq!(*aligns, Gen { block: Align::Start, inline: Align::End })
        }
        other => panic!("no node: {:?}", other),
    }
}

#[test]
fn error_messages() {
    assert_eq!(ArgError::UnknownPaper(span(0)).message(), "invalid paper name");
    assert_eq!(ArgError::Missing(Param::Spacing).message(), "expected spacing");
    assert_eq!(ArgError::Missing(Param::Body).message(), "expected body");
    assert_eq!(
        ArgError::Mismatch(span(0), Expected::Tracks).message(),
        "expected integer or array of autos, linears, and fractionals"
    );
    assert_eq!(ArgError::Mismatch(span(0), Expected::Bool).message(), "expected boolean");
    assert_eq!(ArgError::Mismatch(span(3), Expected::Dirs).span(), Some(span(3)));
    assert_eq!(ArgError::Missing(Param::Body).span(), None);
}

#[test]
fn replay_hands_on_spacing_nodes_and_breaks() {
    let mut c = ctx();
    let mut args = Args { items: vec![named(0, Name::Flip, Value::Bool(true))] };
    assert_eq!(page(&mut c, &mut args), Ok(Value::Nothing));
    let mut args = Args { items: vec![pos(0, Value::Length(5))] };
    assert_eq!(h(&mut c, &mut args), Ok(Value::Nothing));
    let mut args = Args { items: vec![pos(0, Value::Align(Align::Bottom))] };
    assert_eq!(align(&mut c, &mut args), Ok(Value::Nothing));
    let mut args = Args { items: vec![pos(0, Value::Template(leaf(1)))] };
    let blocked = template_of(block(&mut c, &mut args));
    c.template.append(blocked);
    c.template.append(leaf(2));
    let mut args = Args { items: vec![] };
    assert_eq!(pagebreak(&mut c, &mut args), Ok(Value::Nothing));

    let s = state();
    let done = c.template.replay(s);
    let mut after = s;
    after.page.size = Size { w: pt(200), h: pt(100) };
    after.aligns.block = Align::Bottom;
    assert_eq!(done.state, after);
    assert_eq!(done.state, c.template.replay_state(s));
    assert_eq!(done.items.len(), 6);
    assert_eq!(done.items[0], Placed::PageBreak(false));
    assert_eq!(done.items[1], Placed::Spacing(GenAxis::Inline, pt(5)));
    assert_eq!(done.items[2], Placed::ParBreak);
    assert_eq!(done.items[3], Placed::Node(Level::Block, leaf_node(1, &after), after.aligns));
    match &done.items[4] {
        Placed::Node(level, Node::Fixed(node), aligns) => {
            assert_eq!(*level, Level::Inline);
            assert_eq!(node.width, Some(pt(2)));
            assert_eq!(*aligns, after.aligns);
        }
        other => panic!("no box: {:?}", other),
    }
    assert_eq!(done.items[5], Placed::PageBreak(true));
}

#[test]
fn casts_accept_what_they_name() {
    assert_eq!(cast_linear(&Value::Length(3)), Some(pt(3)));
    assert_eq!(cast_linear(&Value::Relative(3)), Some(Linear { abs: 0, rel: 3 }));
    assert_eq!(cast_linear(&Value::Linear(Linear { abs: 1, rel: 2 })), Some(Linear { abs: 1, rel: 2 }));
    assert_eq!(cast_linear(&Value::Int(3)), None);
    assert_eq!(Linear::from_length(4), pt(4));
    assert_eq!(Linear::from_relative(4), Linear { abs: 0, rel: 4 });
    assert_eq!(cast_track(&Value::Auto), Some(TrackSizing::Auto));
    assert_eq!(cast_track(&Value::Length(2)), Some(TrackSizing::Linear(pt(2))));
    assert_eq!(cast_track(&Value::Nothing), None);
    assert_eq!(cast_tracks(&Value::Int(2)), Some(vec![TrackSizing::Auto, TrackSizing::Auto]));
    assert_eq!(cast_tracks(&Value::Int(0)), Some(vec![]));
    assert_eq!(cast_tracks(&Value::Int(-1)), Some(vec![]));
    assert_eq!(cast_tracks(&Value::Auto), None);
    let tracks = vec![TrackSizing::Auto, TrackSizing::Linear(pt(1))];
    assert_eq!(copy_tracks(&tracks), tracks);
}

#[test]
fn lookups_take_the_first_match() {
    let mut items = vec![
        named(0, Name::Width, Value::Length(1)),
        pos(1, Value::Bool(true)),
        pos(2, Value::Relative(7)),
        named(3, Name::Width, Value::Length(2)),
        pos(4, Value::Template(leaf(1))),
        pos(5, Value::Template(leaf(2))),
    ];
    assert_eq!(find(&items, Want::Named(Name::Width), 0), Some(0));
    assert_eq!(find(&items, Want::Named(Name::Width), 1), Some(3));
    assert_eq!(find(&items, Want::Named(Name::Height), 0), None);
    assert_eq!(find(&items, Want::Amount, 0), Some(2));
    assert_eq!(find(&items, Want::Alignment, 0), None);
    assert_eq!(amount(&items), Some(Linear { abs: 0, rel: 7 }));
    assert_eq!(take_content(&mut items), Some(leaf(1)));
    assert_eq!(items.len(), 5);
    assert_eq!(take_content(&mut items), Some(leaf(2)));
    assert_eq!(take_content(&mut items), None);
    assert_eq!(items.len(), 4);
}

#[test]
fn sides_and_pairs() {
    assert_eq!(Sides::splat(3), Sides { left: 3, top: 3, right: 3, bottom: 3 });
    assert_eq!(Sides::new(1, 2, 3, 4), Sides { left: 1, top: 2, right: 3, bottom: 4 });
    assert_eq!(Gen::new(1, 2), Gen { block: 2, inline: 1 });
    assert_eq!(Linear::zero(), pt(0));
}

#[test]
fn balance_of_saves_and_restores() {
    let mut template = Template::new();
    assert!(template.is_balanced());
    template.save();
    assert!(!template.is_balanced());
    template.parbreak();
    template.restore();
    assert!(template.is_balanced());
    template.restore();
    assert!(!template.is_balanced());
    template.save();
    assert!(!template.is_balanced());

    let mut c = ctx();
    let mut args = Args {
        items: vec![pos(0, Value::Align(Align::Top)), pos(1, Value::Template(leaf(1)))],
    };
    assert!(template_of(align(&mut c, &mut args)).is_balanced());
}
