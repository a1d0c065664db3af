//! Dynamically typed argument lists and the casts that validate them.

use vstd::prelude::*;
use crate::geom::{Align, Direction, Fractional, Gen, Linear, TrackSizing};
use crate::template::Template;

verus! {

/// A range of the source text, by byte offsets.
#[derive(Clone, Copy, Debug, PartialEq, Eq, Structural)]
pub struct Span {
    pub start: usize,
    pub end: usize,
}

/// A value as the evaluator hands it to a directive.
#[derive(Debug, PartialEq, Eq)]
pub enum Value {
    Nothing,
    Auto,
    Bool(bool),
    Int(i64),
    /// An absolute length, in thousandths of a point.
    Length(i64),
    /// A share of the container, in thousandths of a percent.
    Relative(i64),
    Linear(Linear),
    Fractional(Fractional),
    Str(String),
    Align(Align),
    Dir(Direction),
    Dirs(Gen<Direction>),
    Array(Vec<Value>),
    Template(Template),
}

/// The names by which directives take named arguments.
#[derive(Clone, Copy, Debug, PartialEq, Eq, Structural)]
pub enum Name {
    Width,
    Height,
    Margins,
    Left,
    Top,
    Right,
    Bottom,
    Flip,
    Horizontal,
    Vertical,
    Dir,
    Spacing,
    Columns,
    Rows,
    ColumnDir,
    RowDir,
    Gutter,
    GutterColumns,
    GutterRows,
}

/// One argument: positional where it has no name.
#[derive(Debug, PartialEq, Eq)]
pub struct Arg {
    pub span: Span,
    pub name: Option<Name>,
    pub value: Value,
}

/// The arguments of one directive call, in source order.
#[derive(Debug, PartialEq, Eq)]
pub struct Args {
    pub items: Vec<Arg>,
}

/// The set of types a slot accepts.
#[derive(Clone, Copy, Debug, PartialEq, Eq, Structural)]
pub enum Expected {
    /// A length, a relative size or a combination of both.
    Linear,
    Bool,
    Align,
    /// A single direction.
    Dir,
    /// A pair of directions.
    Dirs,
    /// A count of tracks or an array of track sizings.
    Tracks,
}

/// A required argument.
#[derive(Clone, Copy, Debug, PartialEq, Eq, Structural)]
pub enum Param {
    Spacing,
    Body,
}

/// Why a directive refused its arguments.
#[derive(Clone, Copy, Debug, PartialEq, Eq, Structural)]
pub enum ArgError {
    /// The paper name at this place is not known.
    UnknownPaper(Span),
    /// A required argument was not given.
    Missing(Param),
    /// The value at this place is of none of the accepted types.
    Mismatch(Span, Expected),
}

impl Expected {
    /// The accepted types in words.
    pub open spec fn words(self) -> Seq<char> {
        match self {
            Expected::Linear => "expected length, relative or linear"@,
            Expected::Bool => "expected boolean"@,
            Expected::Align => "expected alignment"@,
            Expected::Dir => "expected direction"@,
            Expected::Dirs => "expected pair of directions"@,
            Expected::Tracks => "expected integer or array of autos, linears, and fractionals"@,
        }
    }
}

impl ArgError {
    /// The place in the source that the error points at, if it has one.
    pub open spec fn span_spec(self) -> Option<Span> {
        match self {
            ArgError::UnknownPaper(span) => Some(span),
            ArgError::Missing(_) => None,
            ArgError::Mismatch(span, _) => Some(span),
        }
    }

    /// The place in the source that the error points at, if it has one.
    pub fn span(&self) -> (span: Option<Span>)
        ensures
            span == self.span_spec(),
    {
        match self {
            ArgError::UnknownPaper(span) => Some(*span),
            ArgError::Missing(_) => None,
            ArgError::Mismatch(span, _) => Some(*span),
        }
    }

    /// The text of the error.
    pub open spec fn message_spec(self) -> Seq<char> {
        match self {
            ArgError::UnknownPaper(_) => "invalid paper name"@,
            ArgError::Missing(Param::Spacing) => "expected spacing"@,
            ArgError::Missing(Param::Body) => "expected body"@,
            ArgError::Mismatch(_, expected) => expected.words(),
        }
    }

    /// The text of the error.
    pub fn message(&self) -> (text: String)
        ensures
            text@ == self.message_spec(),
    {
        let text = match self {
            ArgError::UnknownPaper(_) => "invalid paper name",
            ArgError::Missing(Param::Spacing) => "expected spacing",
            ArgError::Missing(Param::Body) => "expected body",
            ArgError::Mismatch(_, Expected::Linear) => "expected length, relative or linear",
            ArgError::Mismatch(_, Expected::Bool) => "expected boolean",
            ArgError::Mismatch(_, Expected::Align) => "expected alignment",
            ArgError::Mismatch(_, Expected::Dir) => "expected direction",
            ArgError::Mismatch(_, Expected::Dirs) => "expected pair of directions",
            ArgError::Mismatch(_, Expected::Tracks) => {
                "expected integer or array of autos, linears, and fractionals"
            },
        };
        text.to_owned()
    }
}

/// What to look for in an argument list.
#[derive(Clone, Copy, Debug, PartialEq, Eq, Structural)]
pub enum Want {
    /// The argument of this name.
    Named(Name),
    /// A positional template.
    Content,
    /// A positional length, relative size or linear.
    Amount,
    /// A positional string.
    Text,
    /// A positional alignment.
    Alignment,
}

/// The linear a value stands for, if any.
pub open spec fn linear_of(value: Value) -> Option<Linear> {
    match value {
        Value::Length(abs) => Some(Linear { abs, rel: 0 }),
        Value::Relative(rel) => Some(Linear { abs: 0, rel }),
        Value::Linear(linear) => Some(linear),
        _ => None,
    }
}

/// The track sizing a value stands for, if any.
pub open spec fn track_of(value: Value) -> Option<TrackSizing> {
    match value {
        Value::Auto => Some(TrackSizing::Auto),
        Value::Fractional(fr) => Some(TrackSizing::Fractional(fr)),
        _ => match linear_of(value) {
            Some(linear) => Some(TrackSizing::Linear(linear)),
            None => None,
        },
    }
}

/// The track sizings among the first `n` values, in their order; values that
/// stand for none are left out.
pub open spec fn tracks_among(values: Seq<Value>, n: nat) -> Seq<TrackSizing>
    decreases n,
{
    if n == 0 || n > values.len() {
        Seq::empty()
    } else {
        let before = tracks_among(values, (n - 1) as nat);
        match track_of(values[n - 1]) {
            Some(track) => before.push(track),
            None => before,
        }
    }
}

/// The track list a value stands for, if any: a count gives that many
/// content-driven tracks (none for a negative count), an array gives the
/// sizings among its elements.
pub open spec fn tracks_of(value: Value) -> Option<Seq<TrackSizing>> {
    match value {
        Value::Int(count) => Some(
            Seq::new(
                if count > 0 {
                    count as nat
                } else {
                    0
                },
                |i: int| TrackSizing::Auto,
            ),
        ),
        Value::Array(values) => Some(tracks_among(values@, values@.len())),
        _ => None,
    }
}

/// Whether an argument is what is looked for.
pub open spec fn wanted(arg: Arg, want: Want) -> bool {
    match want {
        Want::Named(name) => arg.name == Some(name),
        Want::Content => arg.name is None && arg.value is Template,
        Want::Amount => arg.name is None && linear_of(arg.value) is Some,
        Want::Text => arg.name is None && arg.value is Str,
        Want::Alignment => arg.name is None && arg.value is Align,
    }
}

/// The index of the first wanted argument at or after `from`.
pub open spec fn find_spec(items: Seq<Arg>, want: Want, from: nat) -> Option<nat>
    decreases items.len() - from,
{
    if from >= items.len() {
        None
    } else if wanted(items[from as int], want) {
        Some(from)
    } else {
        find_spec(items, want, from + 1)
    }
}

/// The linear given under a name: none where the name is absent, a mismatch
/// at the value's place where it is no linear.
pub open spec fn named_linear_spec(items: Seq<Arg>, name: Name) -> Result<Option<Linear>, ArgError> {
    match find_spec(items, Want::Named(name), 0) {
        None => Ok(None),
        Some(i) => match linear_of(items[i as int].value) {
            Some(linear) => Ok(Some(linear)),
            None => Err(ArgError::Mismatch(items[i as int].span, Expected::Linear)),
        },
    }
}

/// The boolean given under a name.
pub open spec fn named_bool_spec(items: Seq<Arg>, name: Name) -> Result<Option<bool>, ArgError> {
    match find_spec(items, Want::Named(name), 0) {
        None => Ok(None),
        Some(i) => match items[i as int].value {
            Value::Bool(b) => Ok(Some(b)),
            _ => Err(ArgError::Mismatch(items[i as int].span, Expected::Bool)),
        },
    }
}

/// The alignment given under a name.
pub open spec fn named_align_spec(items: Seq<Arg>, name: Name) -> Result<Option<Align>, ArgError> {
    match find_spec(items, Want::Named(name), 0) {
        None => Ok(None),
        Some(i) => match items[i as int].value {
            Value::Align(a) => Ok(Some(a)),
            _ => Err(ArgError::Mismatch(items[i as int].span, Expected::Align)),
        },
    }
}

/// The direction given under a name.
pub open spec fn named_dir_spec(items: Seq<Arg>, name: Name) -> Result<Option<Direction>, ArgError> {
    match find_spec(items, Want::Named(name), 0) {
        None => Ok(None),
        Some(i) => match items[i as int].value {
            Value::Dir(d) => Ok(Some(d)),
            _ => Err(ArgError::Mismatch(items[i as int].span, Expected::Dir)),
        },
    }
}

/// The pair of directions given under a name.
pub open spec fn named_dirs_spec(items: Seq<Arg>, name: Name) -> Result<
    Option<Gen<Direction>>,
    ArgError,
> {
    match find_spec(items, Want::Named(name), 0) {
        None => Ok(None),
        Some(i) => match items[i as int].value {
            Value::Dirs(d) => Ok(Some(d)),
            _ => Err(ArgError::Mismatch(items[i as int].span, Expected::Dirs)),
        },
    }
}

/// The track list given under a name.
pub open spec fn named_tracks_spec(items: Seq<Arg>, name: Name) -> Result<
    Option<Seq<TrackSizing>>,
    ArgError,
> {
    match find_spec(items, Want::Named(name), 0) {
        None => Ok(None),
        Some(i) => match tracks_of(items[i as int].value) {
            Some(tracks) => Ok(Some(tracks)),
            None => Err(ArgError::Mismatch(items[i as int].span, Expected::Tracks)),
        },
    }
}

/// The first positional linear, if any.
pub open spec fn amount_spec(items: Seq<Arg>) -> Option<Linear> {
    match find_spec(items, Want::Amount, 0) {
        None => None,
        Some(i) => linear_of(items[i as int].value),
    }
}

/// The first positional template, if any.
pub open spec fn content_spec(items: Seq<Arg>) -> Option<Template> {
    match find_spec(items, Want::Content, 0) {
        Some(i) => match items[i as int].value {
            Value::Template(template) => Some(template),
            _ => None,
        },
        None => None,
    }
}

/// The positional templates, in their order.
pub open spec fn contents_spec(items: Seq<Arg>) -> Seq<Template>
    decreases items.len(),
{
    if items.len() == 0 {
        Seq::empty()
    } else {
        let rest = contents_spec(items.drop_first());
        match items[0].value {
            Value::Template(template) => if items[0].name is None {
                seq![template] + rest
            } else {
                rest
            },
            _ => rest,
        }
    }
}

/// Casts a value to a linear.
pub fn cast_linear(value: &Value) -> (linear: Option<Linear>)
    ensures
        linear == linear_of(*value),
{
    match value {
        Value::Length(abs) => Some(Linear { abs: *abs, rel: 0 }),
        Value::Relative(rel) => Some(Linear { abs: 0, rel: *rel }),
        Value::Linear(linear) => Some(*linear),
        _ => None,
    }
}

/// Casts a value to a track sizing.
pub fn cast_track(value: &Value) -> (track: Option<TrackSizing>)
    ensures
        track == track_of(*value),
{
    match value {
        Value::Auto => Some(TrackSizing::Auto),
        Value::Fractional(fr) => Some(TrackSizing::Fractional(*fr)),
        _ => match cast_linear(value) {
            Some(linear) => Some(TrackSizing::Linear(linear)),
            None => None,
        },
    }
}

/// Casts a value to a track list.
pub fn cast_tracks(value: &Value) -> (tracks: Option<Vec<TrackSizing>>)
    ensures
        match tracks_of(*value) {
            Some(list) => tracks is Some && tracks->0@ == list,
            None => tracks is None,
        },
{
    match value {
        Value::Int(count) => {
            let mut tracks: Vec<TrackSizing> = Vec::new();
            let mut k: i64 = 0;
            while k < *count
                invariant
                    0 <= k,
                    k <= *count || k == 0,
                    tracks@ == Seq::new(k as nat, |i: int| TrackSizing::Auto),
                decreases *count - k,
            {
                tracks.push(TrackSizing::Auto);
                k += 1;
                assert(tracks@ =~= Seq::new(k as nat, |i: int| TrackSizing::Auto));
            }
            assert(tracks@ =~= tracks_of(*value)->0);
            Some(tracks)
        },
        Value::Array(values) => {
            let mut tracks: Vec<TrackSizing> = Vec::new();
            let n = values.len();
            let mut i: usize = 0;
            while i < n
                invariant
                    i <= n,
                    n == values@.len(),
                    tracks@ == tracks_among(values@, i as nat),
                decreases n - i,
            {
                if let Some(track) = cast_track(&values[i]) {
                    tracks.push(track);
                }
                i += 1;
            }
            Some(tracks)
        },
        _ => None,
    }
}

fn is_wanted(arg: &Arg, want: Want) -> (yes: bool)
    ensures
        yes == wanted(*arg, want),
{
    match want {
        Want::Named(name) => match arg.name {
            Some(given) => given == name,
            None => false,
        },
        Want::Content => arg.name.is_none() && matches!(arg.value, Value::Template(_)),
        Want::Amount => arg.name.is_none() && cast_linear(&arg.value).is_some(),
        Want::Text => arg.name.is_none() && matches!(arg.value, Value::Str(_)),
        Want::Alignment => arg.name.is_none() && matches!(arg.value, Value::Align(_)),
    }
}

/// Finds the first wanted argument at or after `from`.
pub fn find(items: &Vec<Arg>, want: Want, from: usize) -> (found: Option<usize>)
    ensures
        found is Some <==> find_spec(items@, want, from as nat) is Some,
        found matches Some(i) ==> find_spec(items@, want, from as nat) == Some(i as nat) && from
            <= i < items@.len() && wanted(items@[i as int], want),
{
    let n = items.len();
    let mut i: usize = from;
    while i < n
        invariant
            n == items@.len(),
            from <= i,
            find_spec(items@, want, from as nat) == find_spec(items@, want, i as nat),
        decreases n - i,
    {
        if is_wanted(&items[i], want) {
            return Some(i);
        }
        i += 1;
    }
    None
}

/// Reads the linear given under a name.
pub fn named_linear(items: &Vec<Arg>, name: Name) -> (found: Result<Option<Linear>, ArgError>)
    ensures
        found == named_linear_spec(items@, name),
{
    match find(items, Want::Named(name), 0) {
        None => Ok(None),
        Some(i) => match cast_linear(&items[i].value) {
            Some(linear) => Ok(Some(linear)),
            None => Err(ArgError::Mismatch(items[i].span, Expected::Linear)),
        },
    }
}

/// Reads the boolean given under a name.
pub fn named_bool(items: &Vec<Arg>, name: Name) -> (found: Result<Option<bool>, ArgError>)
    ensures
        found == named_bool_spec(items@, name),
{
    match find(items, Want::Named(name), 0) {
        None => Ok(None),
        Some(i) => match &items[i].value {
            Value::Bool(b) => Ok(Some(*b)),
            _ => Err(ArgError::Mismatch(items[i].span, Expected::Bool)),
        },
    }
}

/// Reads the alignment given under a name.
pub fn named_align(items: &Vec<Arg>, name: Name) -> (found: Result<Option<Align>, ArgError>)
    ensures
        found == named_align_spec(items@, name),
{
    match find(items, Want::Named(name), 0) {
        None => Ok(None),
        Some(i) => match &items[i].value {
            Value::Align(a) => Ok(Some(*a)),
            _ => Err(ArgError::Mismatch(items[i].span, Expected::Align)),
        },
    }
}

/// Reads the direction given under a name.
pub fn named_dir(items: &Vec<Arg>, name: Name) -> (found: Result<Option<Direction>, ArgError>)
    ensures
        found == named_dir_spec(items@, name),
{
    match find(items, Want::Named(name), 0) {
        None => Ok(None),
        Some(i) => match &items[i].value {
            Value::Dir(d) => Ok(Some(*d)),
            _ => Err(ArgError::Mismatch(items[i].span, Expected::Dir)),
        },
    }
}

/// Reads the pair of directions given under a name.
pub fn named_dirs(items: &Vec<Arg>, name: Name) -> (found: Result<Option<Gen<Direction>>, ArgError>)
    ensures
        found == named_dirs_spec(items@, name),
{
    match find(items, Want::Named(name), 0) {
        None => Ok(None),
        Some(i) => match &items[i].value {
            Value::Dirs(d) => Ok(Some(*d)),
            _ => Err(ArgError::Mismatch(items[i].span, Expected::Dirs)),
        },
    }
}

/// Reads the track list given under a name.
pub fn named_tracks(items: &Vec<Arg>, name: Name) -> (found: Result<
    Option<Vec<TrackSizing>>,
    ArgError,
>)
    ensures
        match named_tracks_spec(items@, name) {
            Ok(Some(list)) => found matches Ok(Some(tracks)) && tracks@ == list,
            Ok(None) => found matches Ok(None),
            Err(e) => found matches Err(got) && got == e,
        },
{
    match find(items, Want::Named(name), 0) {
        None => Ok(None),
        Some(i) => match cast_tracks(&items[i].value) {
            Some(tracks) => Ok(Some(tracks)),
            None => Err(ArgError::Mismatch(items[i].span, Expected::Tracks)),
        },
    }
}

/// Reads the first positional linear.
pub fn amount(items: &Vec<Arg>) -> (found: Option<Linear>)
    ensures
        found == amount_spec(items@),
{
    match find(items, Want::Amount, 0) {
        None => None,
        Some(i) => cast_linear(&items[i].value),
    }
}

/// Takes the first positional template out of the list.
pub fn take_content(items: &mut Vec<Arg>) -> (found: Option<Template>)
    ensures
        found == content_spec(old(items)@),
        match find_spec(old(items)@, Want::Content, 0) {
            Some(i) => final(items)@ == old(items)@.remove(i as int),
            None => final(items)@ == old(items)@,
        },
{
    match find(items, Want::Content, 0) {
        None => None,
        Some(i) => {
            let arg = items.remove(i);
            match arg.value {
                Value::Template(template) => Some(template),
                _ => None,
            }
        },
    }
}

/// Takes all positional templates out of the list, in their order.
pub fn take_contents(items: Vec<Arg>) -> (found: Vec<Template>)
    ensures
        found@ == contents_spec(items@),
{
    let mut items = items;
    let ghost all = items@;
    let mut found: Vec<Template> = Vec::new();
    while items.len() > 0
        invariant
            found@ + contents_spec(items@) == contents_spec(all),
        decreases items@.len(),
    {
        let ghost before = items@;
        let ghost sofar = found@;
        let arg = items.remove(0);
        assert(items@ =~= before.drop_first());
        if arg.name.is_none() {
            match arg.value {
                Value::Template(template) => {
                    found.push(template);
                    assert(sofar.push(template) + contents_spec(items@) =~= sofar + (seq![template]
                        + contents_spec(items@)));
                },
                _ => {},
            }
        }
    }
    assert(found@ + Seq::<Template>::empty() =~= found@);
    found
}

} // verus!
