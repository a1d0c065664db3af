//! Geometric primitives: axes, directions, alignments and sizing quantities.

use vstd::prelude::*;

verus! {

/// One of the two geometric axes of the page.
#[derive(Clone, Copy, Debug, PartialEq, Eq, Structural)]
pub enum Axis {
    Horizontal,
    Vertical,
}

/// One of the two roles an axis plays in flow layout.
#[derive(Clone, Copy, Debug, PartialEq, Eq, Structural)]
pub enum GenAxis {
    Block,
    Inline,
}

/// A geometric direction in which content is laid out.
#[derive(Clone, Copy, Debug, PartialEq, Eq, Structural)]
pub enum Direction {
    Right,
    Left,
    Down,
    Up,
}

impl Direction {
    /// The axis this direction runs along.
    pub open spec fn axis_of(self) -> Axis {
        match self {
            Direction::Right | Direction::Left => Axis::Horizontal,
            Direction::Down | Direction::Up => Axis::Vertical,
        }
    }

    /// The axis this direction runs along.
    pub fn axis(self) -> (axis: Axis)
        ensures
            axis == self.axis_of(),
    {
        match self {
            Direction::Right | Direction::Left => Axis::Horizontal,
            Direction::Down | Direction::Up => Axis::Vertical,
        }
    }
}

/// Where content is placed along an axis.
#[derive(Clone, Copy, Debug, PartialEq, Eq, Structural)]
pub enum Align {
    Start,
    Center,
    End,
    Left,
    Right,
    Top,
    Bottom,
}

impl Align {
    /// The axis this alignment is bound to, if it has one.
    pub open spec fn axis_of(self) -> Option<Axis> {
        match self {
            Align::Left | Align::Right => Some(Axis::Horizontal),
            Align::Top | Align::Bottom => Some(Axis::Vertical),
            Align::Start | Align::Center | Align::End => None,
        }
    }

    /// The axis this alignment is bound to, if it has one.
    pub fn axis(self) -> (axis: Option<Axis>)
        ensures
            axis == self.axis_of(),
    {
        match self {
            Align::Left | Align::Right => Some(Axis::Horizontal),
            Align::Top | Align::Bottom => Some(Axis::Vertical),
            Align::Start | Align::Center | Align::End => None,
        }
    }
}

/// A pair of values, one for the block axis and one for the inline axis.
#[derive(Clone, Copy, Debug, PartialEq, Eq)]
pub struct Gen<T> {
    pub block: T,
    pub inline: T,
}

impl<T> Gen<T> {
    /// A pair from its inline and block components.
    pub fn new(inline: T, block: T) -> (pair: Self)
        ensures
            pair.inline == inline,
            pair.block == block,
    {
        Gen { block, inline }
    }
}

impl<T: Copy> Gen<Option<T>> {
    /// The pair with each component that is not set taken from `other`.
    pub open spec fn or_spec(self, other: Gen<T>) -> Gen<T> {
        Gen {
            block: match self.block {
                Some(value) => value,
                None => other.block,
            },
            inline: match self.inline {
                Some(value) => value,
                None => other.inline,
            },
        }
    }

    /// The pair with each component that is not set taken from `other`.
    pub fn unwrap_or(self, other: Gen<T>) -> (pair: Gen<T>)
        ensures
            pair == self.or_spec(other),
    {
        Gen {
            block: match self.block {
                Some(value) => value,
                None => other.block,
            },
            inline: match self.inline {
                Some(value) => value,
                None => other.inline,
            },
        }
    }
}

/// Four values, one per side of a rectangle.
#[derive(Clone, Copy, Debug, PartialEq, Eq)]
pub struct Sides<T> {
    pub left: T,
    pub top: T,
    pub right: T,
    pub bottom: T,
}

impl<T: Copy> Sides<T> {
    /// Four sides from their values.
    pub fn new(left: T, top: T, right: T, bottom: T) -> (sides: Self)
        ensures
            sides == (Sides { left, top, right, bottom }),
    {
        Sides { left, top, right, bottom }
    }

    /// The same value on all four sides.
    pub fn splat(value: T) -> (sides: Self)
        ensures
            sides == (Sides { left: value, top: value, right: value, bottom: value }),
    {
        Sides { left: value, top: value, right: value, bottom: value }
    }
}

/// A size that combines an absolute length with a share of the container.
///
/// `abs` counts thousandths of a point, `rel` thousandths of a percent.
#[derive(Clone, Copy, Debug, PartialEq, Eq, Structural)]
pub struct Linear {
    pub abs: i64,
    pub rel: i64,
}

impl Linear {
    /// The size of no extent.
    pub open spec fn zero_spec() -> Linear {
        Linear { abs: 0, rel: 0 }
    }

    /// The size of no extent.
    pub fn zero() -> (size: Linear)
        ensures
            size == Linear::zero_spec(),
    {
        Linear { abs: 0, rel: 0 }
    }

    /// A purely absolute size.
    pub fn from_length(abs: i64) -> (size: Linear)
        ensures
            size == (Linear { abs, rel: 0 }),
    {
        Linear { abs, rel: 0 }
    }

    /// A size purely relative to the container.
    pub fn from_relative(rel: i64) -> (size: Linear)
        ensures
            size == (Linear { abs: 0, rel }),
    {
        Linear { abs: 0, rel }
    }
}

/// A share of the space that remains once all other tracks are sized.
#[derive(Clone, Copy, Debug, PartialEq, Eq, Structural)]
pub struct Fractional {
    pub parts: i64,
}

/// How the extent of one grid track is computed.
#[derive(Clone, Copy, Debug, PartialEq, Eq, Structural)]
pub enum TrackSizing {
    /// Driven by the content of the track.
    Auto,
    /// Absolute, relative to the container, or both.
    Linear(Linear),
    /// A share of the remaining space.
    Fractional(Fractional),
}

} // verus!
