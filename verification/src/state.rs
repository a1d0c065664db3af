//! The ambient layout state and the changes that directives make to it.

use vstd::prelude::*;
use crate::geom::{Align, Direction, Gen, Linear, Sides};

verus! {

/// The family a paper size belongs to.
#[derive(Clone, Copy, Debug, PartialEq, Eq, Structural)]
pub enum PaperClass {
    Custom,
    Base,
    US,
    Newspaper,
    Book,
}

/// Width and height of a page.
#[derive(Clone, Copy, Debug, PartialEq, Eq, Structural)]
pub struct Size {
    pub w: Linear,
    pub h: Linear,
}

/// Class and size of the current page.
#[derive(Clone, Copy, Debug, PartialEq, Eq, Structural)]
pub struct PageState {
    pub class: PaperClass,
    pub size: Size,
}

/// The configuration that is threaded through evaluation and replay.
#[derive(Clone, Copy, Debug, PartialEq, Eq)]
pub struct State {
    pub page: PageState,
    pub margins: Sides<Option<Linear>>,
    pub aligns: Gen<Align>,
    pub dirs: Gen<Direction>,
}

impl State {
    /// Whether the block and inline directions run along different axes.
    pub open spec fn orthogonal(self) -> bool {
        self.dirs.block.axis_of() != self.dirs.inline.axis_of()
    }
}

/// Class and size that a named paper stands for.
#[derive(Clone, Copy, Debug, PartialEq, Eq, Structural)]
pub struct PaperSize {
    pub class: PaperClass,
    pub size: Size,
}

/// What one `page` directive asks for.
#[derive(Clone, Copy, Debug, PartialEq, Eq)]
pub struct PageChange {
    pub paper: Option<PaperSize>,
    pub width: Option<Linear>,
    pub height: Option<Linear>,
    pub margins: Option<Linear>,
    pub left: Option<Linear>,
    pub top: Option<Linear>,
    pub right: Option<Linear>,
    pub bottom: Option<Linear>,
    pub flip: bool,
}

/// What one `align` directive asks for.
#[derive(Clone, Copy, Debug, PartialEq, Eq)]
pub struct AlignChange {
    pub horizontal: Option<Align>,
    pub vertical: Option<Align>,
}

/// A deferred mutation of the state, applied when the template is replayed.
#[derive(Clone, Copy, Debug, PartialEq, Eq)]
pub enum Change {
    Page(PageChange),
    Align(AlignChange),
}

/// The side value after a blanket value and a per-side value were given:
/// the per-side value wins, then the blanket one, else the side is kept.
pub open spec fn margin_after(
    before: Option<Linear>,
    all: Option<Linear>,
    side: Option<Linear>,
) -> Option<Linear> {
    if side is Some {
        side
    } else if all is Some {
        all
    } else {
        before
    }
}

fn pick_margin(before: Option<Linear>, all: Option<Linear>, side: Option<Linear>) -> (after: Option<
    Linear,
>)
    ensures
        after == margin_after(before, all, side),
{
    if side.is_some() {
        side
    } else if all.is_some() {
        all
    } else {
        before
    }
}

impl PageChange {
    /// The change that asks for nothing.
    pub open spec fn none_spec() -> PageChange {
        PageChange {
            paper: None,
            width: None,
            height: None,
            margins: None,
            left: None,
            top: None,
            right: None,
            bottom: None,
            flip: false,
        }
    }

    /// The change that asks for nothing.
    pub fn none() -> (change: PageChange)
        ensures
            change == PageChange::none_spec(),
    {
        PageChange {
            paper: None,
            width: None,
            height: None,
            margins: None,
            left: None,
            top: None,
            right: None,
            bottom: None,
            flip: false,
        }
    }

    /// The page class once paper, width and height are decided.
    pub open spec fn class_after(self, before: PageState) -> PaperClass {
        if self.width is Some || self.height is Some {
            PaperClass::Custom
        } else if let Some(paper) = self.paper {
            paper.class
        } else {
            before.class
        }
    }

    /// The page size before any flip: an explicit dimension overrides the
    /// paper's, which overrides the current one.
    pub open spec fn size_unflipped(self, before: PageState) -> Size {
        let base = if let Some(paper) = self.paper {
            paper.size
        } else {
            before.size
        };
        Size {
            w: if let Some(w) = self.width {
                w
            } else {
                base.w
            },
            h: if let Some(h) = self.height {
                h
            } else {
                base.h
            },
        }
    }

    /// The page size: decided as above, then width and height swapped when a
    /// flip is asked for.
    pub open spec fn size_after(self, before: PageState) -> Size {
        let size = self.size_unflipped(before);
        if self.flip {
            Size { w: size.h, h: size.w }
        } else {
            size
        }
    }

    /// The margins after the change.
    pub open spec fn margins_after(self, before: Sides<Option<Linear>>) -> Sides<Option<Linear>> {
        Sides {
            left: margin_after(before.left, self.margins, self.left),
            top: margin_after(before.top, self.margins, self.top),
            right: margin_after(before.right, self.margins, self.right),
            bottom: margin_after(before.bottom, self.margins, self.bottom),
        }
    }

    /// The state after the change: page and margins as above, the rest kept.
    pub open spec fn applied(self, state: State) -> State {
        State {
            page: PageState {
                class: self.class_after(state.page),
                size: self.size_after(state.page),
            },
            margins: self.margins_after(state.margins),
            aligns: state.aligns,
            dirs: state.dirs,
        }
    }

    /// Applies the change to a state.
    pub fn apply(&self, state: State) -> (after: State)
        ensures
            after == self.applied(state),
    {
        let mut page = state.page;
        if let Some(paper) = self.paper {
            page.class = paper.class;
            page.size = paper.size;
        }
        if let Some(width) = self.width {
            page.class = PaperClass::Custom;
            page.size.w = width;
        }
        if let Some(height) = self.height {
            page.class = PaperClass::Custom;
            page.size.h = height;
        }
        let margins = Sides {
            left: pick_margin(state.margins.left, self.margins, self.left),
            top: pick_margin(state.margins.top, self.margins, self.top),
            right: pick_margin(state.margins.right, self.margins, self.right),
            bottom: pick_margin(state.margins.bottom, self.margins, self.bottom),
        };
        if self.flip {
            let w = page.size.w;
            page.size.w = page.size.h;
            page.size.h = w;
        }
        State { page, margins, aligns: state.aligns, dirs: state.dirs }
    }
}

impl AlignChange {
    /// The state after the change: a horizontal value sets the inline
    /// alignment, a vertical value the block alignment.
    pub open spec fn applied(self, state: State) -> State {
        State {
            page: state.page,
            margins: state.margins,
            aligns: Gen {
                block: if let Some(v) = self.vertical {
                    v
                } else {
                    state.aligns.block
                },
                inline: if let Some(h) = self.horizontal {
                    h
                } else {
                    state.aligns.inline
                },
            },
            dirs: state.dirs,
        }
    }

    /// Applies the change to a state.
    pub fn apply(&self, state: State) -> (after: State)
        ensures
            after == self.applied(state),
    {
        let mut aligns = state.aligns;
        if let Some(h) = self.horizontal {
            aligns.inline = h;
        }
        if let Some(v) = self.vertical {
            aligns.block = v;
        }
        State { page: state.page, margins: state.margins, aligns, dirs: state.dirs }
    }
}

impl Change {
    /// The state after the change.
    pub open spec fn applied(self, state: State) -> State {
        match self {
            Change::Page(c) => c.applied(state),
            Change::Align(c) => c.applied(state),
        }
    }

    /// Applies the change to a state.
    pub fn apply(&self, state: State) -> (after: State)
        ensures
            after == self.applied(state),
    {
        match self {
            Change::Page(c) => c.apply(state),
            Change::Align(c) => c.apply(state),
        }
    }
}

} // verus!
