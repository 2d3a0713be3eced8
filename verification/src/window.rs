//! Where the dock window sits on the screen: nine positions, the cycle
//! through them, and the coordinates each one stands for.

use vstd::prelude::*;

verus! {

/// One of the nine positions of the window on a monitor.
#[derive(Debug, PartialEq, Eq, Structural, Clone, Copy)]
pub enum PosINScreen {
    TopLeft,
    CenterLeft,
    BottomLeft,
    TopCenter,
    Center,
    BottomCenter,
    TopRight,
    RightCenter,
    BottomRight,
}

/// Where a position lies along one axis.
#[derive(Debug, PartialEq, Eq, Structural, Clone, Copy)]
pub enum Anchor {
    /// At the left or upper edge.
    Start,
    /// In the middle.
    Middle,
    /// At the right or lower edge.
    End,
}

impl PosINScreen {
    /// The place of a position in the cycle, from the top left corner down
    /// each column and through the columns from left to right.
    pub open spec fn index(self) -> int {
        match self {
            PosINScreen::TopLeft => 0,
            PosINScreen::CenterLeft => 1,
            PosINScreen::BottomLeft => 2,
            PosINScreen::TopCenter => 3,
            PosINScreen::Center => 4,
            PosINScreen::BottomCenter => 5,
            PosINScreen::TopRight => 6,
            PosINScreen::RightCenter => 7,
            PosINScreen::BottomRight => 8,
        }
    }

    /// The position at place `i` of the cycle.
    pub open spec fn at(i: int) -> PosINScreen {
        if i == 0 {
            PosINScreen::TopLeft
        } else if i == 1 {
            PosINScreen::CenterLeft
        } else if i == 2 {
            PosINScreen::BottomLeft
        } else if i == 3 {
            PosINScreen::TopCenter
        } else if i == 4 {
            PosINScreen::Center
        } else if i == 5 {
            PosINScreen::BottomCenter
        } else if i == 6 {
            PosINScreen::TopRight
        } else if i == 7 {
            PosINScreen::RightCenter
        } else {
            PosINScreen::BottomRight
        }
    }

    /// The position that follows in the cycle; after the last comes the
    /// first.
    pub open spec fn successor(self) -> PosINScreen {
        PosINScreen::at((self.index() + 1) % 9)
    }

    /// Where the position lies from left to right.
    pub open spec fn horizontal(self) -> Anchor {
        if self.index() < 3 {
            Anchor::Start
        } else if self.index() < 6 {
            Anchor::Middle
        } else {
            Anchor::End
        }
    }

    /// Where the position lies from top to bottom.
    pub open spec fn vertical(self) -> Anchor {
        if self.index() % 3 == 0 {
            Anchor::Start
        } else if self.index() % 3 == 1 {
            Anchor::Middle
        } else {
            Anchor::End
        }
    }

    /// The position that follows in the cycle. The position itself stays.
    pub fn next(&mut self) -> (r: PosINScreen)
        ensures
            r == old(self).successor(),
            *final(self) == *old(self),
    {
        match self {
            PosINScreen::TopLeft => PosINScreen::CenterLeft,
            PosINScreen::CenterLeft => PosINScreen::BottomLeft,
            PosINScreen::BottomLeft => PosINScreen::TopCenter,
            PosINScreen::TopCenter => PosINScreen::Center,
            PosINScreen::Center => PosINScreen::BottomCenter,
            PosINScreen::BottomCenter => PosINScreen::TopRight,
            PosINScreen::TopRight => PosINScreen::RightCenter,
            PosINScreen::RightCenter => PosINScreen::BottomRight,
            PosINScreen::BottomRight => PosINScreen::TopLeft,
        }
    }

    /// Where the position lies from left to right.
    pub fn horizontal_anchor(&self) -> (r: Anchor)
        ensures
            r == self.horizontal(),
    {
        match self {
            PosINScreen::TopLeft | PosINScreen::CenterLeft | PosINScreen::BottomLeft => {
                Anchor::Start
            },
            PosINScreen::TopCenter | PosINScreen::Center | PosINScreen::BottomCenter => {
                Anchor::Middle
            },
            PosINScreen::TopRight | PosINScreen::RightCenter | PosINScreen::BottomRight => {
                Anchor::End
            },
        }
    }

    /// Where the position lies from top to bottom.
    pub fn vertical_anchor(&self) -> (r: Anchor)
        ensures
            r == self.vertical(),
    {
        match self {
            PosINScreen::TopLeft | PosINScreen::TopCenter | PosINScreen::TopRight => {
                Anchor::Start
            },
            PosINScreen::CenterLeft | PosINScreen::Center | PosINScreen::RightCenter => {
                Anchor::Middle
            },
            PosINScreen::BottomLeft | PosINScreen::BottomCenter | PosINScreen::BottomRight => {
                Anchor::End
            },
        }
    }
}

impl Default for PosINScreen {
    /// The middle of the right edge.
    fn default() -> (r: PosINScreen)
        ensures
            r == PosINScreen::RightCenter,
    {
        PosINScreen::RightCenter
    }
}

/// The space left along one axis when a window of length `window` is put on
/// a display of length `display`.
pub open spec fn slack(display: i32, window: i32) -> int {
    display - window
}

/// The coordinate along one axis: nothing at the start, half the slack in
/// the middle (rounded towards zero), all of it at the end.
pub open spec fn offset_of(anchor: Anchor, display: i32, window: i32) -> int {
    match anchor {
        Anchor::Start => 0,
        Anchor::Middle => if slack(display, window) >= 0 {
            slack(display, window) / 2
        } else {
            -((-slack(display, window)) / 2)
        },
        Anchor::End => slack(display, window),
    }
}

/// The coordinate along one axis, where it can be had: `None` exactly when
/// the slack does not fit the coordinate's type.
pub fn axis_offset(anchor: Anchor, display: i32, window: i32) -> (r: Option<i32>)
    ensures
        r is Some <==> i32::MIN <= slack(display, window) <= i32::MAX,
        r matches Some(v) ==> v == offset_of(anchor, display, window),
{
    match display.checked_sub(window) {
        Some(rest) => {
            match anchor {
                Anchor::Start => Some(0),
                Anchor::Middle => Some(rest / 2),
                Anchor::End => Some(rest),
            }
        },
        None => None,
    }
}

/// The coordinates of the window's top left corner for position `pos`, on a
/// display of the given size and for a window of the given size. `None`
/// exactly when a slack does not fit the coordinates' type.
pub fn position_in_screen(
    display_width: i32,
    display_height: i32,
    window_width: i32,
    window_height: i32,
    pos: PosINScreen,
) -> (r: Option<(i32, i32)>)
    ensures
        r is Some <==> (i32::MIN <= slack(display_width, window_width) <= i32::MAX && i32::MIN
            <= slack(display_height, window_height) <= i32::MAX),
        r matches Some((x, y)) ==> x == offset_of(pos.horizontal(), display_width, window_width)
            && y == offset_of(pos.vertical(), display_height, window_height),
{
    let x = axis_offset(pos.horizontal_anchor(), display_width, window_width);
    let y = axis_offset(pos.vertical_anchor(), display_height, window_height);
    match (x, y) {
        (Some(x), Some(y)) => Some((x, y)),
        _ => None,
    }
}

/// The size to give the window so that it is as high as its content wants:
/// the present width with the wanted height, where there is content and
/// its wanted height differs from the present one; `None` otherwise.
pub fn adjusted_size(current: (i32, i32), wanted_height: Option<i32>) -> (r: Option<(i32, i32)>)
    ensures
        r == match wanted_height {
            Some(h) => if h != current.1 {
                Some((current.0, h))
            } else {
                None
            },
            None => None,
        },
{
    match wanted_height {
        Some(h) => {
            if current.1 != h {
                Some((current.0, h))
            } else {
                None
            }
        },
        None => None,
    }
}

/// Whether the screen can show a window with a translucent background.
#[derive(Debug, PartialEq, Eq, Structural, Clone, Copy)]
pub enum HasTransparent {
    True,
    False,
}

impl HasTransparent {
    /// Says whether it can.
    pub fn is_true(&self) -> (r: bool)
        ensures
            r == (*self == HasTransparent::True),
    {
        matches!(self, HasTransparent::True)
    }

    /// `true` where it can, `default` where it cannot.
    pub fn unwrap_or(&self, default: bool) -> (r: bool)
        ensures
            r == (*self == HasTransparent::True || default),
    {
        match self {
            HasTransparent::False => default,
            HasTransparent::True => true,
        }
    }
}

/// The position reached from `p` by going on `n` times.
pub open spec fn after_steps(p: PosINScreen, n: nat) -> PosINScreen
    decreases n,
{
    if n == 0 {
        p
    } else {
        after_steps(p, (n - 1) as nat).successor()
    }
}

/// Each position has its own place in the cycle, and going on moves one
/// place further, from the last place to the first.
pub proof fn lemma_successor(p: PosINScreen)
    ensures
        0 <= p.index() < 9,
        PosINScreen::at(p.index()) == p,
        p.successor().index() == (p.index() + 1) % 9,
        p.successor() != p,
{
}

/// Going on `n` times moves `n` places round the cycle: so nine steps, and
/// no fewer, lead back to where one began.
pub proof fn lemma_cycle_of_nine(p: PosINScreen, n: nat)
    ensures
        after_steps(p, n).index() == (p.index() + n) % 9,
        after_steps(p, n) == p <==> n % 9 == 0,
    decreases n,
{
    lemma_successor(p);
    if n > 0 {
        let q = after_steps(p, (n - 1) as nat);
        lemma_cycle_of_nine(p, (n - 1) as nat);
        lemma_successor(q);
        lemma_successor(after_steps(p, n));
    }
}

/// A window that fits the display lies within it at every position.
pub proof fn lemma_window_stays_on_display(anchor: Anchor, display: i32, window: i32)
    requires
        0 <= window <= display,
    ensures
        0 <= offset_of(anchor, display, window),
        offset_of(anchor, display, window) + window <= display,
{
}

} // verus!
