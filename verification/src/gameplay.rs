//! The gameplay scene's interaction logic: translating pointer input into
//! cell selection and edge-of-screen scrolling.
//!
//! The host loop polls the window for events and hands them in as plain
//! values; everything decided here — which cell a click lands in, when the
//! view scrolls and by how much — is verified. Rendering is the host's.

use vstd::prelude::*;
use crate::exact::Exact;
use crate::geometry::{point_pixel, Point};
use crate::hex::Hex;
use crate::layout::{layout_wf, spec_pixel2hex, Layout};
use crate::map::hexmap::HexMap;
use crate::region::{select, Category, Region};

verus! {

/// Width in pixels of the screen-edge band that triggers scrolling.
pub const SCROLL_AREA: i64 = 5;

/// Largest window extent the scene accepts, in pixels.
pub const WINDOW_LIMIT: i64 = 65_536;

/// Largest magnitude the scrolled view origin may reach, in pixels.
pub const VIEW_LIMIT: i64 = 8_388_608;

/// Scrolling state of one screen axis.
#[derive(Debug, PartialEq, Eq, Clone, Copy, Structural)]
pub enum Scroll {
    Idle,
    Left,
    Right,
    Up,
    Down,
}

/// A pointer event, already stripped to plain values by the host loop.
#[derive(Debug, PartialEq, Eq, Clone, Copy, Structural)]
pub enum PointerEvent {
    /// The pointer moved to the given window coordinates.
    Moved(i64, i64),
    /// The left button went down.
    LeftPressed,
    /// The left button came up.
    LeftReleased,
}

/// The gameplay scene: the world map, its screen layout, the selection
/// under the cursor, and the scrolling view state.
pub struct GamePlayState {
    pub map: HexMap,
    pub layout: Layout,
    pub cursor_region: Region,
    /// Cursor position in world pixels (window position plus view origin).
    pub cursor_x: i64,
    pub cursor_y: i64,
    /// The view origin in world pixels.
    pub origin_x: i64,
    pub origin_y: i64,
    pub scroll_x: Scroll,
    pub scroll_y: Scroll,
}

/// Well-formedness: a usable layout, bounded view and cursor, and a valid
/// selection.
pub open spec fn gp_wf(g: GamePlayState) -> bool {
    &&& layout_wf(g.layout)
    &&& -VIEW_LIMIT <= g.origin_x <= VIEW_LIMIT
    &&& -VIEW_LIMIT <= g.origin_y <= VIEW_LIMIT
    &&& -(VIEW_LIMIT + WINDOW_LIMIT) <= g.cursor_x <= VIEW_LIMIT + WINDOW_LIMIT
    &&& -(VIEW_LIMIT + WINDOW_LIMIT) <= g.cursor_y <= VIEW_LIMIT + WINDOW_LIMIT
    &&& g.cursor_region.wf()
}

/// The cursor's world position as an exact pixel point.
pub open spec fn cursor_point(g: GamePlayState) -> Point {
    Point {
        x: Exact { a: g.cursor_x as i128, b: 0, d: 1 },
        y: Exact { a: g.cursor_y as i128, b: 0, d: 1 },
    }
}

/// The scroll state the x axis takes when the pointer sits at window
/// column `x`.
pub open spec fn scroll_x_of(x: int, render_w: int) -> Scroll {
    if x < SCROLL_AREA {
        Scroll::Left
    } else if x > render_w - SCROLL_AREA {
        Scroll::Right
    } else {
        Scroll::Idle
    }
}

/// The scroll state the y axis takes when the pointer sits at window row
/// `y`; the top band only scrolls while the pointer is inside the window.
pub open spec fn scroll_y_of(y: int, render_h: int) -> Scroll {
    if y < SCROLL_AREA && y > 0 {
        Scroll::Up
    } else if y > render_h - SCROLL_AREA {
        Scroll::Down
    } else {
        Scroll::Idle
    }
}

/// `v` clamped into the view range.
pub open spec fn clamp_view(v: int) -> int {
    if v < -VIEW_LIMIT {
        -VIEW_LIMIT as int
    } else if v > VIEW_LIMIT {
        VIEW_LIMIT as int
    } else {
        v
    }
}

impl GamePlayState {
    /// A fresh scene over the given map and layout: nothing selected, view
    /// at the origin, no scrolling.
    pub fn new(map: HexMap, layout: Layout) -> (g: GamePlayState)
        requires
            layout_wf(layout),
        ensures
            gp_wf(g),
            g.map == map,
            g.layout == layout,
            g.cursor_region.cells_seq() == Seq::<Hex>::empty(),
            g.cursor_region.spec_category() == Category::Neutral,
            g.cursor_x == 0 && g.cursor_y == 0,
            g.origin_x == 0 && g.origin_y == 0,
            g.scroll_x == Scroll::Idle && g.scroll_y == Scroll::Idle,
    {
        GamePlayState {
            map,
            layout,
            cursor_region: Region::new(Category::Neutral),
            cursor_x: 0,
            cursor_y: 0,
            origin_x: 0,
            origin_y: 0,
            scroll_x: Scroll::Idle,
            scroll_y: Scroll::Idle,
        }
    }

    /// One frame of view scrolling: the origin moves by
    /// `scroll_rate · dt / 1000` pixels along each scrolling axis, clamped
    /// to the view range.
    pub fn on_update(&mut self, scroll_rate: i64, dt_ms: i64)
        requires
            gp_wf(*old(self)),
            0 <= scroll_rate <= 100_000,
            0 <= dt_ms <= 100_000,
        ensures
            gp_wf(*final(self)),
            ({
                let ds = scroll_rate * dt_ms / 1000;
                &&& final(self).origin_x == (match old(self).scroll_x {
                    Scroll::Left => clamp_view(old(self).origin_x - ds),
                    Scroll::Right => clamp_view(old(self).origin_x + ds),
                    _ => old(self).origin_x as int,
                })
                &&& final(self).origin_y == (match old(self).scroll_y {
                    Scroll::Up => clamp_view(old(self).origin_y - ds),
                    Scroll::Down => clamp_view(old(self).origin_y + ds),
                    _ => old(self).origin_y as int,
                })
            }),
            final(self).map == old(self).map,
            final(self).layout == old(self).layout,
            final(self).cursor_region == old(self).cursor_region,
            final(self).cursor_x == old(self).cursor_x,
            final(self).cursor_y == old(self).cursor_y,
            final(self).scroll_x == old(self).scroll_x,
            final(self).scroll_y == old(self).scroll_y,
    {
        proof {
            assert(0 <= scroll_rate * dt_ms <= 10_000_000_000) by (nonlinear_arith)
                requires
                    0 <= scroll_rate <= 100_000 && 0 <= dt_ms <= 100_000,
            ;
        }
        let ds = scroll_rate * dt_ms / 1000;
        match self.scroll_x {
            Scroll::Left => {
                self.origin_x = clamp_view_exec(self.origin_x - ds);
            },
            Scroll::Right => {
                self.origin_x = clamp_view_exec(self.origin_x + ds);
            },
            _ => {},
        }
        match self.scroll_y {
            Scroll::Up => {
                self.origin_y = clamp_view_exec(self.origin_y - ds);
            },
            Scroll::Down => {
                self.origin_y = clamp_view_exec(self.origin_y + ds);
            },
            _ => {},
        }
    }

    /// One pointer event against a window of the given drawable size:
    /// movement tracks the cursor in world pixels and arms edge scrolling,
    /// a left press selects the cell under the cursor, a left release
    /// clears the selection.
    pub fn on_input(&mut self, input: PointerEvent, render_w: i64, render_h: i64)
        requires
            gp_wf(*old(self)),
            0 <= render_w <= WINDOW_LIMIT,
            0 <= render_h <= WINDOW_LIMIT,
            input matches PointerEvent::Moved(x, y) ==> 0 <= x <= render_w && 0 <= y <= render_h,
        ensures
            gp_wf(*final(self)),
            final(self).map == old(self).map,
            final(self).layout == old(self).layout,
            final(self).origin_x == old(self).origin_x,
            final(self).origin_y == old(self).origin_y,
            input matches PointerEvent::Moved(x, y) ==> {
                &&& final(self).cursor_x == x + old(self).origin_x
                &&& final(self).cursor_y == y + old(self).origin_y
                &&& final(self).scroll_x == scroll_x_of(x as int, render_w as int)
                &&& final(self).scroll_y == scroll_y_of(y as int, render_h as int)
                &&& final(self).cursor_region == old(self).cursor_region
            },
            input is LeftPressed ==> {
                &&& final(self).cursor_region.cells_seq() == select(
                    old(self).cursor_region.cells_seq(),
                    spec_pixel2hex(cursor_point(*old(self)), old(self).layout),
                )
                &&& final(self).cursor_region.spec_category() == old(
                    self,
                ).cursor_region.spec_category()
                &&& final(self).cursor_x == old(self).cursor_x
                &&& final(self).cursor_y == old(self).cursor_y
                &&& final(self).scroll_x == old(self).scroll_x
                &&& final(self).scroll_y == old(self).scroll_y
            },
            input is LeftReleased ==> {
                &&& final(self).cursor_region.cells_seq() == Seq::<Hex>::empty()
                &&& final(self).cursor_region.spec_category() == old(
                    self,
                ).cursor_region.spec_category()
                &&& final(self).cursor_x == old(self).cursor_x
                &&& final(self).cursor_y == old(self).cursor_y
                &&& final(self).scroll_x == old(self).scroll_x
                &&& final(self).scroll_y == old(self).scroll_y
            },
    {
        match input {
            PointerEvent::Moved(x, y) => {
                self.cursor_x = x + self.origin_x;
                self.cursor_y = y + self.origin_y;
                self.scroll_x = if x < SCROLL_AREA {
                    Scroll::Left
                } else if x > render_w - SCROLL_AREA {
                    Scroll::Right
                } else {
                    Scroll::Idle
                };
                self.scroll_y = if y < SCROLL_AREA && y > 0 {
                    Scroll::Up
                } else if y > render_h - SCROLL_AREA {
                    Scroll::Down
                } else {
                    Scroll::Idle
                };
            },
            PointerEvent::LeftPressed => {
                let p = Point {
                    x: Exact { a: self.cursor_x as i128, b: 0, d: 1 },
                    y: Exact { a: self.cursor_y as i128, b: 0, d: 1 },
                };
                proof {
                    assert(point_pixel(p));
                }
                let hex = Hex::pixel2hex(p, &self.layout);
                self.cursor_region.push(hex);
            },
            PointerEvent::LeftReleased => {
                self.cursor_region.clear();
            },
        }
    }
}

/// `v` clamped into the view range, executably.
fn clamp_view_exec(v: i64) -> (r: i64)
    requires
        -0x4000_0000_0000 <= v <= 0x4000_0000_0000,
    ensures
        r == clamp_view(v as int),
        -VIEW_LIMIT <= r <= VIEW_LIMIT,
{
    if v < -VIEW_LIMIT {
        -VIEW_LIMIT
    } else if v > VIEW_LIMIT {
        VIEW_LIMIT
    } else {
        v
    }
}

} // verus!
