//! The zoom window: two cursors on the vector timeline surface that bound a
//! part of the clip, a finer scrubber that seeks inside that part, and the
//! drag state machine that moves the cursors.
//!
//! All positions here are local coordinates of the surface, in milli-units.

use vstd::prelude::*;
use crate::geometry::{
    FRACTION_SCALE, SURFACE_WIDTH, floor_div, span_fraction, div_floor, lemma_quotient_bounds,
};

verus! {

/// Space kept before the timeline proper for the cursors' hit targets.
pub const CURSOR_INSET: i64 = 5_000;

/// Width of the surface that maps onto the whole clip, right of the inset.
pub const USABLE_WIDTH: i64 = 90_000;

/// Where the zoom scrubber begins on the surface.
pub const ZOOM_START: i64 = 12_500;

/// Where the zoom scrubber ends on the surface.
pub const ZOOM_END: i64 = 87_500;

/// Middle of the zoom scrubber.
pub const ZOOM_MIDDLE: i64 = 50_000;

/// Starting position of the left cursor.
pub const DEFAULT_LEFT: i64 = 5_000;

/// Starting position of the right cursor.
pub const DEFAULT_RIGHT: i64 = 90_000;

/// The fraction of the clip at which a cursor at `pos` stands: the distance
/// past the inset over the usable width, not clamped.
pub open spec fn cursor_fraction(pos: int) -> int {
    span_fraction(pos, CURSOR_INSET as int, USABLE_WIDTH as int)
}

/// The fraction of the clip that the zoom scrubber seeks to when pressed at
/// `x`, with the window bounded by cursors at `left` and `right`: the window's
/// left end, plus the window's width times how far along the scrubber `x`
/// lies. Computed exactly and rounded down once.
pub open spec fn zoom_target(left: int, right: int, x: int) -> int {
    let w = ZOOM_END - ZOOM_START;
    floor_div(
        FRACTION_SCALE * ((left - CURSOR_INSET) * w + (right - left) * (x - ZOOM_START)),
        USABLE_WIDTH * w,
    )
}

/// One of the two zoom cursors.
#[derive(Clone, Copy, Debug, PartialEq, Eq, Structural)]
pub enum Cursor {
    Left,
    Right,
}

/// Which cursor, if any, is held.
#[derive(Clone, Copy, Debug, PartialEq, Eq, Structural)]
pub enum DragState {
    Idle,
    DraggingLeft,
    DraggingRight,
}

/// The cursors' positions.
#[derive(Clone, Copy, Debug, PartialEq, Eq, Structural)]
pub struct ZoomWindow {
    pub left: i64,
    pub right: i64,
}

impl ZoomWindow {
    /// Both cursors lie on the surface, the left one strictly first.
    pub open spec fn wf(self) -> bool {
        0 <= self.left < self.right <= SURFACE_WIDTH
    }
}

/// A zoom timeline: the window and the drag in progress on it.
#[derive(Clone, Copy, Debug, PartialEq, Eq, Structural)]
pub struct ZoomTimeline {
    pub window: ZoomWindow,
    pub drag: DragState,
}

impl ZoomTimeline {
    pub open spec fn wf(self) -> bool {
        self.window.wf()
    }

    /// Pressing on a cursor holds it, unless one is held already.
    pub open spec fn after_grab(self, c: Cursor) -> ZoomTimeline {
        if self.drag == DragState::Idle {
            ZoomTimeline {
                window: self.window,
                drag: match c {
                    Cursor::Left => DragState::DraggingLeft,
                    Cursor::Right => DragState::DraggingRight,
                },
            }
        } else {
            self
        }
    }

    /// The pointer moving to `x` carries the held cursor with it. A cursor
    /// stays on the surface and never reaches the other one: the left cursor
    /// is held within `[0, right - 1]`, the right within
    /// `[left + 1, SURFACE_WIDTH]`. Nothing moves while no cursor is held.
    pub open spec fn after_move(self, x: int) -> ZoomTimeline {
        match self.drag {
            DragState::Idle => self,
            DragState::DraggingLeft => ZoomTimeline {
                window: ZoomWindow {
                    left: (if x < 0 {
                        0
                    } else if x >= self.window.right {
                        self.window.right - 1
                    } else {
                        x
                    }) as i64,
                    right: self.window.right,
                },
                drag: self.drag,
            },
            DragState::DraggingRight => ZoomTimeline {
                window: ZoomWindow {
                    left: self.window.left,
                    right: (if x > SURFACE_WIDTH {
                        SURFACE_WIDTH as int
                    } else if x <= self.window.left {
                        self.window.left + 1
                    } else {
                        x
                    }) as i64,
                },
                drag: self.drag,
            },
        }
    }

    /// Releasing the pointer, or the pointer leaving the tracking surface,
    /// lets go of any cursor; the cursors stay where they are.
    pub open spec fn after_release(self) -> ZoomTimeline {
        ZoomTimeline { window: self.window, drag: DragState::Idle }
    }

    /// Cursors at their starting positions, none held.
    pub fn new() -> (r: ZoomTimeline)
        ensures
            r.wf(),
            r.window == (ZoomWindow { left: DEFAULT_LEFT, right: DEFAULT_RIGHT }),
            r.drag == DragState::Idle,
    {
        ZoomTimeline {
            window: ZoomWindow { left: DEFAULT_LEFT, right: DEFAULT_RIGHT },
            drag: DragState::Idle,
        }
    }

    /// A press on cursor `c`.
    pub fn grab(&mut self, c: Cursor)
        ensures
            *final(self) == old(self).after_grab(c),
    {
        if self.drag == DragState::Idle {
            self.drag = match c {
                Cursor::Left => DragState::DraggingLeft,
                Cursor::Right => DragState::DraggingRight,
            };
        }
    }

    /// The pointer moved to `x` on the surface.
    pub fn pointer_move(&mut self, x: i32)
        requires
            old(self).wf(),
        ensures
            *final(self) == old(self).after_move(x as int),
            final(self).wf(),
    {
        let x: i64 = x as i64;
        match self.drag {
            DragState::Idle => {},
            DragState::DraggingLeft => {
                self.window.left = if x < 0 {
                    0
                } else if x >= self.window.right {
                    self.window.right - 1
                } else {
                    x
                };
            },
            DragState::DraggingRight => {
                self.window.right = if x > SURFACE_WIDTH {
                    SURFACE_WIDTH
                } else if x <= self.window.left {
                    self.window.left + 1
                } else {
                    x
                };
            },
        }
    }

    /// The pointer was released.
    pub fn pointer_up(&mut self)
        ensures
            *final(self) == old(self).after_release(),
    {
        self.drag = DragState::Idle;
    }

    /// The pointer left the tracking surface. Pointer capture cannot be
    /// counted on to deliver the release elsewhere, so this ends the drag as
    /// a release does.
    pub fn pointer_leave(&mut self)
        ensures
            *final(self) == old(self).after_release(),
    {
        self.drag = DragState::Idle;
    }

    /// The fraction of the clip that the zoom scrubber seeks to when pressed
    /// at `x`; not clamped.
    pub fn zoom_seek_fraction(&self, x: i32) -> (r: i64)
        requires
            self.wf(),
        ensures
            r == zoom_target(self.window.left as int, self.window.right as int, x as int),
    {
        let l: i128 = self.window.left as i128;
        let rt: i128 = self.window.right as i128;
        let w: i128 = (ZOOM_END - ZOOM_START) as i128;
        let a: i128 = (l - CURSOR_INSET as i128) * w;
        let span: i128 = rt - l;
        let dx: i128 = x as i128 - ZOOM_START as i128;
        assert(-0x100_0000_0000_0000 <= span * dx <= 0x100_0000_0000_0000) by (nonlinear_arith)
            requires
                0 < span <= 100_000,
                -0x1_0000_0000 <= dx <= 0x1_0000_0000,
        ;
        let n: i128 = a + span * dx;
        let b: i128 = 0x200_0000_0000_0000;
        assert(-(b * FRACTION_SCALE) <= FRACTION_SCALE * n <= b * FRACTION_SCALE) by (nonlinear_arith)
            requires
                -b <= n <= b,
        ;
        let q = div_floor(FRACTION_SCALE as i128 * n, USABLE_WIDTH as i128 * w);
        proof {
            lemma_quotient_bounds(FRACTION_SCALE * n, USABLE_WIDTH * w, FRACTION_SCALE as int, b as int);
        }
        q as i64
    }
}

} // verus!

verus! {

/// `(a * k) / (b * k) == a / b` for positive `b` and `k`.
proof fn lemma_cancel_common_factor(a: int, b: int, k: int)
    requires
        b > 0,
        k > 0,
    ensures
        floor_div(a * k, b * k) == floor_div(a, b),
{
    vstd::arithmetic::div_mod::lemma_fundamental_div_mod(a, b);
    let q = a / b;
    let r = a % b;
    assert(a * k == q * (b * k) + r * k && 0 <= r * k < b * k) by (nonlinear_arith)
        requires
            a == b * q + r,
            0 <= r < b,
            k > 0,
    ;
    vstd::arithmetic::div_mod::lemma_fundamental_div_mod_converse(a * k, b * k, q, r * k);
}

/// Pointer moves to each position of `xs` in turn.
pub open spec fn after_moves(t: ZoomTimeline, xs: Seq<int>) -> ZoomTimeline
    decreases xs.len(),
{
    if xs.len() == 0 {
        t
    } else {
        after_moves(t.after_move(xs[0]), xs.drop_first())
    }
}

/// While the left cursor is held, any run of pointer moves changes the left
/// cursor only, never the right one; and leaving the surface then ends the
/// drag with no release, keeping both cursors where they are.
pub proof fn lemma_left_drag_moves_left_only(t: ZoomTimeline, xs: Seq<int>)
    requires
        t.drag == DragState::Idle,
    ensures
        after_moves(t.after_grab(Cursor::Left), xs).window.right == t.window.right,
        after_moves(t.after_grab(Cursor::Left), xs).drag == DragState::DraggingLeft,
        after_moves(t.after_grab(Cursor::Left), xs).after_release().drag == DragState::Idle,
        after_moves(t.after_grab(Cursor::Left), xs).after_release().window == after_moves(
            t.after_grab(Cursor::Left),
            xs,
        ).window,
    decreases xs.len(),
{
    if xs.len() > 0 {
        let t1 = t.after_grab(Cursor::Left).after_move(xs[0]);
        let t0 = ZoomTimeline { window: t1.window, drag: DragState::Idle };
        assert(t0.after_grab(Cursor::Left) == t1);
        lemma_left_drag_moves_left_only(t0, xs.drop_first());
    }
}

/// The same for the right cursor: moves change the right cursor only.
pub proof fn lemma_right_drag_moves_right_only(t: ZoomTimeline, xs: Seq<int>)
    requires
        t.drag == DragState::Idle,
    ensures
        after_moves(t.after_grab(Cursor::Right), xs).window.left == t.window.left,
        after_moves(t.after_grab(Cursor::Right), xs).drag == DragState::DraggingRight,
    decreases xs.len(),
{
    if xs.len() > 0 {
        let t1 = t.after_grab(Cursor::Right).after_move(xs[0]);
        let t0 = ZoomTimeline { window: t1.window, drag: DragState::Idle };
        assert(t0.after_grab(Cursor::Right) == t1);
        lemma_right_drag_moves_right_only(t0, xs.drop_first());
    }
}

/// From an idle timeline whose right cursor lies past `l`: dragging the left
/// cursor to `l`, then the right cursor to `r` (`l < r`, both on the surface),
/// leaves the window at exactly `[l, r]`; pressing the zoom scrubber at its
/// middle then seeks to the middle of that window, the mean of the two
/// cursors' fractions of the clip.
pub proof fn lemma_zoom_middle_after_drags(t: ZoomTimeline, l: int, r: int)
    requires
        t.wf(),
        t.drag == DragState::Idle,
        0 <= l < r <= SURFACE_WIDTH,
        l < t.window.right,
    ensures
        ({
            let t2 = t.after_grab(Cursor::Left).after_move(l).after_release().after_grab(
                Cursor::Right,
            ).after_move(r).after_release();
            &&& t2.window == (ZoomWindow { left: l as i64, right: r as i64 })
            &&& t2.drag == DragState::Idle
        }),
        zoom_target(l, r, ZOOM_MIDDLE as int) == floor_div(
            FRACTION_SCALE * ((l - CURSOR_INSET) + (r - CURSOR_INSET)),
            2 * USABLE_WIDTH,
        ),
{
    let k: int = 37_500;
    let a: int = FRACTION_SCALE * ((l - CURSOR_INSET) + (r - CURSOR_INSET));
    assert(FRACTION_SCALE * ((l - CURSOR_INSET) * (ZOOM_END - ZOOM_START) + (r - l) * (
    ZOOM_MIDDLE - ZOOM_START)) == a * k) by (nonlinear_arith)
        requires
            k == 37_500,
            a == 1_000_000 * ((l - 5_000) + (r - 5_000)),
            FRACTION_SCALE == 1_000_000,
            CURSOR_INSET == 5_000,
            ZOOM_END - ZOOM_START == 75_000,
            ZOOM_MIDDLE - ZOOM_START == 37_500,
    ;
    assert(USABLE_WIDTH * (ZOOM_END - ZOOM_START) == (2 * USABLE_WIDTH) * k);
    lemma_cancel_common_factor(a, 2 * USABLE_WIDTH, k);
}

/// A window spanning the whole usable width makes the zoom scrubber seek
/// exactly as the primary scrubber does at the same relative position.
pub proof fn lemma_full_window_matches_primary(x: int)
    ensures
        zoom_target(CURSOR_INSET as int, CURSOR_INSET + USABLE_WIDTH, x) == span_fraction(
            x,
            ZOOM_START as int,
            ZOOM_END - ZOOM_START,
        ),
{
    let a: int = FRACTION_SCALE * (x - ZOOM_START);
    assert(FRACTION_SCALE * ((CURSOR_INSET - CURSOR_INSET) * (ZOOM_END - ZOOM_START) + (
    USABLE_WIDTH) * (x - ZOOM_START)) == a * USABLE_WIDTH) by (nonlinear_arith)
        requires
            a == 1_000_000 * (x - 12_500),
            FRACTION_SCALE == 1_000_000,
            ZOOM_START == 12_500,
            USABLE_WIDTH == 90_000,
    ;
    assert(USABLE_WIDTH * (ZOOM_END - ZOOM_START) == (ZOOM_END - ZOOM_START) * USABLE_WIDTH);
    lemma_cancel_common_factor(a, ZOOM_END - ZOOM_START, USABLE_WIDTH as int);
}

} // verus!
