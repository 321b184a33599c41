//! Screen rectangles, clipping, panel layout and the distance projector.
use ratatui::layout::{Constraint as LayoutConstraint, Direction, Layout};
use vstd::prelude::*;

verus! {

/// An axis-aligned region of the character grid.
#[derive(Clone, Copy, Debug, PartialEq, Eq, Structural)]
pub struct Rect {
    pub x: u16,
    pub y: u16,
    pub width: u16,
    pub height: u16,
}

impl Rect {
    /// The rectangle lies on the addressable grid: its far edges fit in a coordinate.
    pub open spec fn wf(self) -> bool {
        self.x + self.width <= u16::MAX && self.y + self.height <= u16::MAX
    }

    pub open spec fn right(self) -> int {
        self.x + self.width
    }

    pub open spec fn bottom(self) -> int {
        self.y + self.height
    }

    /// `r` lies inside `self`, edges included.
    pub open spec fn contains(self, r: Rect) -> bool {
        self.x <= r.x && r.right() <= self.right() && self.y <= r.y && r.bottom() <= self.bottom()
    }

    /// The cell `(cx, cy)` lies inside the rectangle.
    pub open spec fn has_cell(self, cx: int, cy: int) -> bool {
        self.x <= cx < self.right() && self.y <= cy < self.bottom()
    }

    /// The area left inside a one-cell border on every side.
    pub open spec fn inner_spec(self) -> Rect {
        let x = if self.x + 1 <= self.right() { self.x + 1 } else { self.right() };
        let y = if self.y + 1 <= self.bottom() { self.y + 1 } else { self.bottom() };
        let w = if self.width >= 2 { self.width - 2 } else { 0 };
        let h = if self.height >= 2 { self.height - 2 } else { 0 };
        Rect { x: x as u16, y: y as u16, width: w as u16, height: h as u16 }
    }

    pub fn new(x: u16, y: u16, width: u16, height: u16) -> (r: Rect)
        ensures
            r == (Rect { x, y, width, height }),
    {
        Rect { x, y, width, height }
    }

    /// The area inside a bordered block drawn on this rectangle.
    pub fn inner(&self) -> (r: Rect)
        requires
            self.wf(),
        ensures
            r == self.inner_spec(),
            r.wf(),
            self.contains(r),
    {
        let x = if self.width >= 1 { self.x + 1 } else { self.x };
        let y = if self.height >= 1 { self.y + 1 } else { self.y };
        let w = if self.width >= 2 { self.width - 2 } else { 0 };
        let h = if self.height >= 2 { self.height - 2 } else { 0 };
        Rect { x, y, width: w, height: h }
    }
}

pub open spec fn min_int(a: int, b: int) -> int {
    if a <= b { a } else { b }
}

pub open spec fn max_int(a: int, b: int) -> int {
    if a >= b { a } else { b }
}

/// The part of the `w` by `h` box at `(x, y)` that lies inside `area`, if any cell does.
pub open spec fn clip_spec(area: Rect, x: int, y: int, w: int, h: int) -> Option<Rect> {
    let x0 = max_int(x, area.x as int);
    let x1 = min_int(x + w, area.right());
    let y0 = max_int(y, area.y as int);
    let y1 = min_int(y + h, area.bottom());
    if x0 < x1 && y0 < y1 {
        Some(Rect { x: x0 as u16, y: y0 as u16, width: (x1 - x0) as u16, height: (y1 - y0) as u16 })
    } else {
        None
    }
}

pub proof fn lemma_clip_inside(area: Rect, x: int, y: int, w: int, h: int)
    requires
        area.wf(),
    ensures
        clip_spec(area, x, y, w, h) matches Some(r) ==> area.contains(r) && r.width > 0
            && r.height > 0 && area.has_cell(r.x as int, r.y as int),
{
}

/// Clips the `w` by `h` box at `(x, y)` to `area`.
pub fn clip(area: Rect, x: i32, y: i32, w: u16, h: u16) -> (r: Option<Rect>)
    requires
        area.wf(),
    ensures
        r == clip_spec(area, x as int, y as int, w as int, h as int),
{
    let x = x as i64;
    let y = y as i64;
    let x0: i64 = if x >= area.x as i64 { x } else { area.x as i64 };
    let x1: i64 = if x + w as i64 <= area.x as i64 + area.width as i64 {
        x + w as i64
    } else {
        area.x as i64 + area.width as i64
    };
    let y0: i64 = if y >= area.y as i64 { y } else { area.y as i64 };
    let y1: i64 = if y + h as i64 <= area.y as i64 + area.height as i64 {
        y + h as i64
    } else {
        area.y as i64 + area.height as i64
    };
    if x0 < x1 && y0 < y1 {
        Some(Rect { x: x0 as u16, y: y0 as u16, width: (x1 - x0) as u16, height: (y1 - y0) as u16 })
    } else {
        None
    }
}

/// One size rule of a panel layout.
#[derive(Clone, Copy, Debug, PartialEq, Eq, Structural)]
pub enum Constraint {
    Length(u16),
    Min(u16),
    Percentage(u16),
}

/// Every rectangle of `rs` lies on the grid and inside `area`.
pub open spec fn all_within(rs: Seq<Rect>, area: Rect) -> bool {
    forall|i: int| 0 <= i < rs.len() ==> (#[trigger] rs[i]).wf() && area.contains(rs[i])
}

pub proof fn lemma_within_concat(a: Seq<Rect>, b: Seq<Rect>, area: Rect)
    requires
        all_within(a, area),
        all_within(b, area),
    ensures
        all_within(a + b, area),
{
    assert forall|i: int| 0 <= i < (a + b).len() implies (#[trigger] (a + b)[i]).wf() && area.contains(
        (a + b)[i],
    ) by {
        if i < a.len() {
            assert((a + b)[i] == a[i]);
        } else {
            assert((a + b)[i] == b[i - a.len()]);
        }
    }
}

pub proof fn lemma_within_widen(rs: Seq<Rect>, inner: Rect, outer: Rect)
    requires
        all_within(rs, inner),
        outer.contains(inner),
    ensures
        all_within(rs, outer),
{
}

/// Relies on ratatui's `Layout::split` (no margin, no spacing, default flex): one
/// rectangle per constraint, each a full-width row band (vertical) or full-height
/// column band (horizontal) whose ends lie inside `area`. Which rectangles come
/// back is left open: the solver may pick any of several equally good splits.
#[verifier::external_body]
pub(crate) fn split(area: Rect, vertical: bool, constraints: &Vec<Constraint>) -> (r: Vec<Rect>)
    requires
        area.wf(),
    ensures
        r@.len() == constraints@.len(),
        all_within(r@, area),
        forall|i: int|
            0 <= i < r@.len() ==> (if vertical {
                r@[i].x == area.x && r@[i].width == area.width
            } else {
                r@[i].y == area.y && r@[i].height == area.height
            }),
{
    let cs = constraints.iter().map(|c| match *c {
        Constraint::Length(n) => LayoutConstraint::Length(n),
        Constraint::Min(n) => LayoutConstraint::Min(n),
        Constraint::Percentage(n) => LayoutConstraint::Percentage(n),
    });
    let dir = if vertical { Direction::Vertical } else { Direction::Horizontal };
    let whole = ratatui::layout::Rect { x: area.x, y: area.y, width: area.width, height: area.height };
    let parts = Layout::default().direction(dir).constraints(cs).split(whole);
    parts.iter().map(|p| Rect { x: p.x, y: p.y, width: p.width, height: p.height }).collect()
}


/// Visibility windows of relative distance, in thousandths of a track unit: an
/// entity is drawn only strictly between `NEAR` and `FAR`.
pub const AI_NEAR: i64 = -10000;
pub const AI_FAR: i64 = 50000;
pub const OBSTACLE_NEAR: i64 = -5000;
pub const OBSTACLE_FAR: i64 = 60000;
pub const BUILDING_NEAR: i64 = -20000;
pub const BUILDING_FAR: i64 = 60000;

/// Where the projector puts an entity: the top-left cell of its sprite, or nowhere.
#[derive(Clone, Copy, Debug, PartialEq, Eq, Structural)]
pub enum Projection {
    Visible { x: u16, y: u16 },
    Hidden,
}

/// `v` pulled into `[lo, hi]`; `lo` wins when the range is empty.
pub open spec fn clamp_int(v: int, lo: int, hi: int) -> int {
    max_int(lo, min_int(v, hi))
}

/// Rows above the bottom edge for relative distance `rel` in the window
/// `(near, far)` over `h` rows: `(rel - near) * h / (far - near)`, rounded to nearest.
pub open spec fn depth_rows(rel: int, near: int, far: int, h: int) -> int {
    (2 * (rel - near) * h + (far - near)) / (2 * (far - near))
}

/// The screen row of an entity at relative distance `rel`: farther is higher up.
pub open spec fn row_of(area: Rect, rel: int, near: int, far: int) -> int {
    area.bottom() - depth_rows(rel, near, far, area.height as int)
}

/// The column at which a sprite `ew` cells wide is centred on lane `lane`.
pub open spec fn lane_x(area: Rect, lane: int, lw: int, ew: int) -> int {
    area.x + lane * lw + lw / 2 - ew / 2
}

/// The lane column shifted by the curve and clamped so that the sprite stays inside `area`.
pub open spec fn column_of(area: Rect, lane: int, lw: int, ew: int, curve: int) -> int {
    clamp_int(lane_x(area, lane, lw, ew) + curve, area.x as int, area.right() - ew)
}

/// The projection of an entity at relative distance `rel` on lane `lane`.
pub open spec fn projection_of(
    area: Rect,
    rel: int,
    near: int,
    far: int,
    lane: int,
    lw: int,
    ew: int,
    curve: int,
) -> Projection {
    if near < rel < far && ew <= area.width && row_of(area, rel, near, far) + 1 < area.bottom() {
        Projection::Visible {
            x: column_of(area, lane, lw, ew, curve) as u16,
            y: row_of(area, rel, near, far) as u16,
        }
    } else {
        Projection::Hidden
    }
}

pub proof fn lemma_depth_rows_bounds(rel: int, near: int, far: int, h: int)
    requires
        near < rel < far,
        0 <= h,
    ensures
        0 <= depth_rows(rel, near, far, h) <= h,
{
    let span = far - near;
    let d = rel - near;
    assert(0 <= 2 * d * h) by (nonlinear_arith)
        requires
            0 < d,
            0 <= h,
    ;
    assert(2 * d * h + span < 2 * span * (h + 1)) by (nonlinear_arith)
        requires
            0 < d < span,
            0 <= h,
    ;
    let x = 2 * d * h + span;
    let z = 2 * span;
    vstd::arithmetic::div_mod::lemma_div_pos_is_pos(x, z);
    vstd::arithmetic::div_mod::lemma_fundamental_div_mod(x, z);
    vstd::arithmetic::div_mod::lemma_mod_pos_bound(x, z);
    let q = x / z;
    assert(q <= h) by (nonlinear_arith)
        requires
            x == z * q + x % z,
            0 <= x % z,
            x < z * (h + 1),
            z > 0,
    ;
    assert(depth_rows(rel, near, far, h) == q);
}

/// A visible projection puts the whole first row of the sprite inside `area`.
pub proof fn lemma_projection_inside(
    area: Rect,
    rel: int,
    near: int,
    far: int,
    lane: int,
    lw: int,
    ew: int,
    curve: int,
)
    requires
        area.wf(),
        0 < ew,
    ensures
        projection_of(area, rel, near, far, lane, lw, ew, curve) matches Projection::Visible { x, y }
            ==> area.has_cell(x as int, y as int) && x + ew <= area.right() && y + 1
            < area.bottom(),
{
    if near < rel < far {
        lemma_depth_rows_bounds(rel, near, far, area.height as int);
    }
}

/// The screen row of an entity inside the visibility window `(near, far)`.
pub fn screen_row(area: Rect, rel: i128, near: i64, far: i64) -> (r: i32)
    requires
        area.wf(),
        near < rel < far,
    ensures
        r == row_of(area, rel as int, near as int, far as int),
        area.y <= r <= area.bottom(),
{
    let span: i128 = far as i128 - near as i128;
    let d: i128 = rel - near as i128;
    let h: i128 = area.height as i128;
    assert(0 <= d * h <= span * h) by (nonlinear_arith)
        requires
            0 < d < span,
            0 <= h <= 0xffff,
    ;
    assert(span * h <= 0x1_0000_0000_0000_0000_0000) by (nonlinear_arith)
        requires
            0 < span <= 0x1_0000_0000_0000_0000,
            0 <= h <= 0xffff,
    ;
    let depth: i128 = (2 * (d * h) + span) / (2 * span);
    proof {
        lemma_depth_rows_bounds(rel as int, near as int, far as int, h as int);
        assert(2 * (d * h) == 2 * (rel - near) * h) by (nonlinear_arith)
            requires
                d == rel - near,
        ;
    }
    (area.y as i128 + h - depth) as i32
}

/// The column of a sprite `entity_width` cells wide on lane `lane`, shifted by the
/// curve and kept inside `area` (at its left edge when the sprite is wider).
pub fn lane_column(area: Rect, lane: i32, lane_width: u16, entity_width: u16, curve: i16) -> (r: i32)
    requires
        area.wf(),
    ensures
        r == column_of(area, lane as int, lane_width as int, entity_width as int, curve as int),
        area.x <= r <= area.right(),
{
    assert(-0x8000_0000 * 0xffff <= lane * lane_width <= 0x8000_0000 * 0xffff) by (nonlinear_arith)
        requires
            -0x8000_0000 <= lane <= 0x7fff_ffff,
            0 <= lane_width <= 0xffff,
    ;
    let lane_off: i64 = lane as i64 * lane_width as i64;
    let x0: i64 = area.x as i64 + lane_off + (lane_width / 2) as i64 - (entity_width / 2) as i64
        + curve as i64;
    let lo: i64 = area.x as i64;
    let hi: i64 = area.x as i64 + area.width as i64 - entity_width as i64;
    let x1: i64 = if x0 > hi { hi } else { x0 };
    let x: i64 = if x1 < lo { lo } else { x1 };
    x as i32
}

/// The distance projector: maps an entity on lane `lane` at relative distance `rel`
/// (thousandths) to the cell of its sprite's top-left corner inside `area`. The
/// result depends on the arguments alone.
pub fn project(
    area: Rect,
    rel: i128,
    near: i64,
    far: i64,
    lane: i32,
    lane_width: u16,
    entity_width: u16,
    curve: i16,
) -> (p: Projection)
    requires
        area.wf(),
        near < far,
    ensures
        p == projection_of(
            area,
            rel as int,
            near as int,
            far as int,
            lane as int,
            lane_width as int,
            entity_width as int,
            curve as int,
        ),
{
    if rel <= near as i128 || rel >= far as i128 || entity_width > area.width {
        return Projection::Hidden;
    }
    let row = screen_row(area, rel, near, far);
    if row as i64 + 1 >= area.y as i64 + area.height as i64 {
        return Projection::Hidden;
    }
    let x = lane_column(area, lane, lane_width, entity_width, curve);
    Projection::Visible { x: x as u16, y: row as u16 }
}

} // verus!
