use vstd::arithmetic::div_mod::lemma_fundamental_div_mod_converse;
use vstd::prelude::*;

verus! {

/// Fixed-point unit of normalized media coordinates: `NORM_ONE` stands for 1.0.
pub const NORM_ONE: i64 = 1_000_000;

/// Largest magnitude of a display coordinate or extent, in display pixels.
pub const DISPLAY_LIMIT: i64 = 1_000_000_000;

/// Largest media width or height, in pixels.
pub const MEDIA_SIZE_LIMIT: i64 = 1_000_000;

/// A point in display pixels.
#[derive(Clone, Copy, PartialEq, Eq, Structural, Debug)]
pub struct Point {
    pub x: i64,
    pub y: i64,
}

/// A point in normalized media coordinates: `(0, 0)` is the frame's top-left
/// corner, `(NORM_ONE, NORM_ONE)` its bottom-right. A pointer outside the
/// frame gives coordinates outside that square.
#[derive(Clone, Copy, PartialEq, Eq, Structural, Debug)]
pub struct NormPoint {
    pub x: i64,
    pub y: i64,
}

/// A crop: a sub-rectangle of the media frame in normalized coordinates.
#[derive(Clone, Copy, PartialEq, Eq, Structural, Debug)]
pub struct NormRect {
    pub min_x: i64,
    pub min_y: i64,
    pub max_x: i64,
    pub max_y: i64,
}

/// An axis-aligned rectangle in display pixels.
#[derive(Clone, Copy, PartialEq, Eq, Structural, Debug)]
pub struct DisplayRect {
    pub min_x: i64,
    pub min_y: i64,
    pub width: i64,
    pub height: i64,
}

impl Point {
    pub open spec fn in_display_range(&self) -> bool {
        -DISPLAY_LIMIT <= self.x <= DISPLAY_LIMIT && -DISPLAY_LIMIT <= self.y <= DISPLAY_LIMIT
    }
}

impl NormPoint {
    /// Inside the media frame.
    pub open spec fn in_frame(&self) -> bool {
        0 <= self.x <= NORM_ONE && 0 <= self.y <= NORM_ONE
    }
}

impl NormRect {
    /// All four components lie in `[0, NORM_ONE]` and the minimum is not past
    /// the maximum on either axis.
    pub open spec fn wf(&self) -> bool {
        &&& 0 <= self.min_x <= self.max_x <= NORM_ONE
        &&& 0 <= self.min_y <= self.max_y <= NORM_ONE
    }
}

impl DisplayRect {
    /// Both corners and the extents lie within the display limits.
    pub open spec fn in_display_range(&self) -> bool {
        &&& 0 <= self.width <= DISPLAY_LIMIT
        &&& 0 <= self.height <= DISPLAY_LIMIT
        &&& -DISPLAY_LIMIT <= self.min_x
        &&& self.min_x + self.width <= DISPLAY_LIMIT
        &&& -DISPLAY_LIMIT <= self.min_y
        &&& self.min_y + self.height <= DISPLAY_LIMIT
    }

    /// A rectangle that a point can be mapped through: non-empty, and no wider
    /// or taller than normalized coordinates can resolve.
    pub open spec fn is_mappable(&self) -> bool {
        &&& self.in_display_range()
        &&& 0 < self.width <= NORM_ONE
        &&& 0 < self.height <= NORM_ONE
    }

    pub open spec fn contains(&self, p: Point) -> bool {
        &&& self.min_x <= p.x <= self.min_x + self.width
        &&& self.min_y <= p.y <= self.min_y + self.height
    }
}

/// `a / b` rounded up, for `b > 0`.
pub open spec fn ceil_div(a: int, b: int) -> int {
    if a % b == 0 {
        a / b
    } else {
        a / b + 1
    }
}

/// `v` clamped into `[lo, hi]`.
pub open spec fn clamp(v: int, lo: int, hi: int) -> int {
    if v < lo {
        lo
    } else if v > hi {
        hi
    } else {
        v
    }
}

pub open spec fn min(a: int, b: int) -> int {
    if a <= b {
        a
    } else {
        b
    }
}

pub open spec fn max(a: int, b: int) -> int {
    if a >= b {
        a
    } else {
        b
    }
}

/// Display coordinate `p` on an axis where the frame spans `[lo, lo + len]`,
/// in normalized coordinates, rounded up.
pub open spec fn axis_to_norm(p: int, lo: int, len: int) -> int {
    ceil_div((p - lo) * NORM_ONE, len)
}

/// Normalized coordinate `n` on an axis where the frame spans `[lo, lo + len]`,
/// in display coordinates, rounded down.
pub open spec fn axis_from_norm(n: int, lo: int, len: int) -> int {
    lo + (n * len) / (NORM_ONE as int)
}

pub open spec fn to_norm_spec(r: DisplayRect, p: Point) -> NormPoint {
    NormPoint {
        x: axis_to_norm(p.x as int, r.min_x as int, r.width as int) as i64,
        y: axis_to_norm(p.y as int, r.min_y as int, r.height as int) as i64,
    }
}

pub open spec fn from_norm_spec(r: DisplayRect, n: NormPoint) -> Point {
    Point {
        x: axis_from_norm(n.x as int, r.min_x as int, r.width as int) as i64,
        y: axis_from_norm(n.y as int, r.min_y as int, r.height as int) as i64,
    }
}

proof fn lemma_floor_div(x: int, d: int, q: int)
    requires
        d > 0,
        q * d <= x < q * d + d,
    ensures
        x / d == q,
{
    lemma_fundamental_div_mod_converse(x, d, q, x - q * d);
}

proof fn lemma_axis_to_norm_bounds(p: int, lo: int, len: int)
    requires
        0 < len <= DISPLAY_LIMIT,
        -DISPLAY_LIMIT <= p <= DISPLAY_LIMIT,
        -DISPLAY_LIMIT <= lo <= DISPLAY_LIMIT,
    ensures
        -3 * DISPLAY_LIMIT * NORM_ONE <= axis_to_norm(p, lo, len) <= 3 * DISPLAY_LIMIT
            * NORM_ONE,
{
    let a = (p - lo) * NORM_ONE;
    assert(-2 * DISPLAY_LIMIT * NORM_ONE <= a <= 2 * DISPLAY_LIMIT * NORM_ONE) by (nonlinear_arith)
        requires
            a == (p - lo) * NORM_ONE,
            -2 * DISPLAY_LIMIT <= p - lo <= 2 * DISPLAY_LIMIT,
    ;
    let q = a / len;
    let r = a % len;
    vstd::arithmetic::div_mod::lemma_fundamental_div_mod(a, len);
    assert(0 <= r < len);
    assert(-2 * DISPLAY_LIMIT * NORM_ONE - 1 <= q <= 2 * DISPLAY_LIMIT * NORM_ONE) by (nonlinear_arith)
        requires
            a == len * q + r,
            0 <= r < len,
            0 < len,
            -2 * DISPLAY_LIMIT * NORM_ONE <= a <= 2 * DISPLAY_LIMIT * NORM_ONE,
    ;
}

fn axis_to_norm_exec(p: i64, lo: i64, len: i64) -> (n: i64)
    requires
        0 < len <= DISPLAY_LIMIT,
        -DISPLAY_LIMIT <= p <= DISPLAY_LIMIT,
        -DISPLAY_LIMIT <= lo <= DISPLAY_LIMIT,
    ensures
        n == axis_to_norm(p as int, lo as int, len as int),
{
    proof {
        lemma_axis_to_norm_bounds(p as int, lo as int, len as int);
    }
    let d: i64 = p - lo;
    assert(-2 * DISPLAY_LIMIT * NORM_ONE <= d * NORM_ONE <= 2 * DISPLAY_LIMIT * NORM_ONE) by (nonlinear_arith)
        requires
            -2 * DISPLAY_LIMIT <= d <= 2 * DISPLAY_LIMIT,
    ;
    let a: i64 = d * NORM_ONE;
    if a >= 0 {
        let q = a / len;
        if a % len == 0 {
            q
        } else {
            q + 1
        }
    } else {
        let m: i64 = -a;
        let q = m / len;
        let r = m % len;
        proof {
            vstd::arithmetic::div_mod::lemma_fundamental_div_mod(m as int, len as int);
            assert(m == q * len + r) by (nonlinear_arith)
                requires
                    m == len * q + r,
            ;
            if r == 0 {
                assert(a == (-q) * len + 0) by (nonlinear_arith)
                    requires
                        m == q * len,
                        a == -m,
                ;
                lemma_fundamental_div_mod_converse(a as int, len as int, -q, 0);
            } else {
                assert(a == (-q - 1) * len + (len - r)) by (nonlinear_arith)
                    requires
                        m == q * len + r,
                        a == -m,
                ;
                lemma_fundamental_div_mod_converse(a as int, len as int, -q - 1, len - r);
            }
        }
        -q
    }
}

fn axis_from_norm_exec(n: i64, lo: i64, len: i64) -> (v: i64)
    requires
        0 < len <= DISPLAY_LIMIT,
        0 <= n <= NORM_ONE,
        -DISPLAY_LIMIT <= lo <= DISPLAY_LIMIT,
    ensures
        v == axis_from_norm(n as int, lo as int, len as int),
        lo <= v <= lo + len,
{
    assert(0 <= n * len <= NORM_ONE * len) by (nonlinear_arith)
        requires
            0 <= n <= NORM_ONE,
            0 < len,
    ;
    let prod: i64 = n * len;
    let q = prod / NORM_ONE;
    assert(q <= len) by (nonlinear_arith)
        requires
            q == prod / NORM_ONE,
            prod <= NORM_ONE * len,
            0 <= prod,
    ;
    lo + q
}

/// The normalized media coordinates of display point `p` over the frame
/// painted in `r` (rounded up to the next unit).
pub fn to_norm(r: &DisplayRect, p: Point) -> (n: NormPoint)
    requires
        r.in_display_range(),
        r.width > 0,
        r.height > 0,
        p.in_display_range(),
    ensures
        n == to_norm_spec(*r, p),
{
    NormPoint {
        x: axis_to_norm_exec(p.x, r.min_x, r.width),
        y: axis_to_norm_exec(p.y, r.min_y, r.height),
    }
}

/// The display point over the frame painted in `r` at normalized media
/// coordinates `n` (rounded down to a whole pixel).
pub fn from_norm(r: &DisplayRect, n: NormPoint) -> (p: Point)
    requires
        r.in_display_range(),
        r.width > 0,
        r.height > 0,
        n.in_frame(),
    ensures
        p == from_norm_spec(*r, n),
        r.contains(p),
{
    Point {
        x: axis_from_norm_exec(n.x, r.min_x, r.width),
        y: axis_from_norm_exec(n.y, r.min_y, r.height),
    }
}

proof fn lemma_axis_round_trip(p: int, lo: int, len: int)
    requires
        0 < len <= NORM_ONE,
        lo <= p <= lo + len,
    ensures
        0 <= axis_to_norm(p, lo, len) <= NORM_ONE,
        axis_from_norm(axis_to_norm(p, lo, len), lo, len) == p,
{
    let d = p - lo;
    let a = d * NORM_ONE;
    assert(0 <= a <= len * NORM_ONE) by (nonlinear_arith)
        requires
            a == d * NORM_ONE,
            0 <= d <= len,
    ;
    let q = a / len;
    let r = a % len;
    vstd::arithmetic::div_mod::lemma_fundamental_div_mod(a, len);
    let n = axis_to_norm(p, lo, len);
    if r == 0 {
        assert(n == q);
        assert(n * len == a) by (nonlinear_arith)
            requires
                a == len * q + r,
                r == 0,
                n == q,
        ;
        assert(0 <= n <= NORM_ONE) by (nonlinear_arith)
            requires
                n * len == a,
                0 <= a <= len * NORM_ONE,
                len > 0,
        ;
        lemma_floor_div(n * len, NORM_ONE as int, d);
    } else {
        assert(n == q + 1);
        assert(a < n * len < a + len) by (nonlinear_arith)
            requires
                a == len * q + r,
                0 < r < len,
                n == q + 1,
        ;
        assert(d * NORM_ONE <= n * len < d * NORM_ONE + NORM_ONE) by (nonlinear_arith)
            requires
                a < n * len < a + len,
                a == d * NORM_ONE,
                len <= NORM_ONE,
        ;
        assert(0 <= n <= NORM_ONE) by (nonlinear_arith)
            requires
                a < n * len,
                n * len < a + len,
                0 <= a <= len * NORM_ONE,
                len > 0,
        ;
        lemma_floor_div(n * len, NORM_ONE as int, d);
    }
}

/// Mapping a display point inside a mappable rectangle to normalized media
/// coordinates and back gives the same point.
pub proof fn lemma_norm_round_trip(r: DisplayRect, p: Point)
    requires
        r.is_mappable(),
        r.contains(p),
    ensures
        to_norm_spec(r, p).in_frame(),
        from_norm_spec(r, to_norm_spec(r, p)) == p,
{
    lemma_axis_round_trip(p.x as int, r.min_x as int, r.width as int);
    lemma_axis_round_trip(p.y as int, r.min_y as int, r.height as int);
}

/// The largest rectangle of the media's aspect ratio `w : h` that fits in
/// `area`, centred in it (extents and offsets rounded down).
pub open spec fn fit_spec(area: DisplayRect, w: int, h: int) -> DisplayRect {
    let aw = area.width as int;
    let ah = area.height as int;
    let dw = if aw * h <= ah * w {
        aw
    } else {
        (ah * w) / h
    };
    let dh = if aw * h <= ah * w {
        (aw * h) / w
    } else {
        ah
    };
    DisplayRect {
        min_x: (area.min_x + (aw - dw) / 2) as i64,
        min_y: (area.min_y + (ah - dh) / 2) as i64,
        width: dw as i64,
        height: dh as i64,
    }
}

/// The layout used while no frame is shown: the full width of `area` and
/// `9/16` of it in height (rounded down).
pub open spec fn fallback_spec(area: DisplayRect) -> DisplayRect {
    DisplayRect {
        min_x: area.min_x,
        min_y: area.min_y,
        width: area.width,
        height: ((area.width as int * 9) / 16) as i64,
    }
}

/// The aspect-preserving rectangle, centred in `area`, in which a frame of
/// `w` by `h` pixels is painted.
pub fn fit_display_rect(area: &DisplayRect, w: i64, h: i64) -> (r: DisplayRect)
    requires
        area.in_display_range(),
        0 < w <= MEDIA_SIZE_LIMIT,
        0 < h <= MEDIA_SIZE_LIMIT,
    ensures
        r == fit_spec(*area, w as int, h as int),
        r.in_display_range(),
        area.min_x <= r.min_x,
        r.min_x + r.width <= area.min_x + area.width,
        area.min_y <= r.min_y,
        r.min_y + r.height <= area.min_y + area.height,
{
    let aw = area.width;
    let ah = area.height;
    assert(0 <= aw * h <= DISPLAY_LIMIT * MEDIA_SIZE_LIMIT) by (nonlinear_arith)
        requires
            0 <= aw <= DISPLAY_LIMIT,
            0 < h <= MEDIA_SIZE_LIMIT,
    ;
    assert(0 <= ah * w <= DISPLAY_LIMIT * MEDIA_SIZE_LIMIT) by (nonlinear_arith)
        requires
            0 <= ah <= DISPLAY_LIMIT,
            0 < w <= MEDIA_SIZE_LIMIT,
    ;
    let by_width = aw * h <= ah * w;
    let dw: i64;
    let dh: i64;
    if by_width {
        dw = aw;
        dh = (aw * h) / w;
        assert(dh <= ah) by (nonlinear_arith)
            requires
                dh == (aw * h) / (w as int),
                aw * h <= ah * w,
                w > 0,
                aw >= 0,
                h > 0,
        ;
    } else {
        dh = ah;
        dw = (ah * w) / h;
        assert(dw <= aw) by (nonlinear_arith)
            requires
                dw == (ah * w) / (h as int),
                aw * h > ah * w,
                h > 0,
                ah >= 0,
                w > 0,
        ;
    }
    DisplayRect { min_x: area.min_x + (aw - dw) / 2, min_y: area.min_y + (ah - dh) / 2, width: dw, height: dh }
}

/// The rectangle laid out while no frame is shown.
pub fn fallback_display_rect(area: &DisplayRect) -> (r: DisplayRect)
    requires
        area.in_display_range(),
        area.min_y + (area.width * 9) / 16 <= DISPLAY_LIMIT,
    ensures
        r == fallback_spec(*area),
        r.in_display_range(),
{
    DisplayRect { min_x: area.min_x, min_y: area.min_y, width: area.width, height: (area.width * 9) / 16 }
}

/// The display rectangle for the frame: fitted to the frame's size when a
/// frame is shown, the fallback layout otherwise.
pub fn layout_display_rect(area: &DisplayRect, frame_size: Option<(i64, i64)>) -> (r: DisplayRect)
    requires
        area.in_display_range(),
        frame_size matches Some((w, h)) ==> 0 < w <= MEDIA_SIZE_LIMIT && 0 < h <= MEDIA_SIZE_LIMIT,
        frame_size is None ==> area.min_y + (area.width * 9) / 16 <= DISPLAY_LIMIT,
    ensures
        r == (match frame_size {
            Some((w, h)) => fit_spec(*area, w as int, h as int),
            None => fallback_spec(*area),
        }),
        r.in_display_range(),
{
    match frame_size {
        Some((w, h)) => fit_display_rect(area, w, h),
        None => fallback_display_rect(area),
    }
}

/// The crop spanned by a drag from `a` to `b`: their bounding rectangle with
/// each component clamped into the frame.
pub open spec fn drag_crop_spec(a: NormPoint, b: NormPoint) -> NormRect {
    NormRect {
        min_x: clamp(min(a.x as int, b.x as int), 0, NORM_ONE as int) as i64,
        min_y: clamp(min(a.y as int, b.y as int), 0, NORM_ONE as int) as i64,
        max_x: clamp(max(a.x as int, b.x as int), 0, NORM_ONE as int) as i64,
        max_y: clamp(max(a.y as int, b.y as int), 0, NORM_ONE as int) as i64,
    }
}

fn clamp_norm(v: i64) -> (r: i64)
    ensures
        r == clamp(v as int, 0, NORM_ONE as int),
{
    if v < 0 {
        0
    } else if v > NORM_ONE {
        NORM_ONE
    } else {
        v
    }
}

/// The crop spanned by dragging the pointer from `a` to `b`.
pub fn crop_from_drag(a: NormPoint, b: NormPoint) -> (r: NormRect)
    ensures
        r == drag_crop_spec(a, b),
        r.wf(),
{
    let (lx, hx) = if a.x <= b.x {
        (a.x, b.x)
    } else {
        (b.x, a.x)
    };
    let (ly, hy) = if a.y <= b.y {
        (a.y, b.y)
    } else {
        (b.y, a.y)
    };
    NormRect { min_x: clamp_norm(lx), min_y: clamp_norm(ly), max_x: clamp_norm(hx), max_y: clamp_norm(hy) }
}

/// The display corners, top-left and bottom-right, of `crop` over the frame
/// painted in `r`.
pub fn crop_on_display(r: &DisplayRect, crop: &NormRect) -> (c: (Point, Point))
    requires
        r.in_display_range(),
        r.width > 0,
        r.height > 0,
        crop.wf(),
    ensures
        c.0 == from_norm_spec(*r, NormPoint { x: crop.min_x, y: crop.min_y }),
        c.1 == from_norm_spec(*r, NormPoint { x: crop.max_x, y: crop.max_y }),
{
    (
        from_norm(r, NormPoint { x: crop.min_x, y: crop.min_y }),
        from_norm(r, NormPoint { x: crop.max_x, y: crop.max_y }),
    )
}

} // verus!
