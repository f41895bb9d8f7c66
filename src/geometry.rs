use vstd::prelude::*;

verus! {

/// A position in window-client pixel coordinates.
#[derive(Clone, Copy, Debug, PartialEq, Eq, Structural)]
pub struct Point {
    pub x: i32,
    pub y: i32,
}

/// An axis-aligned rectangle given by its edges.
#[derive(Clone, Copy, Debug, PartialEq, Eq, Structural)]
pub struct SelectionRect {
    pub left: i32,
    pub top: i32,
    pub right: i32,
    pub bottom: i32,
}

pub open spec fn min_int(a: int, b: int) -> int {
    if a <= b { a } else { b }
}

pub open spec fn max_int(a: int, b: int) -> int {
    if a >= b { a } else { b }
}

/// The rectangle spanned by two corners, whichever way round they are given.
pub open spec fn spanned(p1: Point, p2: Point) -> SelectionRect {
    SelectionRect {
        left: min_int(p1.x as int, p2.x as int) as i32,
        top: min_int(p1.y as int, p2.y as int) as i32,
        right: max_int(p1.x as int, p2.x as int) as i32,
        bottom: max_int(p1.y as int, p2.y as int) as i32,
    }
}

/// The smallest rectangle holding both `a` and `b`.
pub open spec fn bounding(a: SelectionRect, b: SelectionRect) -> SelectionRect {
    SelectionRect {
        left: min_int(a.left as int, b.left as int) as i32,
        top: min_int(a.top as int, b.top as int) as i32,
        right: max_int(a.right as int, b.right as int) as i32,
        bottom: max_int(a.bottom as int, b.bottom as int) as i32,
    }
}

/// Every point of `inner` lies in `outer`.
pub open spec fn encloses(outer: SelectionRect, inner: SelectionRect) -> bool {
    outer.left <= inner.left && outer.top <= inner.top && inner.right <= outer.right && inner.bottom <= outer.bottom
}

impl SelectionRect {
    /// Edges in order: nothing extends to the left of `left` or above `top`.
    pub open spec fn wf(self) -> bool {
        self.left <= self.right && self.top <= self.bottom
    }

    pub open spec fn width_spec(self) -> int {
        self.right - self.left
    }

    pub open spec fn height_spec(self) -> int {
        self.bottom - self.top
    }

    /// Horizontal extent in pixels.
    pub fn width(&self) -> (r: u32)
        requires
            self.wf(),
        ensures
            r as int == self.width_spec(),
    {
        (self.right as i64 - self.left as i64) as u32
    }

    /// Vertical extent in pixels.
    pub fn height(&self) -> (r: u32)
        requires
            self.wf(),
        ensures
            r as int == self.height_spec(),
    {
        (self.bottom as i64 - self.top as i64) as u32
    }

    /// The corner with the smallest coordinates.
    pub fn top_left(&self) -> (r: Point)
        ensures
            r == (Point { x: self.left, y: self.top }),
    {
        Point { x: self.left, y: self.top }
    }

    /// The corner with the largest coordinates.
    pub fn bottom_right(&self) -> (r: Point)
        ensures
            r == (Point { x: self.right, y: self.bottom }),
    {
        Point { x: self.right, y: self.bottom }
    }
}

/// Normalizes two corners into left/top/right/bottom edges.
pub fn normalize(p1: Point, p2: Point) -> (r: SelectionRect)
    ensures
        r == spanned(p1, p2),
        r.wf(),
{
    let left = if p1.x <= p2.x { p1.x } else { p2.x };
    let top = if p1.y <= p2.y { p1.y } else { p2.y };
    let right = if p1.x >= p2.x { p1.x } else { p2.x };
    let bottom = if p1.y >= p2.y { p1.y } else { p2.y };
    SelectionRect { left, top, right, bottom }
}

/// The smallest rectangle holding both `a` and `b`.
pub fn union(a: SelectionRect, b: SelectionRect) -> (r: SelectionRect)
    ensures
        r == bounding(a, b),
{
    SelectionRect {
        left: if a.left <= b.left { a.left } else { b.left },
        top: if a.top <= b.top { a.top } else { b.top },
        right: if a.right >= b.right { a.right } else { b.right },
        bottom: if a.bottom >= b.bottom { a.bottom } else { b.bottom },
    }
}

/// Reads a 16-bit two's complement value held in the range 0 .. 65535.
pub open spec fn sign_extend16(v: int) -> int {
    if v >= 32768 { v - 65536 } else { v }
}

/// The signed value of the low 16 bits of `packed`.
pub open spec fn low_word(packed: i32) -> int {
    sign_extend16((packed as int) % 65536)
}

/// The signed value of bits 16 to 31 of `packed`.
pub open spec fn high_word(packed: i32) -> int {
    sign_extend16(((packed as int) / 65536) % 65536)
}

/// Splits a packed pointer position into its signed x (low half) and y (high
/// half) coordinates; positions left of or above the origin come out negative.
pub fn decode_point(packed: i32) -> (r: (i16, i16))
    ensures
        r.0 as int == low_word(packed),
        r.1 as int == high_word(packed),
{
    let unsigned: u64 = if packed < 0 {
        (packed as i64 + 4294967296) as u64
    } else {
        packed as u64
    };
    let lo: u64 = unsigned % 65536;
    let hi: u64 = unsigned / 65536;
    proof {
        let p = packed as int;
        let u = unsigned as int;
        assert(u == p || u == p + 4294967296);
        assert((p + 4294967296) % 65536 == p % 65536) by (nonlinear_arith);
        assert((p + 4294967296) / 65536 == p / 65536 + 65536) by (nonlinear_arith);
        assert((p / 65536 + 65536) % 65536 == (p / 65536) % 65536) by (nonlinear_arith);
        assert(0 <= u < 4294967296);
        assert(u / 65536 < 65536) by (nonlinear_arith)
            requires 0 <= u < 4294967296;
    }
    let x: i16 = if lo >= 32768 { (lo as i64 - 65536) as i16 } else { lo as i16 };
    let y: i16 = if hi >= 32768 { (hi as i64 - 65536) as i16 } else { hi as i16 };
    (x, y)
}

/// Widens a decoded coordinate pair into a point.
pub fn point_from_words(words: (i16, i16)) -> (r: Point)
    ensures
        r.x as int == words.0 as int,
        r.y as int == words.1 as int,
{
    Point { x: words.0 as i32, y: words.1 as i32 }
}

} // verus!
