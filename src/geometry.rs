use vstd::prelude::*;

verus! {

/// Number of fixed-point units in one logical pixel.
pub const FIXED_ONE: i64 = 256;

/// The largest value that any `i32` can take, as a mathematical integer.
pub open spec fn i32_max() -> int {
    0x7fff_ffff
}

/// Quotient of `a` by the positive `d`, rounded toward zero.
pub open spec fn trunc_div(a: int, d: int) -> int {
    if a >= 0 {
        a / d
    } else {
        -((-a) / d)
    }
}

/// Whole pixel at or before the fixed-point coordinate `v`.
pub open spec fn floor_px(v: int) -> int {
    v / 256
}

/// Whole pixel at or after the fixed-point coordinate `v`.
pub open spec fn ceil_px(v: int) -> int {
    (v + 255) / 256
}

/// A number in the compositor's 24.8 fixed-point format: `self.0 / 256`
/// logical pixels.
#[derive(Clone, Copy, Debug, PartialEq, Eq, Structural)]
pub struct Fixed(pub i32);

impl Fixed {
    /// The whole-pixel part, rounded toward zero.
    pub fn as_i32(self) -> (r: i32)
        ensures
            r as int == trunc_div(self.0 as int, 256),
    {
        if self.0 >= 0 {
            ((self.0 as u32) / 256) as i32
        } else {
            let m: u64 = (-(self.0 as i64)) as u64;
            -((m / 256) as i32)
        }
    }
}

/// A width and a height in logical pixels.
#[derive(Clone, Copy, Debug, PartialEq, Eq, Structural)]
pub struct SurfaceSize {
    pub width: u32,
    pub height: u32,
}

/// A rectangle in whole surface-local pixels, as the compositor takes damage.
#[derive(Clone, Copy, Debug, PartialEq, Eq, Structural)]
pub struct Rect {
    pub x: i32,
    pub y: i32,
    pub width: i32,
    pub height: i32,
}

/// A rectangle as the UI toolkit reports changed regions, in fixed-point units.
#[derive(Clone, Copy, Debug, PartialEq, Eq, Structural)]
pub struct FixedRect {
    pub x: Fixed,
    pub y: Fixed,
    pub width: Fixed,
    pub height: Fixed,
}

impl FixedRect {
    /// Extents are not negative.
    pub open spec fn wf(self) -> bool {
        self.width.0 >= 0 && self.height.0 >= 0
    }

    /// Left, top, right and bottom edges in fixed-point units.
    pub open spec fn left(self) -> int {
        self.x.0 as int
    }

    pub open spec fn top(self) -> int {
        self.y.0 as int
    }

    pub open spec fn right(self) -> int {
        self.x.0 + self.width.0
    }

    pub open spec fn bottom(self) -> int {
        self.y.0 + self.height.0
    }
}

impl Rect {
    /// The smallest whole-pixel rectangle that contains `f`.
    pub open spec fn spec_rounded_out(f: FixedRect) -> Rect {
        Rect {
            x: floor_px(f.left()) as i32,
            y: floor_px(f.top()) as i32,
            width: (ceil_px(f.right()) - floor_px(f.left())) as i32,
            height: (ceil_px(f.bottom()) - floor_px(f.top())) as i32,
        }
    }

    /// `self`, scaled to fixed-point units, contains `f`.
    pub open spec fn covers(self, f: FixedRect) -> bool {
        &&& self.x * 256 <= f.left()
        &&& self.y * 256 <= f.top()
        &&& f.right() <= (self.x + self.width) * 256
        &&& f.bottom() <= (self.y + self.height) * 256
    }

    /// Rounds `f` outward to whole pixels: the result never damages less than
    /// `f` and exceeds it by less than one pixel on each side.
    pub fn round_out(f: FixedRect) -> (r: Rect)
        requires
            f.wf(),
        ensures
            r == Rect::spec_rounded_out(f),
            r.covers(f),
            f.left() < r.x * 256 + 256,
            f.top() < r.y * 256 + 256,
            (r.x + r.width) * 256 < f.right() + 256,
            (r.y + r.height) * 256 < f.bottom() + 256,
    {
        let left = floor_fixed(f.x.0 as i64);
        let top = floor_fixed(f.y.0 as i64);
        let right = ceil_fixed(f.x.0 as i64 + f.width.0 as i64);
        let bottom = ceil_fixed(f.y.0 as i64 + f.height.0 as i64);
        Rect { x: left as i32, y: top as i32, width: (right - left) as i32, height: (bottom - top) as i32 }
    }
}

/// `floor_px` on machine integers.
fn floor_fixed(v: i64) -> (r: i64)
    requires
        -0x2_0000_0000 <= v <= 0x2_0000_0000,
    ensures
        r == floor_px(v as int),
        r * 256 <= v < r * 256 + 256,
        -0x200_0000 <= r <= 0x200_0000,
{
    if v >= 0 {
        ((v as u64) / 256) as i64
    } else {
        let m: u64 = (-v) as u64;
        let q: u64 = (m + 255) / 256;
        proof {
            assert(v / 256 == -((-v + 255) / 256)) by (nonlinear_arith)
                requires v < 0;
        }
        -(q as i64)
    }
}

/// `ceil_px` on machine integers.
fn ceil_fixed(v: i64) -> (r: i64)
    requires
        -0x1_0000_0000 <= v <= 0x1_0000_0000,
    ensures
        r == ceil_px(v as int),
        v <= r * 256 < v + 256,
        -0x200_0000 <= r <= 0x200_0001,
{
    floor_fixed(v + 255)
}

} // verus!
