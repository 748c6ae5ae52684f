//! Plane geometry on whole numbers of hundredths of a logical pixel.
use vstd::prelude::*;

verus! {

/// The smaller of two integers.
pub open spec fn lesser(a: int, b: int) -> int {
    if a <= b {
        a
    } else {
        b
    }
}

/// The larger of two integers.
pub open spec fn greater(a: int, b: int) -> int {
    if a >= b {
        a
    } else {
        b
    }
}

/// The coordinate nearest to `v` that an `i32` can hold.
pub open spec fn saturate(v: int) -> int {
    greater(i32::MIN as int, lesser(v, i32::MAX as int))
}

/// The sum of two coordinates, held at the ends of the `i32` range.
pub fn saturating_sum(a: i32, b: i32) -> (sum: i32)
    ensures
        sum == saturate(a + b),
{
    let wide: i64 = a as i64 + b as i64;
    if wide > i32::MAX as i64 {
        i32::MAX
    } else if wide < i32::MIN as i64 {
        i32::MIN
    } else {
        wide as i32
    }
}

/// A displacement in the plane.
#[derive(Clone, Copy, Debug, PartialEq, Eq, Structural)]
pub struct Vector {
    pub x: i32,
    pub y: i32,
}

impl Vector {
    /// The displacement that moves nothing.
    pub open spec fn spec_zero() -> Vector {
        Vector { x: 0, y: 0 }
    }

    pub fn new(x: i32, y: i32) -> (v: Vector)
        ensures
            v == (Vector { x, y }),
    {
        Vector { x, y }
    }

    #[verifier::when_used_as_spec(spec_zero)]
    pub fn zero() -> (v: Vector)
        ensures
            v == Vector::spec_zero(),
    {
        Vector { x: 0, y: 0 }
    }

    pub open spec fn spec_is_zero(&self) -> bool {
        self.x == 0 && self.y == 0
    }

    /// Whether the displacement moves nothing.
    #[verifier::when_used_as_spec(spec_is_zero)]
    pub fn is_zero(&self) -> (zero: bool)
        ensures
            zero == self.spec_is_zero(),
    {
        self.x == 0 && self.y == 0
    }
}

/// A width and a height.
#[derive(Clone, Copy, Debug, PartialEq, Eq, Structural)]
pub struct Size {
    pub width: i32,
    pub height: i32,
}

impl Size {
    pub fn new(width: i32, height: i32) -> (s: Size)
        ensures
            s == (Size { width, height }),
    {
        Size { width, height }
    }

    /// The size of a square with the given side.
    pub open spec fn spec_square(side: int) -> Size
        recommends
            i32::MIN <= side <= i32::MAX,
    {
        Size { width: side as i32, height: side as i32 }
    }

    pub fn square(side: i32) -> (s: Size)
        ensures
            s == Size::spec_square(side as int),
    {
        Size { width: side, height: side }
    }
}

/// The smallest and the largest size that a parent allows its child.
#[derive(Clone, Copy, Debug, PartialEq, Eq, Structural)]
pub struct Limits {
    pub min: Size,
    pub max: Size,
}

/// A wish for one axis, cut down to `most` and then raised to `least`. Where
/// the two limits cross, the lower limit wins.
pub open spec fn within(wish: int, least: int, most: int) -> int {
    greater(lesser(wish, most), least)
}

impl Limits {
    pub fn new(min: Size, max: Size) -> (l: Limits)
        ensures
            l == (Limits { min, max }),
    {
        Limits { min, max }
    }

    /// The size granted to a child that would like to be `wish`.
    pub open spec fn spec_resolve(self, wish: Size) -> Size {
        Size {
            width: within(wish.width as int, self.min.width as int, self.max.width as int) as i32,
            height: within(
                wish.height as int,
                self.min.height as int,
                self.max.height as int,
            ) as i32,
        }
    }

    /// Grants a child that shrinks to its content the size it wishes for, as
    /// far as the limits allow.
    pub fn resolve(&self, wish: Size) -> (granted: Size)
        ensures
            granted == self.spec_resolve(wish),
            granted.width == within(
                wish.width as int,
                self.min.width as int,
                self.max.width as int,
            ),
            granted.height == within(
                wish.height as int,
                self.min.height as int,
                self.max.height as int,
            ),
    {
        Size {
            width: bound(wish.width, self.min.width, self.max.width),
            height: bound(wish.height, self.min.height, self.max.height),
        }
    }
}

fn bound(wish: i32, least: i32, most: i32) -> (granted: i32)
    ensures
        granted == within(wish as int, least as int, most as int),
{
    let cut: i32 = if wish <= most {
        wish
    } else {
        most
    };
    if cut >= least {
        cut
    } else {
        least
    }
}

/// An axis-aligned rectangle: the position of its top left corner and its
/// size.
#[derive(Clone, Copy, Debug, PartialEq, Eq, Structural)]
pub struct Rectangle {
    pub x: i32,
    pub y: i32,
    pub width: i32,
    pub height: i32,
}

/// How far a part of length `part` is set in from the start of a room of
/// length `room` so that it lies in the middle. A room of negative length
/// counts as empty.
pub open spec fn inset(room: int, part: int) -> int {
    (greater(room, 0) - part) / 2
}

/// The length that a part which would like to be `side` long gets in a room of
/// length `room`: negative lengths count as zero, and the part never sticks
/// out of the room.
pub open spec fn fitted(room: int, side: int) -> int {
    lesser(greater(side, 0), greater(room, 0))
}

impl Rectangle {
    pub fn new(x: i32, y: i32, width: i32, height: i32) -> (r: Rectangle)
        ensures
            r == (Rectangle { x, y, width, height }),
    {
        Rectangle { x, y, width, height }
    }

    pub open spec fn spec_size(&self) -> Size {
        Size { width: self.width, height: self.height }
    }

    #[verifier::when_used_as_spec(spec_size)]
    pub fn size(&self) -> (s: Size)
        ensures
            s == self.spec_size(),
    {
        Size { width: self.width, height: self.height }
    }

    /// The rectangle moved by `by`, its size unchanged. A corner that would
    /// leave the `i32` range stays at the end of the range.
    pub open spec fn spec_translate(&self, by: Vector) -> Rectangle {
        Rectangle {
            x: saturate(self.x + by.x) as i32,
            y: saturate(self.y + by.y) as i32,
            width: self.width,
            height: self.height,
        }
    }

    #[verifier::when_used_as_spec(spec_translate)]
    pub fn translate(&self, by: Vector) -> (moved: Rectangle)
        ensures
            moved == self.spec_translate(by),
    {
        Rectangle {
            x: saturating_sum(self.x, by.x),
            y: saturating_sum(self.y, by.y),
            width: self.width,
            height: self.height,
        }
    }

    /// The square of the given side laid in the middle of this rectangle, and
    /// cut down on each axis to what the rectangle has room for.
    pub open spec fn spec_fit_square(self, side: int) -> Rectangle {
        let width = fitted(self.width as int, side);
        let height = fitted(self.height as int, side);
        Rectangle {
            x: saturate(self.x + inset(self.width as int, width)) as i32,
            y: saturate(self.y + inset(self.height as int, height)) as i32,
            width: width as i32,
            height: height as i32,
        }
    }

    pub fn fit_square(&self, side: i32) -> (fit: Rectangle)
        ensures
            fit == self.spec_fit_square(side as int),
            0 <= fit.width <= greater(self.width as int, 0),
            0 <= fit.height <= greater(self.height as int, 0),
    {
        let width: i32 = fit_length(self.width, side);
        let height: i32 = fit_length(self.height, side);
        Rectangle {
            x: saturating_sum(self.x, centre_inset(self.width, width)),
            y: saturating_sum(self.y, centre_inset(self.height, height)),
            width,
            height,
        }
    }
}

fn fit_length(room: i32, side: i32) -> (length: i32)
    ensures
        length == fitted(room as int, side as int),
        0 <= length,
{
    let wanted: i32 = if side >= 0 {
        side
    } else {
        0
    };
    let free: i32 = if room >= 0 {
        room
    } else {
        0
    };
    if wanted <= free {
        wanted
    } else {
        free
    }
}

fn centre_inset(room: i32, part: i32) -> (margin: i32)
    requires
        0 <= part <= greater(room as int, 0),
    ensures
        margin == inset(room as int, part as int),
{
    let free: i32 = if room >= 0 {
        room
    } else {
        0
    };
    (free - part) / 2
}

} // verus!
