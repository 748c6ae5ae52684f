//! The quad widget: a square with rounded corners and a drop shadow.
//!
//! The widget is a leaf of the panel. It is described afresh for every frame,
//! tells its parent how large it would like to be, and turns the bounds that
//! the parent then gives it into draw primitives: the shadow, where one is
//! cast, and on top of it the fill. Input that makes no sense (a negative
//! size, a corner radius too large for the square, a negative blur) is brought
//! into range, never refused.
use crate::color::Color;
use crate::geometry::{greater, lesser, Limits, Rectangle, Size, Vector};
use vstd::prelude::*;

verus! {

/// The radius that a corner is drawn with when it asks for `radius` on a
/// rectangle of the given size: never negative, and never more than half the
/// shorter side, so that two corners on one side cannot overlap.
pub open spec fn effective_radius(radius: int, width: int, height: int) -> int {
    greater(0, lesser(radius, greater(lesser(width, height), 0) / 2))
}

/// One radius for each corner, clockwise from the top left.
#[derive(Clone, Copy, Debug, PartialEq, Eq, Structural)]
pub struct Radii {
    pub top_left: i32,
    pub top_right: i32,
    pub bottom_right: i32,
    pub bottom_left: i32,
}

impl Radii {
    pub open spec fn spec_from_array(corners: [i32; 4]) -> Radii {
        Radii {
            top_left: corners[0],
            top_right: corners[1],
            bottom_right: corners[2],
            bottom_left: corners[3],
        }
    }

    /// The radii listed clockwise from the top left.
    pub fn from_array(corners: [i32; 4]) -> (radii: Radii)
        ensures
            radii == Radii::spec_from_array(corners),
    {
        Radii {
            top_left: corners[0],
            top_right: corners[1],
            bottom_right: corners[2],
            bottom_left: corners[3],
        }
    }

    /// The same radius at every corner.
    pub fn uniform(radius: i32) -> (radii: Radii)
        ensures
            radii == (Radii {
                top_left: radius,
                top_right: radius,
                bottom_right: radius,
                bottom_left: radius,
            }),
    {
        Radii { top_left: radius, top_right: radius, bottom_right: radius, bottom_left: radius }
    }

    /// The radii clockwise from the top left.
    pub fn to_array(&self) -> (corners: [i32; 4])
        ensures
            corners[0] == self.top_left,
            corners[1] == self.top_right,
            corners[2] == self.bottom_right,
            corners[3] == self.bottom_left,
    {
        [self.top_left, self.top_right, self.bottom_right, self.bottom_left]
    }

    /// These radii as they are drawn on a rectangle of the given size.
    pub open spec fn spec_fit(&self, size: Size) -> Radii {
        Radii {
            top_left: effective_radius(
                self.top_left as int,
                size.width as int,
                size.height as int,
            ) as i32,
            top_right: effective_radius(
                self.top_right as int,
                size.width as int,
                size.height as int,
            ) as i32,
            bottom_right: effective_radius(
                self.bottom_right as int,
                size.width as int,
                size.height as int,
            ) as i32,
            bottom_left: effective_radius(
                self.bottom_left as int,
                size.width as int,
                size.height as int,
            ) as i32,
        }
    }

    #[verifier::when_used_as_spec(spec_fit)]
    pub fn fit(&self, size: Size) -> (fit: Radii)
        ensures
            fit == self.spec_fit(size),
            fit.top_left == effective_radius(
                self.top_left as int,
                size.width as int,
                size.height as int,
            ),
            fit.top_right == effective_radius(
                self.top_right as int,
                size.width as int,
                size.height as int,
            ),
            fit.bottom_right == effective_radius(
                self.bottom_right as int,
                size.width as int,
                size.height as int,
            ),
            fit.bottom_left == effective_radius(
                self.bottom_left as int,
                size.width as int,
                size.height as int,
            ),
    {
        let shorter: i32 = if size.width <= size.height {
            size.width
        } else {
            size.height
        };
        let most: i32 = if shorter >= 0 {
            shorter / 2
        } else {
            0
        };
        Radii {
            top_left: fit_corner(self.top_left, most),
            top_right: fit_corner(self.top_right, most),
            bottom_right: fit_corner(self.bottom_right, most),
            bottom_left: fit_corner(self.bottom_left, most),
        }
    }
}

fn fit_corner(radius: i32, most: i32) -> (fit: i32)
    requires
        0 <= most,
    ensures
        fit == greater(0, lesser(radius as int, most as int)),
{
    if radius <= 0 {
        0
    } else if radius <= most {
        radius
    } else {
        most
    }
}

/// A drop shadow: a copy of the shape in one colour, moved by `offset` and
/// drawn with an edge that fades out over `blur_radius`.
#[derive(Clone, Copy, Debug, PartialEq, Eq, Structural)]
pub struct Shadow {
    pub color: Color,
    pub offset: Vector,
    pub blur_radius: i32,
}

impl Shadow {
    /// The shadow that is not there: transparent, unmoved and sharp.
    pub open spec fn spec_none() -> Shadow {
        Shadow { color: Color::spec_transparent(), offset: Vector::spec_zero(), blur_radius: 0 }
    }

    pub fn new(color: Color, offset: Vector, blur_radius: i32) -> (shadow: Shadow)
        ensures
            shadow == (Shadow { color, offset, blur_radius }),
    {
        Shadow { color, offset, blur_radius }
    }

    /// The blur that the shadow is drawn with: a negative one counts as none.
    pub open spec fn spec_blur(&self) -> int {
        greater(self.blur_radius as int, 0)
    }

    pub fn blur(&self) -> (blur: i32)
        ensures
            blur == self.spec_blur(),
    {
        if self.blur_radius >= 0 {
            self.blur_radius
        } else {
            0
        }
    }

    /// Whether the shadow shows: it has some colour, and it is either moved
    /// away from under the shape or blurred beyond the shape's edge.
    pub open spec fn spec_is_cast(&self) -> bool {
        (self.spec_blur() > 0 || !self.offset.spec_is_zero()) && self.color.a > 0
    }

    #[verifier::when_used_as_spec(spec_is_cast)]
    pub fn is_cast(&self) -> (cast: bool)
        ensures
            cast == self.spec_is_cast(),
    {
        (self.blur() > 0 || !self.offset.is_zero()) && self.color.a > 0
    }
}

impl Default for Shadow {
    fn default() -> (shadow: Shadow)
        ensures
            shadow == Shadow::spec_none(),
    {
        Shadow { color: Color::transparent(), offset: Vector::zero(), blur_radius: 0 }
    }
}

/// What a primitive stands for.
#[derive(Clone, Copy, Debug, PartialEq, Eq, Structural)]
pub enum Layer {
    /// The shadow under the quad.
    Shadow,
    /// The quad itself.
    Fill,
}

/// One rounded rectangle for the rasterizer: where it lies, how its corners
/// are rounded, its colour, and over what distance its edge fades out (`0` for
/// a sharp edge).
#[derive(Clone, Copy, Debug, PartialEq, Eq, Structural)]
pub struct Primitive {
    pub layer: Layer,
    pub bounds: Rectangle,
    pub radii: Radii,
    pub color: Color,
    pub blur_radius: i32,
}

/// The description of one quad for one frame.
#[derive(Clone, Copy, Debug, PartialEq, Eq, Structural)]
pub struct CustomQuad {
    pub color: Color,
    pub size: i32,
    pub radius: Radii,
    pub shadow: Shadow,
}

impl CustomQuad {
    /// A quad of the given fill colour and side, with its corner radii listed
    /// clockwise from the top left.
    pub fn new(color: Color, size: i32, radius: [i32; 4], shadow: Shadow) -> (quad: CustomQuad)
        ensures
            quad == (CustomQuad { color, size, radius: Radii::spec_from_array(radius), shadow }),
    {
        CustomQuad { color, size, radius: Radii::from_array(radius), shadow }
    }

    /// The side that the quad would like to have: the one it was made with,
    /// or none where that was negative.
    pub open spec fn spec_side(&self) -> int {
        greater(self.size as int, 0)
    }

    pub fn side(&self) -> (side: i32)
        ensures
            side == self.spec_side(),
    {
        if self.size >= 0 {
            self.size
        } else {
            0
        }
    }

    /// The size that the quad reports to its parent under the given limits.
    pub open spec fn spec_measure(&self, limits: Limits) -> Size {
        limits.spec_resolve(Size::spec_square(self.spec_side()))
    }

    /// The size that the quad would like to have, as far as the parent's
    /// limits allow it.
    pub fn measure(&self, limits: Limits) -> (size: Size)
        ensures
            size == self.spec_measure(limits),
    {
        limits.resolve(Size::square(self.side()))
    }

    /// The rectangle that the quad covers inside the given bounds.
    pub open spec fn spec_rect(&self, bounds: Rectangle) -> Rectangle {
        bounds.spec_fit_square(self.size as int)
    }

    /// The primitive for the quad itself.
    pub open spec fn spec_fill(&self, bounds: Rectangle) -> Primitive {
        let rect = self.spec_rect(bounds);
        Primitive {
            layer: Layer::Fill,
            bounds: rect,
            radii: self.radius.spec_fit(rect.spec_size()),
            color: self.color,
            blur_radius: 0,
        }
    }

    /// The primitive for the shadow: the quad's own shape, moved by the
    /// shadow's offset.
    pub open spec fn spec_shadow(&self, bounds: Rectangle) -> Primitive {
        let rect = self.spec_rect(bounds);
        Primitive {
            layer: Layer::Shadow,
            bounds: rect.spec_translate(self.shadow.offset),
            radii: self.radius.spec_fit(rect.spec_size()),
            color: self.shadow.color,
            blur_radius: self.shadow.spec_blur() as i32,
        }
    }

    /// The primitives of one frame, in the order in which they are painted.
    pub open spec fn spec_draw(&self, bounds: Rectangle) -> Seq<Primitive> {
        if self.shadow.spec_is_cast() {
            seq![self.spec_shadow(bounds), self.spec_fill(bounds)]
        } else {
            seq![self.spec_fill(bounds)]
        }
    }

    /// Paints the quad into the bounds that the parent gave it.
    pub fn draw(&self, bounds: Rectangle) -> (primitives: Vec<Primitive>)
        ensures
            primitives@ == self.spec_draw(bounds),
    {
        let rect: Rectangle = bounds.fit_square(self.size);
        let radii: Radii = self.radius.fit(rect.size());
        let mut primitives: Vec<Primitive> = Vec::new();
        if self.shadow.is_cast() {
            primitives.push(
                Primitive {
                    layer: Layer::Shadow,
                    bounds: rect.translate(self.shadow.offset),
                    radii,
                    color: self.shadow.color,
                    blur_radius: self.shadow.blur(),
                },
            );
        }
        primitives.push(
            Primitive { layer: Layer::Fill, bounds: rect, radii, color: self.color, blur_radius: 0 },
        );
        primitives
    }
}

/// Whether the four radii are drawable on a rectangle of the given size: none
/// is negative, and none is more than half the shorter side.
pub open spec fn corners_fit(radii: Radii, size: Size) -> bool {
    let most = lesser(size.width as int, size.height as int);
    &&& 0 <= radii.top_left && 2 * radii.top_left <= most
    &&& 0 <= radii.top_right && 2 * radii.top_right <= most
    &&& 0 <= radii.bottom_right && 2 * radii.bottom_right <= most
    &&& 0 <= radii.bottom_left && 2 * radii.bottom_left <= most
}

/// A quad whose side is not negative, in bounds that are at least as wide and
/// as high as that side, is filled over exactly the square it asked for.
pub proof fn lemma_fill_has_requested_size(quad: CustomQuad, bounds: Rectangle)
    requires
        quad.size >= 0,
        bounds.width >= quad.size,
        bounds.height >= quad.size,
    ensures
        quad.spec_fill(bounds).bounds.width == quad.size,
        quad.spec_fill(bounds).bounds.height == quad.size,
        forall|i: int|
            0 <= i < quad.spec_draw(bounds).len() && quad.spec_draw(bounds)[i].layer == Layer::Fill
                ==> quad.spec_draw(bounds)[i].bounds.width == quad.size
                && quad.spec_draw(bounds)[i].bounds.height == quad.size,
{
}

/// The fill never sticks out of its bounds and is never larger than the quad
/// asked for, whatever the quad and the bounds are.
pub proof fn lemma_fill_stays_in_bounds(quad: CustomQuad, bounds: Rectangle)
    ensures
        0 <= quad.spec_fill(bounds).bounds.width <= greater(bounds.width as int, 0),
        0 <= quad.spec_fill(bounds).bounds.height <= greater(bounds.height as int, 0),
        quad.spec_fill(bounds).bounds.width <= quad.spec_side(),
        quad.spec_fill(bounds).bounds.height <= quad.spec_side(),
        bounds.width >= 0 ==> bounds.x <= quad.spec_fill(bounds).bounds.x,
        bounds.height >= 0 ==> bounds.y <= quad.spec_fill(bounds).bounds.y,
        bounds.width >= 0 ==> quad.spec_fill(bounds).bounds.x + quad.spec_fill(
            bounds,
        ).bounds.width <= bounds.x + bounds.width,
        bounds.height >= 0 ==> quad.spec_fill(bounds).bounds.y + quad.spec_fill(
            bounds,
        ).bounds.height <= bounds.y + bounds.height,
{
}

/// On a square of side `side`, a corner that asks for a radius that is not
/// negative is drawn with that radius or with half the side, whichever is
/// less; twice the drawn radius never exceeds the side.
pub proof fn lemma_radius_is_cut_to_half_side(radius: int, side: int)
    requires
        0 <= radius,
        0 <= side,
    ensures
        effective_radius(radius, side, side) == lesser(radius, side / 2),
        2 * effective_radius(radius, side, side) <= side,
{
}

/// Whatever a corner asks for, it is drawn with a radius that is not negative
/// and not more than half the shorter side of the rectangle.
pub proof fn lemma_radius_is_in_range(radius: int, width: int, height: int)
    requires
        0 <= width,
        0 <= height,
    ensures
        0 <= effective_radius(radius, width, height),
        2 * effective_radius(radius, width, height) <= lesser(width, height),
        effective_radius(radius, width, height) <= greater(radius, 0),
        0 <= 2 * radius <= lesser(width, height) ==> effective_radius(radius, width, height)
            == radius,
{
}

/// Every primitive of a frame has corners that fit the filled rectangle, and
/// the shadow has the corners of the fill.
pub proof fn lemma_drawn_corners_fit(quad: CustomQuad, bounds: Rectangle)
    ensures
        forall|i: int|
            0 <= i < quad.spec_draw(bounds).len() ==> corners_fit(
                #[trigger] quad.spec_draw(bounds)[i].radii,
                quad.spec_fill(bounds).bounds.spec_size(),
            ),
        forall|i: int|
            0 <= i < quad.spec_draw(bounds).len() ==> #[trigger] quad.spec_draw(bounds)[i].radii
                == quad.spec_fill(bounds).radii,
{
    let size = quad.spec_fill(bounds).bounds.spec_size();
    lemma_radius_is_in_range(quad.radius.top_left as int, size.width as int, size.height as int);
    lemma_radius_is_in_range(quad.radius.top_right as int, size.width as int, size.height as int);
    lemma_radius_is_in_range(
        quad.radius.bottom_right as int,
        size.width as int,
        size.height as int,
    );
    lemma_radius_is_in_range(
        quad.radius.bottom_left as int,
        size.width as int,
        size.height as int,
    );
}

/// A quad whose side and radii are not negative, in bounds at least as large
/// as its side, has each corner of each primitive drawn with the radius it
/// asked for or with half its side, whichever is less.
pub proof fn lemma_drawn_radius_is_cut_to_half_side(quad: CustomQuad, bounds: Rectangle)
    requires
        quad.size >= 0,
        bounds.width >= quad.size,
        bounds.height >= quad.size,
        quad.radius.top_left >= 0,
        quad.radius.top_right >= 0,
        quad.radius.bottom_right >= 0,
        quad.radius.bottom_left >= 0,
    ensures
        forall|i: int|
            0 <= i < quad.spec_draw(bounds).len() ==> (#[trigger] quad.spec_draw(bounds)[i]).radii
                == (Radii {
                top_left: lesser(quad.radius.top_left as int, quad.size / 2) as i32,
                top_right: lesser(quad.radius.top_right as int, quad.size / 2) as i32,
                bottom_right: lesser(quad.radius.bottom_right as int, quad.size / 2) as i32,
                bottom_left: lesser(quad.radius.bottom_left as int, quad.size / 2) as i32,
            }),
{
    lemma_fill_has_requested_size(quad, bounds);
    lemma_radius_is_cut_to_half_side(quad.radius.top_left as int, quad.size as int);
    lemma_radius_is_cut_to_half_side(quad.radius.top_right as int, quad.size as int);
    lemma_radius_is_cut_to_half_side(quad.radius.bottom_right as int, quad.size as int);
    lemma_radius_is_cut_to_half_side(quad.radius.bottom_left as int, quad.size as int);
}

/// A shadow whose colour has no alpha is not painted: the frame is the fill
/// alone.
pub proof fn lemma_transparent_shadow_is_not_drawn(quad: CustomQuad, bounds: Rectangle)
    requires
        quad.shadow.color.a == 0,
    ensures
        quad.spec_draw(bounds) == seq![quad.spec_fill(bounds)],
        forall|i: int|
            0 <= i < quad.spec_draw(bounds).len() ==> quad.spec_draw(bounds)[i].layer
                != Layer::Shadow,
{
}

/// A shadow that is neither moved nor blurred lies exactly under the fill, and
/// so does every shadow primitive of the frame.
pub proof fn lemma_unmoved_sharp_shadow_lies_under_fill(quad: CustomQuad, bounds: Rectangle)
    requires
        quad.shadow.offset == Vector::spec_zero(),
        quad.shadow.blur_radius == 0,
    ensures
        quad.spec_shadow(bounds).bounds == quad.spec_fill(bounds).bounds,
        quad.spec_shadow(bounds).radii == quad.spec_fill(bounds).radii,
        quad.spec_shadow(bounds).blur_radius == 0,
        forall|i: int|
            0 <= i < quad.spec_draw(bounds).len() && quad.spec_draw(bounds)[i].layer
                == Layer::Shadow ==> quad.spec_draw(bounds)[i].bounds == quad.spec_fill(
                bounds,
            ).bounds,
{
}

/// In every frame the fill is painted last and once, and what comes before it
/// is the shadow: no shadow primitive follows a fill primitive.
pub proof fn lemma_shadow_is_painted_first(quad: CustomQuad, bounds: Rectangle)
    ensures
        1 <= quad.spec_draw(bounds).len() <= 2,
        quad.spec_draw(bounds).last() == quad.spec_fill(bounds),
        quad.spec_draw(bounds).len() == 2 <==> quad.shadow.spec_is_cast(),
        quad.spec_draw(bounds).len() == 2 ==> quad.spec_draw(bounds)[0] == quad.spec_shadow(
            bounds,
        ),
        forall|i: int, j: int|
            0 <= i < quad.spec_draw(bounds).len() && 0 <= j < quad.spec_draw(bounds).len()
                && quad.spec_draw(bounds)[i].layer == Layer::Shadow && quad.spec_draw(
                bounds,
            )[j].layer == Layer::Fill ==> i < j,
{
}

/// The shadow of a frame is the fill moved by the shadow's offset: same size,
/// same corners.
pub proof fn lemma_shadow_is_moved_fill(quad: CustomQuad, bounds: Rectangle)
    ensures
        quad.spec_shadow(bounds).bounds == quad.spec_fill(bounds).bounds.spec_translate(
            quad.shadow.offset,
        ),
        quad.spec_shadow(bounds).bounds.spec_size() == quad.spec_fill(bounds).bounds.spec_size(),
        quad.spec_shadow(bounds).radii == quad.spec_fill(bounds).radii,
        quad.spec_shadow(bounds).color == quad.shadow.color,
        quad.spec_shadow(bounds).blur_radius >= 0,
{
}

/// A quad reports a size within the parent's limits wherever these do not
/// cross, and its own side wherever the limits allow that side.
pub proof fn lemma_measure_respects_limits(quad: CustomQuad, limits: Limits)
    ensures
        limits.min.width <= limits.max.width ==> limits.min.width <= quad.spec_measure(
            limits,
        ).width <= limits.max.width,
        limits.min.height <= limits.max.height ==> limits.min.height <= quad.spec_measure(
            limits,
        ).height <= limits.max.height,
        limits.min.width <= quad.spec_side() <= limits.max.width ==> quad.spec_measure(
            limits,
        ).width == quad.spec_side(),
        limits.min.height <= quad.spec_side() <= limits.max.height ==> quad.spec_measure(
            limits,
        ).height == quad.spec_side(),
{
}

} // verus!
