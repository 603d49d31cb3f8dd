//! The integer-coordinate point family: a capability trait and its 2D and 3D
//! variants, plus the inverse-slope classification between two points.

use vstd::prelude::*;

verus! {

/// The coordinate scalar for the whole integer point family: one signed
/// width, fixed for the build and shared by every variant.
pub type CInt = i64;

/// A point in the discrete plane: x and y, no z.
#[derive(Copy, Clone, PartialEq, Eq, Structural, Debug)]
pub struct IntPoint2d {
    pub x: CInt,
    pub y: CInt,
}

/// A point in discrete 3-space; z is auxiliary data carried beside the
/// planar coordinates.
#[derive(Copy, Clone, PartialEq, Eq, Structural, Debug)]
pub struct IntPoint3d {
    pub x: CInt,
    pub y: CInt,
    pub z: CInt,
}

/// The outcome of an inverse-slope query between two points, kept in exact
/// integer form: either the segment is horizontal, or it has a signed
/// numerator and denominator whose floating quotient is the inverse slope.
#[derive(Copy, Clone, PartialEq, Eq, Structural, Debug)]
pub enum InverseSlope {
    /// The two points share a y coordinate: no division is attempted and
    /// downstream code substitutes its horizontal sentinel.
    Horizontal,
    /// The horizontal and vertical displacements from the first point to the
    /// second; the inverse slope is `dx / dy` taken in floating point.
    Ratio { dx: CInt, dy: CInt },
}

/// Whether a segment from a point with y coordinate `ay` to one with y
/// coordinate `by` is horizontal, which the slope computation must branch on
/// instead of dividing by zero.
pub open spec fn slope_is_horizontal(ay: int, by: int) -> bool {
    ay == by
}

/// The numerator of the inverse slope: the x displacement from the first
/// point to the second, in exactly this order and sign.
pub open spec fn slope_dx(ax: int, bx: int) -> int {
    bx - ax
}

/// The denominator of the inverse slope: the y displacement from the first
/// point to the second, in exactly this order and sign.
pub open spec fn slope_dy(ay: int, by: int) -> int {
    by - ay
}

/// The capability contract shared by every integer point variant:
/// construct, read and replace each coordinate, with z optional.
pub trait IntPoint: PartialEq + Copy + Clone + Sized {
    /// The stored x coordinate, as the contracts see it.
    spec fn spec_x(&self) -> CInt;

    /// The stored y coordinate, as the contracts see it.
    spec fn spec_y(&self) -> CInt;

    /// The stored z coordinate, or `None` for a planar variant.
    spec fn spec_z(&self) -> Option<CInt>;

    /// Whether this variant carries a z coordinate at all; uniform over
    /// every value of the type.
    spec fn spec_has_z() -> bool;

    fn new(x: CInt, y: CInt) -> (p: Self)
        ensures
            p.spec_x() == x,
            p.spec_y() == y,
            p.spec_z() == (if Self::spec_has_z() { Some(0 as CInt) } else { None::<CInt> }),
    ;

    fn get_x(&self) -> (r: CInt)
        ensures
            r == self.spec_x(),
    ;

    fn get_y(&self) -> (r: CInt)
        ensures
            r == self.spec_y(),
    ;

    fn get_z(&self) -> (r: Option<CInt>)
        ensures
            r == self.spec_z(),
            r is Some <==> Self::spec_has_z(),
    ;

    fn set_x(&mut self, x: CInt)
        ensures
            final(self).spec_x() == x,
            final(self).spec_y() == old(self).spec_y(),
            final(self).spec_z() == old(self).spec_z(),
    ;

    fn set_y(&mut self, y: CInt)
        ensures
            final(self).spec_x() == old(self).spec_x(),
            final(self).spec_y() == y,
            final(self).spec_z() == old(self).spec_z(),
    ;

    /// Replaces z on a 3D variant; accepted as a no-op on a planar one.
    fn set_z(&mut self, z: CInt)
        ensures
            final(self).spec_x() == old(self).spec_x(),
            final(self).spec_y() == old(self).spec_y(),
            final(self).spec_z() == (if Self::spec_has_z() { Some(z) } else { None::<CInt> }),
    ;
}

impl IntPoint for IntPoint2d {
    open spec fn spec_x(&self) -> CInt {
        self.x
    }

    open spec fn spec_y(&self) -> CInt {
        self.y
    }

    open spec fn spec_z(&self) -> Option<CInt> {
        None
    }

    open spec fn spec_has_z() -> bool {
        false
    }

    fn new(x: CInt, y: CInt) -> Self {
        Self { x, y }
    }

    fn get_x(&self) -> CInt {
        self.x
    }

    fn get_y(&self) -> CInt {
        self.y
    }

    fn get_z(&self) -> Option<CInt> {
        None
    }

    fn set_x(&mut self, x: CInt) {
        self.x = x;
    }

    fn set_y(&mut self, y: CInt) {
        self.y = y;
    }

    fn set_z(&mut self, _z: CInt) {
    }
}

impl IntPoint for IntPoint3d {
    open spec fn spec_x(&self) -> CInt {
        self.x
    }

    open spec fn spec_y(&self) -> CInt {
        self.y
    }

    open spec fn spec_z(&self) -> Option<CInt> {
        Some(self.z)
    }

    open spec fn spec_has_z() -> bool {
        true
    }

    fn new(x: CInt, y: CInt) -> Self {
        Self { x, y, z: 0 }
    }

    fn get_x(&self) -> CInt {
        self.x
    }

    fn get_y(&self) -> CInt {
        self.y
    }

    fn get_z(&self) -> Option<CInt> {
        Some(self.z)
    }

    fn set_x(&mut self, x: CInt) {
        self.x = x;
    }

    fn set_y(&mut self, y: CInt) {
        self.y = y;
    }

    fn set_z(&mut self, z: CInt) {
        self.z = z;
    }
}

/// Classifies the inverse slope (delta x per unit of delta y) from `a` to
/// `b`, shared by every integer point variant. A horizontal segment is
/// reported as such rather than divided by zero; otherwise the exact signed
/// numerator and denominator are returned for the caller's floating
/// division.
pub fn get_dx_parts<P: IntPoint>(a: &P, b: &P) -> (r: InverseSlope)
    requires
        i64::MIN <= slope_dx(a.spec_x() as int, b.spec_x() as int) <= i64::MAX,
        i64::MIN <= slope_dy(a.spec_y() as int, b.spec_y() as int) <= i64::MAX,
    ensures
        slope_is_horizontal(a.spec_y() as int, b.spec_y() as int) ==> r == InverseSlope::Horizontal,
        !slope_is_horizontal(a.spec_y() as int, b.spec_y() as int) ==> (r matches InverseSlope::Ratio { dx, dy }
            && dx == slope_dx(a.spec_x() as int, b.spec_x() as int)
            && dy == slope_dy(a.spec_y() as int, b.spec_y() as int)),
{
    if a.get_y() == b.get_y() {
        InverseSlope::Horizontal
    } else {
        InverseSlope::Ratio { dx: b.get_x() - a.get_x(), dy: b.get_y() - a.get_y() }
    }
}

/// Swapping the two endpoints of an inverse-slope query preserves
/// horizontality and flips the sign of both the numerator and the
/// denominator, so the query in the opposite direction is the same ratio
/// with both parts negated, not an unrelated value.
pub proof fn lemma_inverse_slope_flip(ax: int, ay: int, bx: int, by: int)
    ensures
        slope_is_horizontal(ay, by) == slope_is_horizontal(by, ay),
        slope_dx(ax, bx) == -slope_dx(bx, ax),
        slope_dy(ay, by) == -slope_dy(by, ay),
{
}

/// Equality of planar integer points is reflexive, symmetric, and
/// structural: two points are equal exactly when both coordinates agree.
pub proof fn lemma_int_point2d_eq_structural(a: IntPoint2d, b: IntPoint2d)
    ensures
        a == a,
        (a == b) <==> (b == a),
        (a == b) <==> (a.x == b.x && a.y == b.y),
{
}

/// Equality of 3D integer points is reflexive, symmetric, and structural:
/// two points are equal exactly when all three coordinates agree.
pub proof fn lemma_int_point3d_eq_structural(a: IntPoint3d, b: IntPoint3d)
    ensures
        a == a,
        (a == b) <==> (b == a),
        (a == b) <==> (a.x == b.x && a.y == b.y && a.z == b.z),
{
}

} // verus!
