//! Integer vectors on the half-unit lattice.

use vstd::prelude::*;

verus! {

/// A vector whose components are whole numbers.
///
/// Used for positions and extents, a component counts halves of a world unit
/// (so `2` is one unit); used for directions, only the ratio of the
/// components matters.
#[derive(Clone, Copy, Debug, PartialEq, Eq, Structural)]
pub struct Vec3h {
    pub x: i32,
    pub y: i32,
    pub z: i32,
}

impl Vec3h {
    /// Component-wise sum, over the mathematical integers.
    pub open spec fn spec_plus(self, other: Vec3h) -> (int, int, int) {
        (self.x + other.x, self.y + other.y, self.z + other.z)
    }

    /// Each component multiplied by `k`, over the mathematical integers.
    pub open spec fn spec_scaled(self, k: int) -> (int, int, int) {
        (self.x * k, self.y * k, self.z * k)
    }

    /// The cross product, over the mathematical integers.
    pub open spec fn spec_cross(self, other: Vec3h) -> (int, int, int) {
        (
            self.y * other.z - self.z * other.y,
            self.z * other.x - self.x * other.z,
            self.x * other.y - self.y * other.x,
        )
    }

    /// The components as mathematical integers.
    pub open spec fn triple(self) -> (int, int, int) {
        (self.x as int, self.y as int, self.z as int)
    }

    /// Whether every component is zero.
    pub open spec fn spec_is_zero(self) -> bool {
        self.x == 0 && self.y == 0 && self.z == 0
    }

    /// Whether the two vectors lie on one line through the origin
    /// (the zero vector lies on every such line).
    pub open spec fn spec_is_parallel_to(self, other: Vec3h) -> bool {
        self.spec_cross(other) == (0int, 0int, 0int)
    }

    /// Whether every component is strictly positive.
    pub open spec fn spec_is_positive(self) -> bool {
        self.x > 0 && self.y > 0 && self.z > 0
    }

    /// The origin.
    pub fn zero() -> (v: Vec3h)
        ensures
            v == (Vec3h { x: 0, y: 0, z: 0 }),
    {
        Vec3h { x: 0, y: 0, z: 0 }
    }

    /// The unit step along the first axis.
    pub fn unit_x() -> (v: Vec3h)
        ensures
            v == (Vec3h { x: 1, y: 0, z: 0 }),
    {
        Vec3h { x: 1, y: 0, z: 0 }
    }

    /// The unit step along the second axis, which points up.
    pub fn unit_y() -> (v: Vec3h)
        ensures
            v == (Vec3h { x: 0, y: 1, z: 0 }),
    {
        Vec3h { x: 0, y: 1, z: 0 }
    }

    /// The unit step straight down.
    pub fn neg_unit_y() -> (v: Vec3h)
        ensures
            v == (Vec3h { x: 0, y: -1i32, z: 0 }),
    {
        Vec3h { x: 0, y: -1, z: 0 }
    }

    /// The vector with all three components equal to `c`.
    pub fn splat(c: i32) -> (v: Vec3h)
        ensures
            v == (Vec3h { x: c, y: c, z: c }),
    {
        Vec3h { x: c, y: c, z: c }
    }

    /// Component-wise sum; `None` exactly when a component of the sum does
    /// not fit in `i32`.
    pub fn plus(self, other: Vec3h) -> (r: Option<Vec3h>)
        ensures
            match r {
                Some(v) => v.triple() == self.spec_plus(other),
                None => !fits(self.spec_plus(other)),
            },
    {
        let x = self.x.checked_add(other.x);
        let y = self.y.checked_add(other.y);
        let z = self.z.checked_add(other.z);
        match (x, y, z) {
            (Some(x), Some(y), Some(z)) => Some(Vec3h { x, y, z }),
            _ => None,
        }
    }

    /// Each component multiplied by `k`; `None` exactly when a component of
    /// the product does not fit in `i32`.
    pub fn scaled(self, k: i32) -> (r: Option<Vec3h>)
        ensures
            match r {
                Some(v) => v.triple() == self.spec_scaled(k as int),
                None => !fits(self.spec_scaled(k as int)),
            },
    {
        let x = self.x.checked_mul(k);
        let y = self.y.checked_mul(k);
        let z = self.z.checked_mul(k);
        match (x, y, z) {
            (Some(x), Some(y), Some(z)) => Some(Vec3h { x, y, z }),
            _ => None,
        }
    }

    /// Whether every component is zero.
    pub fn is_zero(&self) -> (b: bool)
        ensures
            b == self.spec_is_zero(),
    {
        self.x == 0 && self.y == 0 && self.z == 0
    }

    /// Whether every component is strictly positive.
    pub fn is_positive(&self) -> (b: bool)
        ensures
            b == self.spec_is_positive(),
    {
        self.x > 0 && self.y > 0 && self.z > 0
    }

    /// Whether the two vectors lie on one line through the origin, decided
    /// by their cross product. The products are taken in 64 bits, where
    /// they cannot overflow.
    pub fn is_parallel_to(&self, other: &Vec3h) -> (b: bool)
        ensures
            b == self.spec_is_parallel_to(*other),
    {
        let (ax, ay, az): (i64, i64, i64) = (self.x as i64, self.y as i64, self.z as i64);
        let (bx, by, bz): (i64, i64, i64) = (other.x as i64, other.y as i64, other.z as i64);
        proof {
            product_bound(ay as int, bz as int);
            product_bound(az as int, by as int);
            product_bound(az as int, bx as int);
            product_bound(ax as int, bz as int);
            product_bound(ax as int, by as int);
            product_bound(ay as int, bx as int);
        }
        ay * bz == az * by && az * bx == ax * bz && ax * by == ay * bx
    }
}

/// Whether each of three integers fits in `i32`.
pub open spec fn fits(t: (int, int, int)) -> bool {
    &&& i32::MIN <= t.0 <= i32::MAX
    &&& i32::MIN <= t.1 <= i32::MAX
    &&& i32::MIN <= t.2 <= i32::MAX
}

/// The product of two 32-bit integers stays within 63 bits.
proof fn product_bound(a: int, b: int)
    requires
        i32::MIN <= a <= i32::MAX,
        i32::MIN <= b <= i32::MAX,
    ensures
        -0x4000_0000_0000_0000 <= a * b <= 0x4000_0000_0000_0000,
{
    assert(-0x4000_0000_0000_0000 <= a * b <= 0x4000_0000_0000_0000) by (nonlinear_arith)
        requires
            -0x8000_0000 <= a <= 0x7fff_ffff,
            -0x8000_0000 <= b <= 0x7fff_ffff,
    ;
}

} // verus!
