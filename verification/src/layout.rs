//! Descriptions of the things a scene is made of, with the rules that make
//! each description usable by an engine.

use vstd::prelude::*;
use crate::vector::Vec3h;

verus! {

/// A flat colour.
#[derive(Clone, Copy, Debug, PartialEq, Eq, Structural)]
pub enum Tint {
    White,
    Yellow,
}

/// The colour family of a prototype texture; each family has a folder of
/// its own among the texture files.
#[derive(Clone, Copy, Debug, PartialEq, Eq, Structural)]
pub enum Palette {
    Black,
    Green,
}

/// A texture file, and whether it repeats beyond the unit square.
#[derive(Clone, Copy, Debug, PartialEq, Eq, Structural)]
pub struct Texture {
    pub palette: Palette,
    /// `true`: the image repeats in both directions; `false`: the engine's
    /// default sampling.
    pub tiled: bool,
}

impl Texture {
    /// Where the file lies below the asset root.
    pub open spec fn spec_path(self) -> Seq<char> {
        match self.palette {
            Palette::Black => "textures/Black/tex_7.png"@,
            Palette::Green => "textures/Green/tex_7.png"@,
        }
    }

    /// Where the file lies below the asset root.
    pub fn path(&self) -> (p: &'static str)
        ensures
            p@ == self.spec_path(),
    {
        match self.palette {
            Palette::Black => "textures/Black/tex_7.png",
            Palette::Green => "textures/Green/tex_7.png",
        }
    }
}

/// How a surface answers light.
#[derive(Clone, Copy, Debug, PartialEq, Eq, Structural)]
pub enum Finish {
    /// The engine's default reflectance and roughness.
    Standard,
    /// No reflectance, full roughness.
    Matte,
}

/// What a surface looks like.
#[derive(Clone, Copy, Debug, PartialEq, Eq)]
pub struct Material {
    pub tint: Tint,
    pub texture: Option<Texture>,
    pub finish: Finish,
}

/// The visible shape of a prop.
#[derive(Clone, Copy, Debug, PartialEq, Eq)]
pub enum Shape {
    /// A square sheet through the prop's origin.
    Plane {
        /// The direction the sheet faces.
        normal: Vec3h,
        /// Half the side of the sheet, in half units.
        half_side: i32,
        /// The texture coordinate reached at the sheet's edge; the
        /// coordinate runs from `-uv_reach` to `uv_reach` across the sheet.
        uv_reach: i32,
    },
    /// A box centred on the prop's origin.
    Cuboid {
        /// Half the box's width, height and depth, in half units.
        half_size: Vec3h,
    },
}

impl Shape {
    /// A plane faces somewhere, has a size and a texture span; a box has a
    /// positive size along each axis.
    pub open spec fn wf(self) -> bool {
        match self {
            Shape::Plane { normal, half_side, uv_reach } => {
                !normal.spec_is_zero() && half_side > 0 && uv_reach > 0
            },
            Shape::Cuboid { half_size } => half_size.spec_is_positive(),
        }
    }

    /// The four texture coordinates of a sheet whose edge lies at `reach`.
    pub open spec fn spec_uv_corners(reach: i32) -> Seq<(i32, i32)> {
        let n = (-reach) as i32;
        seq![(n, n), (reach, n), (reach, reach), (n, reach)]
    }

    /// Decides [`Shape::wf`].
    pub fn is_wf(&self) -> (b: bool)
        ensures
            b == self.wf(),
    {
        match self {
            Shape::Plane { normal, half_side, uv_reach } => {
                !normal.is_zero() && *half_side > 0 && *uv_reach > 0
            },
            Shape::Cuboid { half_size } => half_size.is_positive(),
        }
    }

    /// The texture coordinates of a plane's corners, going round the sheet
    /// from the corner where both are lowest; `None` for a box, which keeps
    /// the coordinates its mesh comes with. The reach must have a negative
    /// in `i32`, as that of every well-formed plane has.
    pub fn uv_corners(&self) -> (r: Option<Vec<(i32, i32)>>)
        requires
            self matches Shape::Plane { uv_reach, .. } ==> uv_reach > i32::MIN,
        ensures
            match *self {
                Shape::Plane { uv_reach, .. } => r is Some && r.unwrap()@ == Shape::spec_uv_corners(
                    uv_reach,
                ),
                Shape::Cuboid { .. } => r is None,
            },
    {
        match self {
            Shape::Plane { uv_reach, .. } => {
                let p: i32 = *uv_reach;
                let n: i32 = -p;
                let mut v: Vec<(i32, i32)> = Vec::new();
                v.push((n, n));
                v.push((p, n));
                v.push((p, p));
                v.push((n, p));
                assert(v@ =~= Shape::spec_uv_corners(p));
                Some(v)
            },
            Shape::Cuboid { .. } => None,
        }
    }
}

/// The solid shape that other bodies run into.
#[derive(Clone, Copy, Debug, PartialEq, Eq)]
pub enum Collider {
    /// Everything behind the plane through the origin that faces `normal`.
    Halfspace { normal: Vec3h },
    /// A box centred on the origin.
    Cuboid { half_extents: Vec3h },
}

impl Collider {
    /// A half-space has a direction to face; a box has a positive size
    /// along each axis.
    pub open spec fn wf(self) -> bool {
        match self {
            Collider::Halfspace { normal } => !normal.spec_is_zero(),
            Collider::Cuboid { half_extents } => half_extents.spec_is_positive(),
        }
    }

    /// Whether the collider covers `shape` exactly: a box of the same size,
    /// or the half-space below a sheet that faces the same way.
    pub open spec fn covers(self, shape: Shape) -> bool {
        match (self, shape) {
            (Collider::Halfspace { normal: c }, Shape::Plane { normal: s, .. }) => c == s,
            (Collider::Cuboid { half_extents }, Shape::Cuboid { half_size }) => half_extents
                == half_size,
            _ => false,
        }
    }

    /// A collider that covers a well-formed shape is well formed itself.
    pub proof fn covering_is_wf(self, shape: Shape)
        requires
            shape.wf(),
            self.covers(shape),
        ensures
            self.wf(),
    {
    }

    /// The half-space that faces `normal`, or `None` when `normal` is the
    /// zero vector and faces nowhere.
    pub fn halfspace(normal: Vec3h) -> (r: Option<Collider>)
        ensures
            r == if normal.spec_is_zero() {
                None
            } else {
                Some(Collider::Halfspace { normal })
            },
            r matches Some(c) ==> c.wf(),
    {
        if normal.is_zero() {
            None
        } else {
            Some(Collider::Halfspace { normal })
        }
    }

    /// The box with the given half extents, in half units.
    pub fn cuboid(hx: i32, hy: i32, hz: i32) -> (c: Collider)
        ensures
            c == (Collider::Cuboid { half_extents: Vec3h { x: hx, y: hy, z: hz } }),
    {
        Collider::Cuboid { half_extents: Vec3h { x: hx, y: hy, z: hz } }
    }

    /// Decides [`Collider::wf`].
    pub fn is_wf(&self) -> (b: bool)
        ensures
            b == self.wf(),
    {
        match self {
            Collider::Halfspace { normal } => !normal.is_zero(),
            Collider::Cuboid { half_extents } => half_extents.is_positive(),
        }
    }

    /// Decides [`Collider::covers`].
    pub fn is_cover_of(&self, shape: &Shape) -> (b: bool)
        ensures
            b == self.covers(*shape),
    {
        match (self, shape) {
            (Collider::Halfspace { normal: c }, Shape::Plane { normal: s, .. }) => {
                c.x == s.x && c.y == s.y && c.z == s.z
            },
            (Collider::Cuboid { half_extents }, Shape::Cuboid { half_size }) => {
                half_extents.x == half_size.x && half_extents.y == half_size.y && half_extents.z
                    == half_size.z
            },
            _ => false,
        }
    }
}

/// A group of bodies for the purpose of deciding who collides with whom.
#[derive(Clone, Copy, Debug, PartialEq, Eq, Structural)]
pub enum Layer {
    Environement,
    Players,
}

/// The part a prop plays in the physics: it never moves.
#[derive(Clone, Copy, Debug, PartialEq, Eq)]
pub struct FixedBody {
    /// The group the body belongs to.
    pub memberships: Layer,
    /// The group the body collides with.
    pub filters: Layer,
    pub collider: Collider,
    /// `true`: the collider sits on a child of the prop, at the child's
    /// origin; `false`: on the prop itself.
    pub collider_on_child: bool,
}

/// A rotation about `axis` by the angle pi * `num` / `den`.
#[derive(Clone, Copy, Debug, PartialEq, Eq)]
pub struct Turn {
    pub axis: Vec3h,
    pub num: i32,
    pub den: u32,
}

impl Turn {
    /// The axis has length one and the angle is a fraction.
    pub open spec fn wf(self) -> bool {
        &&& self.axis.x * self.axis.x + self.axis.y * self.axis.y + self.axis.z * self.axis.z == 1
        &&& self.den > 0
    }

    /// Decides [`Turn::wf`]. An integer vector has length one exactly when
    /// one component is 1 or -1 and the other two are zero.
    pub fn is_wf(&self) -> (b: bool)
        ensures
            b == self.wf(),
    {
        let a = &self.axis;
        proof {
            unit_vectors(a.x as int, a.y as int, a.z as int);
        }
        let unit = (is_unit(a.x) && a.y == 0 && a.z == 0) || (a.x == 0 && is_unit(a.y) && a.z
            == 0) || (a.x == 0 && a.y == 0 && is_unit(a.z));
        unit && self.den > 0
    }
}

/// Whether `c` is 1 or -1.
fn is_unit(c: i32) -> (b: bool)
    ensures
        b == (c == 1 || c == -1),
{
    c == 1 || c == -1
}

/// The integer points on the unit sphere are the six axis points.
proof fn unit_vectors(x: int, y: int, z: int)
    ensures
        (x * x + y * y + z * z == 1) == (((x == 1 || x == -1) && y == 0 && z == 0) || (x == 0 && (y
            == 1 || y == -1) && z == 0) || (x == 0 && y == 0 && (z == 1 || z == -1))),
{
    assert(x * x >= 0 && y * y >= 0 && z * z >= 0) by (nonlinear_arith);
    assert(x * x == 0 ==> x == 0) by (nonlinear_arith);
    assert(y * y == 0 ==> y == 0) by (nonlinear_arith);
    assert(z * z == 0 ==> z == 0) by (nonlinear_arith);
    assert(x * x == 1 ==> x == 1 || x == -1) by (nonlinear_arith);
    assert(y * y == 1 ==> y == 1 || y == -1) by (nonlinear_arith);
    assert(z * z == 1 ==> z == 1 || z == -1) by (nonlinear_arith);
    assert(x == 0 ==> x * x == 0);
    assert(y == 0 ==> y * y == 0);
    assert(z == 0 ==> z * z == 0);
    assert((x == 1 || x == -1) ==> x * x == 1) by (nonlinear_arith);
    assert((y == 1 || y == -1) ==> y * y == 1) by (nonlinear_arith);
    assert((z == 1 || z == -1) ==> z * z == 1) by (nonlinear_arith);
}

/// One visible object of the scene.
#[derive(Clone, Copy, Debug, PartialEq, Eq)]
pub struct Prop {
    pub shape: Shape,
    pub material: Material,
    /// Where the prop's origin lies, in half units.
    pub position: Vec3h,
    /// How the prop is turned, if at all.
    pub turn: Option<Turn>,
    /// The prop's part in the physics; `None` for decoration.
    pub body: Option<FixedBody>,
}

impl Prop {
    /// The shape and the turn are usable, and a body's collider is usable
    /// and covers the shape.
    pub open spec fn wf(self) -> bool {
        &&& self.shape.wf()
        &&& self.turn matches Some(t) ==> t.wf()
        &&& self.body matches Some(b) ==> b.collider.wf() && b.collider.covers(self.shape)
    }

    /// Whether the prop is solid scenery: it belongs to the environment
    /// and players collide with it.
    pub open spec fn is_scenery(self) -> bool {
        self.body matches Some(b) && b.memberships == Layer::Environement && b.filters
            == Layer::Players
    }

    /// Decides [`Prop::wf`].
    pub fn is_wf(&self) -> (b: bool)
        ensures
            b == self.wf(),
    {
        let turn_ok = match &self.turn {
            Some(t) => t.is_wf(),
            None => true,
        };
        let body_ok = match &self.body {
            Some(b) => b.collider.is_wf() && b.collider.is_cover_of(&self.shape),
            None => true,
        };
        self.shape.is_wf() && turn_ok && body_ok
    }
}

} // verus!
