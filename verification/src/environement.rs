//! The opening scene: what stands in the world when play begins.

use vstd::prelude::*;
use crate::layout::{Collider, Finish, FixedBody, Layer, Material, Palette, Prop, Shape, Texture, Tint, Turn};
use crate::vector::Vec3h;

verus! {

/// Half units in one world unit.
pub const UNIT: i32 = 2;

/// Light that reaches every surface from everywhere.
#[derive(Clone, Copy, Debug, PartialEq, Eq, Structural)]
pub struct Ambient {
    pub tint: Tint,
    pub brightness: u32,
}

/// A light that shines along one direction over the whole world.
#[derive(Clone, Copy, Debug, PartialEq, Eq)]
pub struct Sun {
    pub tint: Tint,
    /// In lux.
    pub illuminance: u32,
    pub shadows: bool,
    /// The way the light travels.
    pub direction: Vec3h,
    /// The way that counts as up when the light is oriented.
    pub up: Vec3h,
}

impl Sun {
    /// The light travels somewhere, and not straight along `up`, so that
    /// its orientation is determined.
    pub open spec fn wf(self) -> bool {
        &&& !self.direction.spec_is_zero()
        &&& !self.up.spec_is_zero()
        &&& !self.direction.spec_is_parallel_to(self.up)
    }

    /// Decides [`Sun::wf`].
    pub fn is_wf(&self) -> (b: bool)
        ensures
            b == self.wf(),
    {
        !self.direction.is_zero() && !self.up.is_zero() && !self.direction.is_parallel_to(&self.up)
    }
}

/// Where the player appears, and where the camera sits relative to them.
#[derive(Clone, Copy, Debug, PartialEq, Eq)]
pub struct PlayerSpawn {
    /// In half units.
    pub position: Vec3h,
    /// In half units.
    pub cam_offset: Vec3h,
}

/// Everything that is created when play begins, in the order of creation:
/// the lights, the ground, the cube, the wall, and last the request for
/// the player.
#[derive(Clone, Copy, Debug, PartialEq, Eq)]
pub struct Scene {
    pub ambient: Ambient,
    pub sun: Sun,
    pub ground: Prop,
    pub cube: Prop,
    pub wall: Prop,
    pub player: PlayerSpawn,
}

impl Scene {
    /// The sun and every prop are usable, the ground is a solid sheet, and
    /// whatever is solid is scenery that players run into.
    pub open spec fn wf(self) -> bool {
        &&& self.sun.wf()
        &&& self.ground.wf()
        &&& self.cube.wf()
        &&& self.wall.wf()
        &&& self.ground.shape is Plane
        &&& self.ground.is_scenery()
        &&& self.cube.body is Some ==> self.cube.is_scenery()
        &&& self.wall.body is Some ==> self.wall.is_scenery()
    }

    /// Decides [`Scene::wf`].
    pub fn is_wf(&self) -> (b: bool)
        ensures
            b == self.wf(),
    {
        let ground_is_plane = match &self.ground.shape {
            Shape::Plane { .. } => true,
            Shape::Cuboid { .. } => false,
        };
        self.sun.is_wf() && self.ground.is_wf() && self.cube.is_wf() && self.wall.is_wf()
            && ground_is_plane && scenery(&self.ground) && (self.cube.body.is_none() || scenery(
            &self.cube,
        )) && (self.wall.body.is_none() || scenery(&self.wall))
    }
}

/// Decides [`Prop::is_scenery`].
fn scenery(prop: &Prop) -> (b: bool)
    ensures
        b == prop.is_scenery(),
{
    match &prop.body {
        Some(body) => {
            let member = match body.memberships {
                Layer::Environement => true,
                Layer::Players => false,
            };
            let filter = match body.filters {
                Layer::Players => true,
                Layer::Environement => false,
            };
            member && filter
        },
        None => false,
    }
}

/// The body of every solid prop of the scene: environment that players
/// collide with.
pub open spec fn scenery_body(collider: Collider, collider_on_child: bool) -> FixedBody {
    FixedBody {
        memberships: Layer::Environement,
        filters: Layer::Players,
        collider,
        collider_on_child,
    }
}

/// The opening scene, value by value.
///
/// * White ambient light of brightness 400, and a white sun of 1000 lux
///   that casts shadows and shines down and along the first axis.
/// * The ground: a matte white sheet facing up, 1000 units from centre to
///   edge, covered by the black prototype texture repeated from -500 to
///   500; solid by a half-space on a child.
/// * The cube: one unit wide, resting on the ground at the origin, turned
///   by a sixth of pi about the vertical, with the green texture; not solid.
/// * The wall: a yellow box of 2 by 20 by 20 units centred 10 units along
///   the first axis and 5 units up; solid by a box of its own size.
/// * The player at the origin, the camera one unit above.
pub open spec fn opening_scene() -> Scene {
    let up = Vec3h { x: 0, y: 1, z: 0 };
    Scene {
        ambient: Ambient { tint: Tint::White, brightness: 400 },
        sun: Sun {
            tint: Tint::White,
            illuminance: 1000,
            shadows: true,
            direction: Vec3h { x: 1, y: -1i32, z: 0 },
            up,
        },
        ground: Prop {
            shape: Shape::Plane { normal: up, half_side: 2000, uv_reach: 500 },
            material: Material {
                tint: Tint::White,
                texture: Some(Texture { palette: Palette::Black, tiled: true }),
                finish: Finish::Matte,
            },
            position: Vec3h { x: 0, y: 0, z: 0 },
            turn: None,
            body: Some(scenery_body(Collider::Halfspace { normal: up }, true)),
        },
        cube: Prop {
            shape: Shape::Cuboid { half_size: Vec3h { x: 1, y: 1, z: 1 } },
            material: Material {
                tint: Tint::White,
                texture: Some(Texture { palette: Palette::Green, tiled: false }),
                finish: Finish::Standard,
            },
            position: Vec3h { x: 0, y: 1, z: 0 },
            turn: Some(Turn { axis: up, num: 1, den: 6 }),
            body: None,
        },
        wall: Prop {
            shape: Shape::Cuboid { half_size: Vec3h { x: 2, y: 20, z: 20 } },
            material: Material { tint: Tint::Yellow, texture: None, finish: Finish::Standard },
            position: Vec3h { x: 20, y: 10, z: 0 },
            turn: None,
            body: Some(
                scenery_body(
                    Collider::Cuboid { half_extents: Vec3h { x: 2, y: 20, z: 20 } },
                    false,
                ),
            ),
        },
        player: PlayerSpawn {
            position: Vec3h { x: 0, y: 0, z: 0 },
            cam_offset: Vec3h { x: 0, y: 2, z: 0 },
        },
    }
}

/// The opening scene is well formed.
pub proof fn opening_scene_wf()
    ensures
        opening_scene().wf(),
{
}

/// A body of the scenery around `collider`.
fn scenery_around(collider: Collider, collider_on_child: bool) -> (b: FixedBody)
    ensures
        b == scenery_body(collider, collider_on_child),
{
    FixedBody {
        memberships: Layer::Environement,
        filters: Layer::Players,
        collider,
        collider_on_child,
    }
}

/// Lays out the opening scene.
///
/// Positions are computed from the axes, as multiples of the half unit.
/// Every step that could fail (a sum or a product out of range, a
/// half-space without a direction) is shown not to, so the scene is
/// always returned, it is always the same, and an engine can create each
/// part of it.
pub fn setup() -> (scene: Scene)
    ensures
        scene == opening_scene(),
        scene.wf(),
{
    let x = Vec3h::unit_x();
    let y = Vec3h::unit_y();
    let origin = Vec3h::zero();

    // Lighting.
    let ambient = Ambient { tint: Tint::White, brightness: 400 };
    let sun = Sun {
        tint: Tint::White,
        illuminance: 1000,
        shadows: true,
        direction: Vec3h::neg_unit_y().plus(x).unwrap(),
        up: y,
    };

    // Ground.
    let ground = Prop {
        shape: Shape::Plane { normal: y, half_side: 1000 * UNIT, uv_reach: 500 },
        material: Material {
            tint: Tint::White,
            texture: Some(Texture { palette: Palette::Black, tiled: true }),
            finish: Finish::Matte,
        },
        position: origin,
        turn: None,
        body: Some(scenery_around(Collider::halfspace(y).unwrap(), true)),
    };

    // Little green cube.
    let cube = Prop {
        shape: Shape::Cuboid { half_size: Vec3h::splat(UNIT / 2) },
        material: Material {
            tint: Tint::White,
            texture: Some(Texture { palette: Palette::Green, tiled: false }),
            finish: Finish::Standard,
        },
        position: y.scaled(UNIT / 2).unwrap(),
        turn: Some(Turn { axis: y, num: 1, den: 6 }),
        body: None,
    };

    // Wall.
    let wall = Prop {
        shape: Shape::Cuboid { half_size: Vec3h { x: UNIT, y: 10 * UNIT, z: 10 * UNIT } },
        material: Material { tint: Tint::Yellow, texture: None, finish: Finish::Standard },
        position: y.scaled(5 * UNIT).unwrap().plus(x.scaled(10 * UNIT).unwrap()).unwrap(),
        turn: None,
        body: Some(scenery_around(Collider::cuboid(UNIT, 10 * UNIT, 10 * UNIT), false)),
    };

    let player = PlayerSpawn { position: origin, cam_offset: y.scaled(UNIT).unwrap() };

    Scene { ambient, sun, ground, cube, wall, player }
}

/// The part of the game that sets the scene when play begins.
#[derive(Clone, Copy, Debug, PartialEq, Eq, Structural)]
pub struct EnvironementPlugin;

impl EnvironementPlugin {
    /// The scene that this part adds to the world on entering play.
    pub fn build(&self) -> (scene: Scene)
        ensures
            scene == opening_scene(),
            scene.wf(),
    {
        setup()
    }
}

} // verus!
