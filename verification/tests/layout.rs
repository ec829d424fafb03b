use environement::layout::{Collider, FixedBody, Finish, Layer, Material, Palette, Prop, Shape, Texture, Tint, Turn};
use environement::Vec3h;

fn v(x: i32, y: i32, z: i32) -> Vec3h {
    Vec3h { x, y, z }
}

fn plain() -> Material {
    Material { tint: Tint::White, texture: None, finish: Finish::Standard }
}

fn body(collider: Collider) -> FixedBody {
    FixedBody {
        memberships: Layer::Environement,
        filters: Layer::Players,
        collider,
        collider_on_child: false,
    }
}

#[test]
fn texture_paths() {
    assert_eq!(Texture { palette: Palette::Black, tiled: true }.path(), "textures/Black/tex_7.png");
    assert_eq!(Texture { palette: Palette::Green, tiled: false }.path(), "textures/Green/tex_7.png");
    assert_eq!(Texture { palette: Palette::Black, tiled: false }.path(), "textures/Black/tex_7.png");
}

#[test]
fn halfspace_needs_a_direction() {
    assert_eq!(Collider::halfspace(v(0, 0, 0)), None);
    assert_eq!(Collider::halfspace(v(0, 1, 0)), Some(Collider::Halfspace { normal: v(0, 1, 0) }));
    assert_eq!(Collider::halfspace(v(0, 0, -3)), Some(Collider::Halfspace { normal: v(0, 0, -3) }));
}

#[test]
fn cuboid_keeps_its_extents() {
    assert_eq!(Collider::cuboid(2, 20, 20), Collider::Cuboid { half_extents: v(2, 20, 20) });
    assert_eq!(Collider::cuboid(0, -1, 5), Collider::Cuboid { half_extents: v(0, -1, 5) });
}

#[test]
fn collider_is_wf() {
    assert!(Collider::Halfspace { normal: v(0, 1, 0) }.is_wf());
    assert!(!Collider::Halfspace { normal: v(0, 0, 0) }.is_wf());
    assert!(Collider::cuboid(1, 1, 1).is_wf());
    assert!(!Collider::cuboid(1, 0, 1).is_wf());
    assert!(!Collider::cuboid(-1, 1, 1).is_wf());
}

#[test]
fn collider_covers_matching_shape_only() {
    let sheet = Shape::Plane { normal: v(0, 1, 0), half_side: 10, uv_reach: 1 };
    let block = Shape::Cuboid { half_size: v(2, 20, 20) };
    assert!(Collider::Halfspace { normal: v(0, 1, 0) }.is_cover_of(&sheet));
    assert!(!Collider::Halfspace { normal: v(0, 2, 0) }.is_cover_of(&sheet));
    assert!(!Collider::Halfspace { normal: v(0, 1, 0) }.is_cover_of(&block));
    assert!(Collider::cuboid(2, 20, 20).is_cover_of(&block));
    assert!(!Collider::cuboid(2, 20, 21).is_cover_of(&block));
    assert!(!Collider::cuboid(1, 20, 20).is_cover_of(&block));
    assert!(!Collider::cuboid(2, 20, 20).is_cover_of(&sheet));
}

#[test]
fn shape_is_wf() {
    assert!(Shape::Plane { normal: v(0, 1, 0), half_side: 2000, uv_reach: 500 }.is_wf());
    assert!(!Shape::Plane { normal: v(0, 0, 0), half_side: 2000, uv_reach: 500 }.is_wf());
    assert!(!Shape::Plane { normal: v(0, 1, 0), half_side: 0, uv_reach: 500 }.is_wf());
    assert!(!Shape::Plane { normal: v(0, 1, 0), half_side: 2000, uv_reach: 0 }.is_wf());
    assert!(!Shape::Plane { normal: v(0, 1, 0), half_side: 2000, uv_reach: -500 }.is_wf());
    assert!(Shape::Cuboid { half_size: v(1, 1, 1) }.is_wf());
    assert!(!Shape::Cuboid { half_size: v(1, 1, 0) }.is_wf());
}

#[test]
fn uv_corners_go_round_the_sheet() {
    let sheet = Shape::Plane { normal: v(0, 1, 0), half_side: 2000, uv_reach: 500 };
    assert_eq!(
        sheet.uv_corners(),
        Some(vec![(-500, -500), (500, -500), (500, 500), (-500, 500)])
    );
    let small = Shape::Plane { normal: v(0, 1, 0), half_side: 2, uv_reach: 1 };
    assert_eq!(small.uv_corners(), Some(vec![(-1, -1), (1, -1), (1, 1), (-1, 1)]));
    assert_eq!(Shape::Cuboid { half_size: v(1, 1, 1) }.uv_corners(), None);
}

#[test]
fn turn_is_wf() {
    assert!(Turn { axis: v(0, 1, 0), num: 1, den: 6 }.is_wf());
    assert!(Turn { axis: v(-1, 0, 0), num: -3, den: 1 }.is_wf());
    assert!(Turn { axis: v(0, 0, -1), num: 0, den: 2 }.is_wf());
    assert!(!Turn { axis: v(0, 1, 0), num: 1, den: 0 }.is_wf());
    assert!(!Turn { axis: v(0, 0, 0), num: 1, den: 6 }.is_wf());
    assert!(!Turn { axis: v(0, 2, 0), num: 1, den: 6 }.is_wf());
    assert!(!Turn { axis: v(1, 1, 0), num: 1, den: 6 }.is_wf());
    assert!(!Turn { axis: v(1, 0, -1), num: 1, den: 6 }.is_wf());
}

#[test]
fn prop_is_wf() {
    let block = Shape::Cuboid { half_size: v(2, 20, 20) };
    let good = Prop {
        shape: block,
        material: plain(),
        position: v(20, 10, 0),
        turn: None,
        body: Some(body(Collider::cuboid(2, 20, 20))),
    };
    assert!(good.is_wf());
    assert!(Prop { body: None, ..good }.is_wf());
    assert!(Prop { turn: Some(Turn { axis: v(0, 1, 0), num: 1, den: 6 }), ..good }.is_wf());
    assert!(!Prop { turn: Some(Turn { axis: v(0, 1, 1), num: 1, den: 6 }), ..good }.is_wf());
    assert!(!Prop { body: Some(body(Collider::cuboid(2, 20, 19))), ..good }.is_wf());
    assert!(!Prop { body: Some(body(Collider::Halfspace { normal: v(0, 1, 0) })), ..good }.is_wf());
    assert!(!Prop { shape: Shape::Cuboid { half_size: v(0, 20, 20) }, body: None, ..good }.is_wf());
    let flat = Prop {
        shape: Shape::Cuboid { half_size: v(0, 20, 20) },
        body: Some(body(Collider::cuboid(0, 20, 20))),
        ..good
    };
    assert!(!flat.is_wf());
}
