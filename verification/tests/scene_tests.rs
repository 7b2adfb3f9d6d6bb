use nanocraft::camera::{Camera, Trig};
use nanocraft::fixed::SCALE;
use nanocraft::mat4::{Mat4, Vec3};
use nanocraft::scene::{plan_frame, Appearance, SceneObject, SceneRegistry};

/// The four cubes of the fixed scene, at their authored positions.
fn fixed_scene() -> SceneRegistry {
    let half = SCALE / 2;
    SceneRegistry::new(vec![
        SceneObject {
            position: Vec3 { x: SCALE + half, y: 0, z: -7 * SCALE },
            appearance: Appearance::Textured(1),
        },
        SceneObject {
            position: Vec3 { x: 8 * SCALE, y: 0, z: -7 * SCALE },
            appearance: Appearance::Textured(2),
        },
        SceneObject {
            position: Vec3 { x: 8 * SCALE, y: 10 * SCALE, z: -7 * SCALE },
            appearance: Appearance::Textured(1),
        },
        SceneObject {
            position: Vec3 { x: -5 * SCALE, y: 0, z: 7 * SCALE },
            appearance: Appearance::Flat(Vec3 { x: SCALE / 2, y: SCALE / 2, z: 0 }),
        },
    ])
}

#[test]
fn translation_round_trip_returns_position_exactly() {
    let p = Vec3 { x: 3 * SCALE / 2, y: -7 * SCALE, z: 123456789 };
    let m = Mat4::translation(p);
    assert_eq!(m.translation_column(), p);
    // No rotation or scale contamination: the block stays identity.
    assert_eq!([m.m00, m.m11, m.m22, m.m33], [SCALE, SCALE, SCALE, SCALE]);
    assert_eq!([m.m01, m.m02, m.m10, m.m12, m.m20, m.m21], [0, 0, 0, 0, 0, 0]);
    assert_eq!([m.m30, m.m31, m.m32], [0, 0, 0]);
}

#[test]
fn identity_is_translation_by_the_origin() {
    assert_eq!(Mat4::identity(), Mat4::translation(Vec3 { x: 0, y: 0, z: 0 }));
}

#[test]
fn registry_keeps_order_and_length() {
    let scene = fixed_scene();
    assert_eq!(scene.len(), 4);
    assert_eq!(scene.get(1).position, Vec3 { x: 8 * SCALE, y: 0, z: -7 * SCALE });
    assert_eq!(scene.get(3).appearance, Appearance::Flat(Vec3 { x: SCALE / 2, y: SCALE / 2, z: 0 }));
}

#[test]
fn four_cubes_yield_exactly_four_draw_submissions() {
    let scene = fixed_scene();
    let camera = Camera::new(Vec3 { x: 0, y: 0, z: 0 }, 0, 0, SCALE);
    let t = Trig { sy: 0, cy: SCALE, sp: 0, cp: SCALE };
    let plan = plan_frame(&camera, &t, &scene);
    assert_eq!(plan.draws.len(), 4);
    for i in 0..4 {
        let draw = &plan.draws[i];
        let object = scene.get(i);
        // Each submission's model transform is the translation to that
        // cube's stored position, in registry order.
        assert_eq!(draw.model, Mat4::translation(object.position));
        assert_eq!(draw.model.translation_column(), object.position);
        assert_eq!(draw.appearance, object.appearance);
    }
}

#[test]
fn frame_plan_view_matches_camera_view_matrix() {
    let scene = fixed_scene();
    let camera = Camera::new(Vec3 { x: 2 * SCALE, y: SCALE, z: -3 * SCALE }, 0, 0, SCALE);
    let t = Trig { sy: 0, cy: SCALE, sp: 0, cp: SCALE };
    let plan = plan_frame(&camera, &t, &scene);
    assert_eq!(plan.view, camera.view_matrix(&t));
}
