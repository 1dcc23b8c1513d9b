//! The startup scene end to end: one camera, three sprites, and the
//! instance matrices one prepare would upload for them.

use glam::{Mat4, Vec3};
use ventura::render::camera::{OrthographicProjection, PrimaryCamera};
use ventura::render::sprite::pipeline::gather_instance_matrices;
use ventura::transform::Transform;
use ventura::render::sprite::Sprite;
use ventura::world::{run_startup_systems, spawn_camera, spawn_sprite};

#[test]
fn startup_scene_spawns_three_sprites_with_expected_matrices() {
    let mut world = hecs::World::new();
    run_startup_systems(&mut world);
    let got = gather_instance_matrices(&world);
    assert_eq!(got.len(), 3);
    for (px, py) in [(20.0f32, 20.0f32), (100.0, 20.0), (300.0, 20.0)] {
        let expected: [u32; 16] = bytemuck::cast(
            Mat4::from_translation(Vec3::new(px, py, 0.0))
                * Mat4::from_scale(Vec3::new(32.0, 32.0, 1.0)),
        );
        assert_eq!(got.iter().filter(|m| **m == expected).count(), 1, "missing sprite at ({px}, {py})");
    }
}

#[test]
fn startup_scene_spawns_one_camera_at_origin() {
    let mut world = hecs::World::new();
    run_startup_systems(&mut world);
    let mut query = world.query::<(&Transform, &OrthographicProjection)>().with::<&PrimaryCamera>();
    let cams: Vec<Transform> = query.iter().map(|(t, _)| *t).collect();
    assert_eq!(cams.len(), 1);
    assert_eq!(cams[0].position_x, 0.0f32.to_bits());
    assert_eq!(cams[0].position_y, 0.0f32.to_bits());
    assert_eq!(cams[0].rotation, 0.0f32.to_bits());
    assert_eq!(cams[0].scale_x, 1.0f32.to_bits());
    assert_eq!(cams[0].scale_y, 1.0f32.to_bits());
}

#[test]
fn startup_scene_twice_doubles_the_sprites() {
    let mut world = hecs::World::new();
    run_startup_systems(&mut world);
    run_startup_systems(&mut world);
    assert_eq!(gather_instance_matrices(&world).len(), 6);
}

#[test]
fn spawning_a_camera_adds_no_sprite() {
    let mut world = hecs::World::new();
    spawn_camera(&mut world, Transform::default());
    spawn_sprite(&mut world, Sprite::from_image("one"), Transform::default());
    let mut query = world.query::<(&Transform, &Sprite)>();
    assert_eq!(query.iter().count(), 1);
}
