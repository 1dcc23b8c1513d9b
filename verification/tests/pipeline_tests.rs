//! Instance gathering: exact contents, full overwrite semantics at the
//! gathering level, and the capacity clamp at its boundary.

use glam::{Mat4, Vec3};
use ventura::render::sprite::pipeline::{gather_instance_matrices, MAX_INSTANCES};
use ventura::render::sprite::Sprite;
use ventura::transform::Transform;
use ventura::world::spawn_sprite;

fn model_of(px: f32, py: f32, rot: f32, sx: f32, sy: f32) -> [u32; 16] {
    let m = Mat4::from_translation(Vec3::new(px, py, 0.0))
        * Mat4::from_rotation_z(rot)
        * Mat4::from_scale(Vec3::new(sx, sy, 1.0));
    bytemuck::cast(m)
}

fn sprite_at(world: &mut hecs::World, px: f32, py: f32) {
    spawn_sprite(
        world,
        Sprite::from_image("test"),
        Transform::from_translation(px.to_bits(), py.to_bits()),
    );
}

#[test]
fn gather_empty_world_yields_nothing() {
    let mut world = hecs::World::new();
    assert_eq!(gather_instance_matrices(&world).len(), 0);
    // Entities without the sprite marker stay invisible to the gather.
    world.spawn((Transform::default(),));
    assert_eq!(gather_instance_matrices(&world).len(), 0);
}

#[test]
fn gather_yields_one_matrix_per_sprite() {
    let mut world = hecs::World::new();
    sprite_at(&mut world, 1.0, 2.0);
    sprite_at(&mut world, 3.0, 4.0);
    sprite_at(&mut world, 5.0, 6.0);
    let got = gather_instance_matrices(&world);
    assert_eq!(got.len(), 3);
    for (px, py) in [(1.0, 2.0), (3.0, 4.0), (5.0, 6.0)] {
        let expected = model_of(px, py, 0.0, 32.0, 32.0);
        assert_eq!(got.iter().filter(|m| **m == expected).count(), 1);
    }
}

#[test]
fn gather_reflects_the_current_set_not_an_append() {
    let mut world = hecs::World::new();
    sprite_at(&mut world, 1.0, 1.0);
    sprite_at(&mut world, 2.0, 2.0);
    assert_eq!(gather_instance_matrices(&world).len(), 2);
    sprite_at(&mut world, 3.0, 3.0);
    let again = gather_instance_matrices(&world);
    assert_eq!(again.len(), 3);
    let expected = model_of(3.0, 3.0, 0.0, 32.0, 32.0);
    assert_eq!(again.iter().filter(|m| **m == expected).count(), 1);
}

#[test]
fn gather_at_capacity_keeps_every_instance() {
    let mut world = hecs::World::new();
    for i in 0..MAX_INSTANCES {
        sprite_at(&mut world, i as f32, 0.0);
    }
    assert_eq!(gather_instance_matrices(&world).len(), MAX_INSTANCES as usize);
}

#[test]
fn gather_beyond_capacity_clamps_to_capacity() {
    let mut world = hecs::World::new();
    for i in 0..(MAX_INSTANCES + 1) {
        sprite_at(&mut world, i as f32, 0.0);
    }
    assert_eq!(gather_instance_matrices(&world).len(), MAX_INSTANCES as usize);
}
