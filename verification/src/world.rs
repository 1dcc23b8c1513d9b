//! The entity store. The store itself is the `hecs` world; the renderer
//! reads it through two queries, one for sprites and one for cameras.
//!
//! The store promises no iteration order, so what spawning adds is stated as
//! a multiset: the new entity's transform joins the matching query's yield,
//! and every other entity's stays. A query's yield as a sequence is named, so
//! that one frame's reads agree with each other.

use vstd::prelude::*;

use crate::mat4::{F32_ONE, F32_ZERO};
use crate::render::camera::{OrthographicProjection, PrimaryCamera};
use crate::render::sprite::Sprite;
use crate::transform::{Transform, DEFAULT_SCALE};

verus! {

#[verifier::external_type_specification]
#[verifier::external_body]
pub struct ExWorld(hecs::World);

/// The transforms of the entities carrying both a transform and the sprite
/// marker, in the order the store yields them.
pub uninterp spec fn world_sprites(w: hecs::World) -> Seq<Transform>;

/// The transforms of the entities carrying a transform, a projection and the
/// primary-camera marker, in the order the store yields them.
pub uninterp spec fn world_cameras(w: hecs::World) -> Seq<Transform>;

/// Relies on `hecs::World::spawn`: adds one entity carrying the sprite
/// marker and the transform, and leaves every other entity as it was.
#[verifier::external_body]
fn spawn_sprite_entity(w: &mut hecs::World, sprite: Sprite, transform: Transform)
    ensures
        world_sprites(*final(w)).to_multiset() == world_sprites(*old(w)).to_multiset().insert(
            transform,
        ),
        world_sprites(*final(w)).len() == world_sprites(*old(w)).len() + 1,
        world_cameras(*final(w)) == world_cameras(*old(w)),
{
    let _ = w.spawn((sprite, transform));
}

/// Relies on `hecs::World::spawn`: adds one entity carrying the camera
/// marker, the projection and the transform, and leaves every other entity
/// as it was.
#[verifier::external_body]
fn spawn_camera_entity(
    w: &mut hecs::World,
    camera: PrimaryCamera,
    projection: OrthographicProjection,
    transform: Transform,
)
    ensures
        world_cameras(*final(w)).to_multiset() == world_cameras(*old(w)).to_multiset().insert(
            transform,
        ),
        world_cameras(*final(w)).len() == world_cameras(*old(w)).len() + 1,
        world_sprites(*final(w)) == world_sprites(*old(w)),
{
    let _ = w.spawn((camera, projection, transform));
}

/// Relies on `hecs::World::query`: yields every entity carrying both a
/// transform and the sprite marker, in the store's iteration order.
#[verifier::external_body]
pub(crate) fn sprite_transforms(w: &hecs::World) -> (r: Vec<Transform>)
    ensures
        r@ == world_sprites(*w),
{
    let mut q = w.query::<(&Transform, &Sprite)>();
    let mut out: Vec<Transform> = Vec::new();
    for (t, _s) in q.iter() {
        out.push(*t);
    }
    out
}

/// Relies on `hecs::World::query`: yields every entity carrying a transform
/// and a projection together with the primary-camera marker, in the store's
/// iteration order.
#[verifier::external_body]
pub(crate) fn camera_transforms(w: &hecs::World) -> (r: Vec<Transform>)
    ensures
        r@ == world_cameras(*w),
{
    let mut q = w.query::<(&Transform, &OrthographicProjection)>().with::<&PrimaryCamera>();
    let mut out: Vec<Transform> = Vec::new();
    for (t, _p) in q.iter() {
        out.push(*t);
    }
    out
}

/// Spawn one sprite entity with the given transform.
pub fn spawn_sprite(world: &mut hecs::World, sprite: Sprite, transform: Transform)
    ensures
        world_sprites(*final(world)).to_multiset() == world_sprites(
            *old(world),
        ).to_multiset().insert(transform),
        world_sprites(*final(world)).len() == world_sprites(*old(world)).len() + 1,
        world_cameras(*final(world)) == world_cameras(*old(world)),
{
    spawn_sprite_entity(world, sprite, transform);
}

/// Spawn one camera entity with the given transform.
pub fn spawn_camera(world: &mut hecs::World, transform: Transform)
    ensures
        world_cameras(*final(world)).to_multiset() == world_cameras(
            *old(world),
        ).to_multiset().insert(transform),
        world_cameras(*final(world)).len() == world_cameras(*old(world)).len() + 1,
        world_sprites(*final(world)) == world_sprites(*old(world)),
{
    spawn_camera_entity(world, PrimaryCamera, OrthographicProjection, transform);
}

/// The camera the startup scene spawns: at the origin, unrotated, unit scale.
pub open spec fn startup_camera_transform() -> Transform {
    Transform {
        position_x: F32_ZERO,
        position_y: F32_ZERO,
        rotation: F32_ZERO,
        scale_x: F32_ONE,
        scale_y: F32_ONE,
    }
}

/// A sprite transform of the startup scene: at the given position,
/// unrotated, default scale.
pub open spec fn startup_sprite_transform(px: u32) -> Transform {
    Transform {
        position_x: px,
        position_y: 0x41A0_0000,
        rotation: F32_ZERO,
        scale_x: DEFAULT_SCALE,
        scale_y: DEFAULT_SCALE,
    }
}

/// Spawn the startup scene: one camera at the origin and three sprites
/// twenty units up, at twenty, one hundred and three hundred units across.
pub fn run_startup_systems(world: &mut hecs::World)
    ensures
        world_cameras(*final(world)).to_multiset() == world_cameras(
            *old(world),
        ).to_multiset().insert(startup_camera_transform()),
        world_cameras(*final(world)).len() == world_cameras(*old(world)).len() + 1,
        world_sprites(*final(world)).to_multiset() == world_sprites(
            *old(world),
        ).to_multiset().insert(startup_sprite_transform(0x41A0_0000)).insert(
            startup_sprite_transform(0x42C8_0000),
        ).insert(startup_sprite_transform(0x4396_0000)),
        world_sprites(*final(world)).len() == world_sprites(*old(world)).len() + 3,
{
    // Bit patterns: 20.0 is 0x41A0_0000, 100.0 is 0x42C8_0000, 300.0 is
    // 0x4396_0000.
    spawn_camera(world, Transform::new(F32_ZERO, F32_ZERO, F32_ZERO, F32_ONE, F32_ONE));
    spawn_sprite(
        world,
        Sprite::from_image("sprite_1"),
        Transform::from_translation(0x41A0_0000, 0x41A0_0000),
    );
    spawn_sprite(
        world,
        Sprite::from_image("sprite_2"),
        Transform::from_translation(0x42C8_0000, 0x41A0_0000),
    );
    spawn_sprite(
        world,
        Sprite::from_image("sprite_3"),
        Transform::from_translation(0x4396_0000, 0x41A0_0000),
    );
}

} // verus!
