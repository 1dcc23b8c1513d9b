//! The per-error presentation policy and the texture size policy.

use ventura::render::context::{choose_surface_format, should_reconfigure, SurfaceErrorKind, SurfaceFormat};
use ventura::render::texture::{decode_rgba, texture_size_supported, MAX_TEXTURE_SIDE};

/// A valid PNG one pixel taller than the guaranteed texture limit is wide.
const WIDE_PNG: [u8; 111] = [137, 80, 78, 71, 13, 10, 26, 10, 0, 0, 0, 13, 73, 72, 68, 82, 0, 0, 32, 1, 0, 0, 0, 1, 8, 6, 0, 0, 0, 153, 137, 75, 94, 0, 0, 0, 54, 73, 68, 65, 84, 120, 156, 237, 193, 1, 13, 0, 0, 0, 194, 160, 247, 79, 237, 102, 14, 160, 0, 0, 0, 0, 0, 0, 0, 0, 0, 0, 0, 0, 0, 0, 0, 0, 0, 0, 0, 0, 0, 0, 0, 0, 0, 0, 0, 0, 0, 0, 0, 128, 27, 128, 5, 0, 1, 29, 11, 40, 72, 0, 0, 0, 0, 73, 69, 78, 68, 174, 66, 96, 130];

#[test]
fn lost_and_outdated_reconfigure() {
    assert!(should_reconfigure(&SurfaceErrorKind::Lost));
    assert!(should_reconfigure(&SurfaceErrorKind::Outdated));
}

#[test]
fn other_errors_skip_the_frame() {
    assert!(!should_reconfigure(&SurfaceErrorKind::Timeout));
    assert!(!should_reconfigure(&SurfaceErrorKind::OutOfMemory));
    assert!(!should_reconfigure(&SurfaceErrorKind::Other));
}

#[test]
fn texture_size_policy() {
    assert!(texture_size_supported(1, 1));
    assert!(texture_size_supported(MAX_TEXTURE_SIDE, MAX_TEXTURE_SIDE));
    assert!(!texture_size_supported(0, 5));
    assert!(!texture_size_supported(5, 0));
    assert!(!texture_size_supported(MAX_TEXTURE_SIDE + 1, 1));
}

#[test]
fn oversized_image_decodes_but_fails_the_size_policy() {
    let img = decode_rgba(&WIDE_PNG).expect("valid png must decode");
    assert_eq!(img.width, MAX_TEXTURE_SIDE + 1);
    assert_eq!(img.height, 1);
    assert!(!texture_size_supported(img.width, img.height));
}

fn offer(format: wgpu::TextureFormat) -> SurfaceFormat {
    SurfaceFormat::new(format, format.is_srgb())
}

#[test]
fn format_choice_prefers_srgb_over_earlier_linear() {
    let offered = vec![
        offer(wgpu::TextureFormat::Bgra8Unorm),
        offer(wgpu::TextureFormat::Bgra8UnormSrgb),
        offer(wgpu::TextureFormat::Rgba8UnormSrgb),
    ];
    let chosen = choose_surface_format(&offered).expect("non-empty offer");
    assert!(chosen.is_srgb());
    assert_eq!(chosen.texture_format(), wgpu::TextureFormat::Bgra8UnormSrgb);
}

#[test]
fn format_choice_falls_back_to_first_offered() {
    let offered = vec![
        offer(wgpu::TextureFormat::Rgba16Float),
        offer(wgpu::TextureFormat::Bgra8Unorm),
    ];
    let chosen = choose_surface_format(&offered).expect("non-empty offer");
    assert!(!chosen.is_srgb());
    assert_eq!(chosen.texture_format(), wgpu::TextureFormat::Rgba16Float);
}

#[test]
fn format_choice_on_empty_offer_is_none() {
    let offered: Vec<SurfaceFormat> = Vec::new();
    assert!(choose_surface_format(&offered).is_none());
}
