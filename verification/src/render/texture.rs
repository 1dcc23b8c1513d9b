//! Decoding an encoded image into a GPU-sampled texture.
//!
//! Decoding is the only step whose outcome the caller can observe without a
//! GPU, so it is split out: [`decode_rgba`] turns encoded bytes into plain
//! pixels, and [`TextureResource::from_bytes`] uploads them. Decoding is a pure
//! function of the bytes, named [`decoded_rgba`].

use vstd::prelude::*;

verus! {

#[verifier::external_type_specification]
#[verifier::external_body]
pub struct ExImageError(image::ImageError);

/// What the image library decodes the given bytes to: the pixel width and
/// height and the interleaved 8-bit RGBA bytes, or nothing when the bytes
/// are not a supported, well-formed image container.
pub uninterp spec fn decoded_rgba(bytes: Seq<u8>) -> Option<(u32, u32, Seq<u8>)>;

/// Why texture construction failed.
#[derive(Debug)]
pub enum TextureError {
    /// The bytes are not a supported, well-formed image container.
    Decode(image::ImageError),
    /// The decoded image is empty or larger on a side than the device's
    /// guaranteed texture limit.
    Dimensions,
}

/// A decoded image: pixel dimensions and four bytes per pixel, row-major.
pub struct DecodedImage {
    pub width: u32,
    pub height: u32,
    pub pixels: Vec<u8>,
}

/// The largest texture side length the device guarantees under its default
/// limits.
pub const MAX_TEXTURE_SIDE: u32 = 8192;

/// Whether a decoded image's pixel size can back a 2D texture under the
/// device's guaranteed default limits: both sides positive and at most
/// [`MAX_TEXTURE_SIDE`].
pub fn texture_size_supported(width: u32, height: u32) -> (r: bool)
    ensures
        r <==> (0 < width <= MAX_TEXTURE_SIDE && 0 < height <= MAX_TEXTURE_SIDE),
{
    width > 0 && width <= MAX_TEXTURE_SIDE && height > 0 && height <= MAX_TEXTURE_SIDE
}

/// Relies on `image::load_from_memory` and `DynamicImage::to_rgba8`: what
/// the bytes decode to depends on the bytes alone; a success carries the
/// pixel dimensions and exactly four bytes per pixel.
#[verifier::external_body]
fn decode_image_bytes(bytes: &[u8]) -> (r: Result<(u32, u32, Vec<u8>), image::ImageError>)
    ensures
        match r {
            Ok(d) => decoded_rgba(bytes@) == Some((d.0, d.1, d.2@)) && d.2@.len() == 4 * (
            d.0 as nat) * (d.1 as nat),
            Err(_) => decoded_rgba(bytes@) is None,
        },
{
    let img = match image::load_from_memory(bytes) {
        Ok(img) => img,
        Err(e) => {
            return Err(e);
        },
    };
    let rgba = img.to_rgba8();
    let (w, h) = (rgba.width(), rgba.height());
    Ok((w, h, rgba.into_raw()))
}

/// Decode encoded image bytes into plain 8-bit RGBA pixels. Fails exactly
/// when the bytes are not a supported, well-formed image container.
pub fn decode_rgba(bytes: &[u8]) -> (r: Result<DecodedImage, TextureError>)
    ensures
        match r {
            Ok(d) => decoded_rgba(bytes@) == Some((d.width, d.height, d.pixels@))
                && d.pixels@.len() == 4 * (d.width as nat) * (d.height as nat),
            Err(e) => decoded_rgba(bytes@) is None && e is Decode,
        },
{
    match decode_image_bytes(bytes) {
        Ok(d) => Ok(DecodedImage { width: d.0, height: d.1, pixels: d.2 }),
        Err(e) => Err(TextureError::Decode(e)),
    }
}

pub struct TextureResource {
    raw_texture: wgpu::Texture,
    view: wgpu::TextureView,
    sampler: wgpu::Sampler,
}

/// Relies on `wgpu::Device::create_texture`: one 2D texture of the given
/// pixel size, one mip level, 8-bit sRGB RGBA, bindable and copyable-to.
/// The size must be positive and within the device's default limits, else
/// validation fails.
#[verifier::external_body]
fn create_texture_2d(device: &wgpu::Device, width: u32, height: u32) -> (t: wgpu::Texture)
    requires
        0 < width <= MAX_TEXTURE_SIDE,
        0 < height <= MAX_TEXTURE_SIDE,
{
    device.create_texture(&wgpu::TextureDescriptor {
        label: Some("Diffuse Texture"),
        size: wgpu::Extent3d { width, height, depth_or_array_layers: 1 },
        mip_level_count: 1,
        sample_count: 1,
        dimension: wgpu::TextureDimension::D2,
        format: wgpu::TextureFormat::Rgba8UnormSrgb,
        usage: wgpu::TextureUsages::TEXTURE_BINDING | wgpu::TextureUsages::COPY_DST,
        view_formats: &[],
    })
}

/// Relies on `wgpu::Queue::write_texture`: enqueues the pixel upload; the
/// data must cover the texture, four bytes per pixel, else validation fails.
#[verifier::external_body]
fn upload_texture_pixels(
    queue: &wgpu::Queue,
    texture: &wgpu::Texture,
    width: u32,
    height: u32,
    pixels: &Vec<u8>,
)
    requires
        0 < width <= MAX_TEXTURE_SIDE,
        0 < height <= MAX_TEXTURE_SIDE,
        pixels@.len() == 4 * (width as nat) * (height as nat),
{
    let info = wgpu::TexelCopyTextureInfo { texture, origin: wgpu::Origin3d::ZERO, aspect: wgpu::TextureAspect::All, mip_level: 0 };
    let data_layout = wgpu::TexelCopyBufferLayout { offset: 0, bytes_per_row: Some(4 * width), rows_per_image: Some(height) };
    let size = wgpu::Extent3d { width, height, depth_or_array_layers: 1 };
    queue.write_texture(info, pixels, data_layout, size);
}

/// Relies on `wgpu::Texture::create_view`: a full view of the texture.
#[verifier::external_body]
fn create_texture_view(texture: &wgpu::Texture) -> (v: wgpu::TextureView) {
    texture.create_view(&wgpu::TextureViewDescriptor::default())
}

/// Relies on `wgpu::Device::create_sampler`: linear magnification, nearest
/// minification and mip filter, clamp to edge on every axis.
#[verifier::external_body]
fn create_default_sampler(device: &wgpu::Device) -> (s: wgpu::Sampler) {
    device.create_sampler(&wgpu::SamplerDescriptor {
        address_mode_u: wgpu::AddressMode::ClampToEdge,
        address_mode_v: wgpu::AddressMode::ClampToEdge,
        address_mode_w: wgpu::AddressMode::ClampToEdge,
        mag_filter: wgpu::FilterMode::Linear,
        min_filter: wgpu::FilterMode::Nearest,
        mipmap_filter: wgpu::FilterMode::Nearest,
        ..Default::default()
    })
}

impl TextureResource {
    /// The sampled view of the texture.
    pub fn view(&self) -> &wgpu::TextureView {
        &self.view
    }

    /// The texture's sampler.
    pub fn sampler(&self) -> &wgpu::Sampler {
        &self.sampler
    }

    /// Decode encoded image bytes and upload them to a freshly created 2D
    /// texture with its sampler. Fails exactly when the bytes do not decode,
    /// or when the decoded size is empty or beyond the device's guaranteed
    /// limit; on failure no texture is created.
    pub fn from_bytes(device: &wgpu::Device, queue: &wgpu::Queue, bytes: &[u8]) -> (r: Result<
        Self,
        TextureError,
    >)
        ensures
            match r {
                Ok(_) => decoded_rgba(bytes@) matches Some(d) && 0 < d.0 <= MAX_TEXTURE_SIDE && 0
                    < d.1 <= MAX_TEXTURE_SIDE,
                Err(e) => {
                    ||| (decoded_rgba(bytes@) is None && e is Decode)
                    ||| (decoded_rgba(bytes@) matches Some(d) && !(0 < d.0 <= MAX_TEXTURE_SIDE && 0
                        < d.1 <= MAX_TEXTURE_SIDE) && e is Dimensions)
                },
            },
    {
        let decoded = match decode_rgba(bytes) {
            Ok(d) => d,
            Err(e) => {
                return Err(e);
            },
        };
        if !texture_size_supported(decoded.width, decoded.height) {
            return Err(TextureError::Dimensions);
        }
        let raw_texture = create_texture_2d(device, decoded.width, decoded.height);
        upload_texture_pixels(queue, &raw_texture, decoded.width, decoded.height, &decoded.pixels);
        let view = create_texture_view(&raw_texture);
        let sampler = create_default_sampler(device);
        Ok(Self { raw_texture, view, sampler })
    }
}

} // verus!
