//! Wrappers around GPU buffers and their bind groups.
//!
//! A binding owns a buffer (or a texture) together with the bind-group
//! layout and bind group that expose it to a pipeline stage. The storage
//! binding remembers the element capacity its buffer was allocated for, so
//! that writes can be held to it.

use vstd::prelude::*;

use crate::render::texture::TextureResource;

verus! {

/// The largest element count a storage binding may be created with. The
/// bind group covers the whole buffer, so the buffer of 64-byte elements
/// must stay within the device's default limit on a storage-buffer binding,
/// 128 MiB, which is tighter than its 256 MiB buffer limit.
pub const MAX_STORAGE_ELEMENTS: u64 = 0x0020_0000;

/// Relies on `wgpu::Device::create_buffer`: one storage buffer of the given
/// byte size, writable from the queue. The whole buffer is later bound as
/// one storage binding, so the size must stay within the device's default
/// 128 MiB binding limit (itself under its 256 MiB buffer limit), else
/// validation fails.
#[verifier::external_body]
fn create_storage_buffer(device: &wgpu::Device, label: &Option<String>, size_bytes: u64) -> (b:
    wgpu::Buffer)
    requires
        size_bytes <= 0x0800_0000,
{
    device.create_buffer(&wgpu::BufferDescriptor {
        label: label.as_deref(),
        usage: wgpu::BufferUsages::STORAGE | wgpu::BufferUsages::COPY_DST,
        size: size_bytes,
        mapped_at_creation: false,
    })
}

/// Relies on `wgpu::Device::create_bind_group_layout`: one vertex-stage
/// binding for a read-only storage buffer.
#[verifier::external_body]
fn storage_bind_group_layout(device: &wgpu::Device, label: &Option<String>) -> (l:
    wgpu::BindGroupLayout) {
    let layout_label = label.as_ref().map(|l| format!("{l} Bind Group Layout"));
    let ty = wgpu::BindingType::Buffer {
        ty: wgpu::BufferBindingType::Storage { read_only: true },
        has_dynamic_offset: false,
        min_binding_size: None,
    };
    let entry = wgpu::BindGroupLayoutEntry { binding: 0, visibility: wgpu::ShaderStages::VERTEX, ty, count: None };
    device.create_bind_group_layout(&wgpu::BindGroupLayoutDescriptor {
        label: layout_label.as_deref(),
        entries: &[entry],
    })
}

/// Relies on `wgpu::Device::create_bind_group`: binds the whole buffer at
/// slot zero of the given layout. Callers pass buffers within the device's
/// default binding-size limits: storage buffers of at most 128 MiB, the
/// 64-byte camera uniform buffer well under the 64 KiB uniform limit.
#[verifier::external_body]
pub(crate) fn buffer_bind_group(
    device: &wgpu::Device,
    label: &Option<String>,
    layout: &wgpu::BindGroupLayout,
    buffer: &wgpu::Buffer,
) -> (g: wgpu::BindGroup) {
    let group_label = label.as_ref().map(|l| format!("{l} Bind Group"));
    device.create_bind_group(&wgpu::BindGroupDescriptor {
        label: group_label.as_deref(),
        entries: &[wgpu::BindGroupEntry { binding: 0, resource: buffer.as_entire_binding() }],
        layout,
    })
}

/// Wrapper around a GPU storage buffer holding 64-byte records (one 4x4
/// matrix of entry bits each), with the bind group and layout for reading it
/// from the vertex stage.
pub struct StorageBinding {
    buffer: wgpu::Buffer,
    bind_group_layout: wgpu::BindGroupLayout,
    bind_group: wgpu::BindGroup,
    capacity: u64,
}

impl StorageBinding {
    /// How many 64-byte records the buffer was allocated for.
    pub closed spec fn spec_capacity(&self) -> u64 {
        self.capacity
    }

    /// Create a storage buffer with room for `max_elements` records, with
    /// its layout and bind group.
    pub fn create(device: &wgpu::Device, buffer_label: Option<String>, max_elements: u64) -> (r:
        Self)
        requires
            max_elements <= MAX_STORAGE_ELEMENTS,
        ensures
            r.spec_capacity() == max_elements,
    {
        let buffer = create_storage_buffer(device, &buffer_label, max_elements * 64);
        let bind_group_layout = storage_bind_group_layout(device, &buffer_label);
        let bind_group = buffer_bind_group(device, &buffer_label, &bind_group_layout, &buffer);
        Self { buffer, bind_group_layout, bind_group, capacity: max_elements }
    }

    /// How many 64-byte records the buffer was allocated for.
    pub fn capacity(&self) -> (c: u64)
        ensures
            c == self.spec_capacity(),
    {
        self.capacity
    }

    pub fn buffer(&self) -> &wgpu::Buffer {
        &self.buffer
    }

    pub fn bind_group_layout(&self) -> &wgpu::BindGroupLayout {
        &self.bind_group_layout
    }

    pub fn bind_group(&self) -> &wgpu::BindGroup {
        &self.bind_group
    }
}

/// Relies on `wgpu::Queue::write_buffer`: overwrites the front of the
/// binding's buffer with the given words. The data must fit in the buffer,
/// whose size is 16 words per element of capacity, else validation fails.
#[verifier::external_body]
pub(crate) fn write_storage_data(queue: &wgpu::Queue, binding: &StorageBinding, data: &Vec<u32>)
    requires
        data@.len() <= binding.spec_capacity() * 16,
{
    queue.write_buffer(&binding.buffer, 0, bytemuck::cast_slice(data.as_slice()));
}

/// Relies on `wgpu::Device::create_bind_group_layout`: fragment-stage
/// bindings for a filterable 2D texture and its filtering sampler.
#[verifier::external_body]
fn texture_bind_group_layout(device: &wgpu::Device, label: &Option<String>) -> (l:
    wgpu::BindGroupLayout) {
    let layout_label = label.as_ref().map(|l| format!("{l} Bind Group Layout"));
    let texture_ty = wgpu::BindingType::Texture {
        multisampled: false,
        view_dimension: wgpu::TextureViewDimension::D2,
        sample_type: wgpu::TextureSampleType::Float { filterable: true },
    };
    let sampler_ty = wgpu::BindingType::Sampler(wgpu::SamplerBindingType::Filtering);
    let entries = [
        wgpu::BindGroupLayoutEntry { binding: 0, visibility: wgpu::ShaderStages::FRAGMENT, ty: texture_ty, count: None },
        wgpu::BindGroupLayoutEntry { binding: 1, visibility: wgpu::ShaderStages::FRAGMENT, ty: sampler_ty, count: None },
    ];
    device.create_bind_group_layout(&wgpu::BindGroupLayoutDescriptor { entries: &entries, label: layout_label.as_deref() })
}

/// Relies on `wgpu::Device::create_bind_group`: binds the texture view at
/// slot zero and its sampler at slot one of the given layout.
#[verifier::external_body]
fn texture_bind_group(
    device: &wgpu::Device,
    label: &Option<String>,
    layout: &wgpu::BindGroupLayout,
    view: &wgpu::TextureView,
    sampler: &wgpu::Sampler,
) -> (g: wgpu::BindGroup) {
    let group_label = label.as_ref().map(|l| format!("{l} Bind Group"));
    let entries = [
        wgpu::BindGroupEntry { binding: 0, resource: wgpu::BindingResource::TextureView(view) },
        wgpu::BindGroupEntry { binding: 1, resource: wgpu::BindingResource::Sampler(sampler) },
    ];
    device.create_bind_group(&wgpu::BindGroupDescriptor { layout, entries: &entries, label: group_label.as_deref() })
}

/// Wrapper around a sampled texture, with the bind group and layout for
/// reading it from the fragment stage.
pub struct TextureBinding {
    texture: TextureResource,
    bind_group_layout: wgpu::BindGroupLayout,
    bind_group: wgpu::BindGroup,
}

impl TextureBinding {
    /// The texture the binding exposes.
    pub closed spec fn spec_texture(&self) -> TextureResource {
        self.texture
    }

    /// Bind the texture's view and sampler for the fragment stage.
    pub fn create(device: &wgpu::Device, texture_label: Option<String>, texture: TextureResource) -> (r: Self)
        ensures
            r.spec_texture() == texture,
    {
        let bind_group_layout = texture_bind_group_layout(device, &texture_label);
        let bind_group = texture_bind_group(
            device,
            &texture_label,
            &bind_group_layout,
            texture.view(),
            texture.sampler(),
        );
        Self { texture, bind_group_layout, bind_group }
    }

    pub fn texture(&self) -> (t: &TextureResource)
        ensures
            *t == self.spec_texture(),
    {
        &self.texture
    }

    pub fn bind_group_layout(&self) -> &wgpu::BindGroupLayout {
        &self.bind_group_layout
    }

    pub fn bind_group(&self) -> &wgpu::BindGroup {
        &self.bind_group
    }
}

} // verus!
