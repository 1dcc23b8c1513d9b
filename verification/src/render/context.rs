//! The render context: owns the GPU device, queue and surface, the camera
//! uniform and the sprite pipeline, and drives one frame at a time.
//!
//! Per frame: acquire the next surface image; on an acquisition error give
//! the error class back to the caller untouched, so the caller can
//! reconfigure on a lost or outdated surface and merely retry otherwise.
//! On success: recompute and upload the camera uniform, prepare the sprite
//! instances, record one clear-and-draw pass, submit and present.
//!
//! A resize with both dimensions positive stores the new size and
//! reconfigures the surface exactly once; a resize with a zero dimension
//! changes nothing.

use vstd::math::min;
use vstd::prelude::*;

use wgpu::util::DeviceExt;

use crate::mat4::{identity_mat, identity_matrix};
use crate::render::camera::{camera_view_projection, view_projection};
use crate::render::pass::pass_commands;
use crate::render::sprite::pipeline::{instance_matrices, SpritePipeline, MAX_INSTANCES};
use crate::render::texture::{texture_size_supported, MAX_TEXTURE_SIDE};
use crate::world::{camera_transforms, world_cameras, world_sprites};

verus! {

/// Bit pattern of the 64-bit clear-color channel value, a hundredth.
const F64_CLEAR_CHANNEL: u64 = 0x3F84_7AE1_47AE_147B;

/// Bit pattern of the 64-bit one, the clear color's alpha.
const F64_ONE: u64 = 0x3FF0_0000_0000_0000;

/// The class of a failed attempt to acquire the next surface image.
#[derive(Copy, Clone, Debug, PartialEq, Eq, Structural)]
pub enum SurfaceErrorKind {
    /// Acquisition timed out; skip the frame and retry on the next trigger.
    Timeout,
    /// The surface no longer matches the window; reconfigure it.
    Outdated,
    /// The surface was lost; reconfigure it.
    Lost,
    /// No memory for another frame; skip the frame and retry.
    OutOfMemory,
    /// Some other acquisition failure; skip the frame and retry.
    Other,
}

/// Whether an acquisition error calls for reconfiguring the surface before
/// the next attempt: exactly the lost and outdated classes do.
pub fn should_reconfigure(error: &SurfaceErrorKind) -> (r: bool)
    ensures
        r <==> (*error == SurfaceErrorKind::Lost || *error == SurfaceErrorKind::Outdated),
{
    matches!(error, SurfaceErrorKind::Lost | SurfaceErrorKind::Outdated)
}

/// One format the surface offers: the GPU API's format value, carried
/// opaquely, paired with whether it is sRGB-capable. The flag is read off
/// the format when the surface's capabilities are queried.
#[derive(Copy, Clone)]
pub struct SurfaceFormat {
    format: wgpu::TextureFormat,
    srgb: bool,
}

impl SurfaceFormat {
    /// Whether the format is sRGB-capable.
    pub closed spec fn spec_srgb(&self) -> bool {
        self.srgb
    }

    /// Pair a format value with whether it is sRGB-capable.
    pub fn new(format: wgpu::TextureFormat, srgb: bool) -> (r: Self)
        ensures
            r.spec_srgb() == srgb,
    {
        Self { format, srgb }
    }

    /// Whether the format is sRGB-capable.
    pub fn is_srgb(&self) -> (b: bool)
        ensures
            b == self.spec_srgb(),
    {
        self.srgb
    }

    /// The GPU API's format value.
    pub fn texture_format(&self) -> wgpu::TextureFormat {
        self.format
    }
}

/// The first sRGB-capable format of an offer, if any.
pub open spec fn first_srgb_format(offered: Seq<SurfaceFormat>) -> Option<SurfaceFormat>
    decreases offered.len(),
{
    if offered.len() == 0 {
        None
    } else if offered[0].spec_srgb() {
        Some(offered[0])
    } else {
        first_srgb_format(offered.drop_first())
    }
}

/// The surface format the context configures: the first sRGB-capable format
/// the surface offers, else the first offered; none only when nothing is
/// offered.
pub open spec fn chosen_surface_format(offered: Seq<SurfaceFormat>) -> Option<SurfaceFormat> {
    match first_srgb_format(offered) {
        Some(f) => Some(f),
        None => if offered.len() == 0 {
            None
        } else {
            Some(offered[0])
        },
    }
}

proof fn lemma_first_srgb_skip(offered: Seq<SurfaceFormat>, i: int)
    requires
        0 <= i <= offered.len(),
        forall|j: int| 0 <= j < i ==> !(#[trigger] offered[j]).spec_srgb(),
    ensures
        first_srgb_format(offered.skip(i)) == first_srgb_format(offered),
    decreases i,
{
    if i == 0 {
        assert(offered.skip(0) =~= offered);
    } else {
        lemma_first_srgb_skip(offered, i - 1);
        assert(offered.skip(i - 1)[0] == offered[i - 1]);
        assert(offered.skip(i - 1).drop_first() =~= offered.skip(i));
        assert(first_srgb_format(offered.skip(i - 1)) == first_srgb_format(
            offered.skip(i - 1).drop_first(),
        ));
    }
}

proof fn lemma_first_srgb_props(offered: Seq<SurfaceFormat>)
    ensures
        first_srgb_format(offered) matches Some(f) ==> f.spec_srgb(),
        (first_srgb_format(offered) is Some) <==> (exists|i: int|
            0 <= i < offered.len() && (#[trigger] offered[i]).spec_srgb()),
    decreases offered.len(),
{
    if offered.len() == 0 {
    } else if offered[0].spec_srgb() {
        assert(0 <= 0 < offered.len() && offered[0].spec_srgb());
    } else {
        lemma_first_srgb_props(offered.drop_first());
        if exists|i: int| 0 <= i < offered.len() && (#[trigger] offered[i]).spec_srgb() {
            let i = choose|i: int| 0 <= i < offered.len() && (#[trigger] offered[i]).spec_srgb();
            assert(offered.drop_first()[i - 1] == offered[i]);
        }
        if exists|i: int|
            0 <= i < offered.drop_first().len() && (#[trigger] offered.drop_first()[i]).spec_srgb() {
            let i = choose|i: int|
                0 <= i < offered.drop_first().len()
                    && (#[trigger] offered.drop_first()[i]).spec_srgb();
            assert(offered[i + 1] == offered.drop_first()[i]);
        }
    }
}

/// The format choice implements the preference rule: whenever the surface
/// offers an sRGB-capable format, an sRGB-capable one is chosen; with none
/// offered, the first offered format is chosen; only an empty offer yields
/// no choice.
pub proof fn lemma_format_choice_prefers_srgb(offered: Seq<SurfaceFormat>)
    ensures
        (exists|i: int| 0 <= i < offered.len() && (#[trigger] offered[i]).spec_srgb()) ==> (
        chosen_surface_format(offered) matches Some(f) && f.spec_srgb()),
        !(exists|i: int| 0 <= i < offered.len() && (#[trigger] offered[i]).spec_srgb())
            && offered.len() > 0 ==> chosen_surface_format(offered) == Some(offered[0]),
        offered.len() == 0 <==> chosen_surface_format(offered) is None,
{
    lemma_first_srgb_props(offered);
}

/// Choose the surface format from what the surface offers: the first
/// sRGB-capable format, else the first offered; none only when the offer is
/// empty.
pub fn choose_surface_format(offered: &Vec<SurfaceFormat>) -> (r: Option<SurfaceFormat>)
    ensures
        r == chosen_surface_format(offered@),
{
    let n = offered.len();
    let mut i: usize = 0;
    while i < n
        invariant
            i <= n,
            n == offered@.len(),
            forall|j: int| 0 <= j < i ==> !(#[trigger] offered@[j]).spec_srgb(),
        decreases n - i,
    {
        if offered[i].is_srgb() {
            proof {
                lemma_first_srgb_skip(offered@, i as int);
                assert(offered@.skip(i as int)[0] == offered@[i as int]);
            }
            return Some(offered[i]);
        }
        i = i + 1;
    }
    proof {
        lemma_first_srgb_skip(offered@, n as int);
        assert(offered@.skip(n as int) =~= Seq::<SurfaceFormat>::empty());
    }
    if offered.len() > 0 {
        Some(offered[0])
    } else {
        None
    }
}

/// The camera uniform buffer with its bind group, and a record of the
/// matrix bits it currently holds.
pub struct CameraBinding {
    buffer: wgpu::Buffer,
    bind_group_layout: wgpu::BindGroupLayout,
    bind_group: wgpu::BindGroup,
    contents: Ghost<Seq<u32>>,
}

/// Relies on `wgpu::util::DeviceExt::create_buffer_init`: one uniform
/// buffer holding exactly the given matrix bits, writable from the queue.
#[verifier::external_body]
fn create_camera_uniform_buffer(device: &wgpu::Device, data: &[u32; 16]) -> (b: wgpu::Buffer) {
    device.create_buffer_init(&wgpu::util::BufferInitDescriptor {
        label: Some("Camera Uniform Buffer"),
        usage: wgpu::BufferUsages::UNIFORM | wgpu::BufferUsages::COPY_DST,
        contents: bytemuck::bytes_of(data),
    })
}

/// Relies on `wgpu::Device::create_bind_group_layout`: one vertex-stage
/// binding for the camera uniform buffer.
#[verifier::external_body]
fn camera_bind_group_layout(device: &wgpu::Device) -> (l: wgpu::BindGroupLayout) {
    let ty = wgpu::BindingType::Buffer {
        ty: wgpu::BufferBindingType::Uniform,
        has_dynamic_offset: false,
        min_binding_size: None,
    };
    let entry = wgpu::BindGroupLayoutEntry { binding: 0, visibility: wgpu::ShaderStages::VERTEX, ty, count: None };
    device.create_bind_group_layout(&wgpu::BindGroupLayoutDescriptor {
        label: Some("Camera Bind Group Layout"),
        entries: &[entry],
    })
}

/// Relies on `wgpu::Device::create_bind_group`: binds the whole camera
/// buffer at slot zero of the given layout.
#[verifier::external_body]
fn camera_bind_group(
    device: &wgpu::Device,
    layout: &wgpu::BindGroupLayout,
    buffer: &wgpu::Buffer,
) -> (g: wgpu::BindGroup) {
    device.create_bind_group(&wgpu::BindGroupDescriptor {
        label: Some("Camera Bind Group"),
        layout,
        entries: &[wgpu::BindGroupEntry { binding: 0, resource: buffer.as_entire_binding() }],
    })
}

/// Relies on `wgpu::Queue::write_buffer`: overwrites the camera binding's
/// 64-byte buffer with the given 64 bytes of matrix bits.
#[verifier::external_body]
fn write_camera_buffer(queue: &wgpu::Queue, binding: &CameraBinding, data: &[u32; 16]) {
    queue.write_buffer(&binding.buffer, 0, bytemuck::bytes_of(data));
}

impl CameraBinding {
    /// The matrix bits the camera buffer currently holds.
    pub closed spec fn spec_contents(&self) -> Seq<u32> {
        self.contents@
    }

    /// The layout of the camera binding, for building the pipeline layout.
    pub fn bind_group_layout(&self) -> &wgpu::BindGroupLayout {
        &self.bind_group_layout
    }

    /// The camera bind group, bound at slot zero of each draw.
    pub fn bind_group(&self) -> &wgpu::BindGroup {
        &self.bind_group
    }

    /// Overwrite the camera buffer with the given matrix bits.
    pub(crate) fn write(&mut self, queue: &wgpu::Queue, data: &[u32; 16])
        ensures
            final(self).spec_contents() == data@,
    {
        write_camera_buffer(queue, self, data);
        self.contents = Ghost(data@);
    }
}

/// Relies on `wgpu::Surface::configure`: binds the surface to the device
/// with the given format, vsync-style presentation and a frame latency of
/// two, at the given pixel size. Validation fails on a zero dimension and
/// on one beyond the device's default 2D-texture limit, so the size must
/// lie within it; the format must be one read from the surface's own
/// capabilities, which is where every caller's format comes from.
#[verifier::external_body]
fn configure_surface(
    surface: &wgpu::Surface<'static>,
    device: &wgpu::Device,
    format: &SurfaceFormat,
    width: u32,
    height: u32,
)
    requires
        0 < width <= MAX_TEXTURE_SIDE,
        0 < height <= MAX_TEXTURE_SIDE,
{
    surface.configure(device, &wgpu::SurfaceConfiguration {
        usage: wgpu::TextureUsages::RENDER_ATTACHMENT,
        format: format.format,
        width,
        height,
        present_mode: wgpu::PresentMode::AutoVsync,
        alpha_mode: wgpu::CompositeAlphaMode::Auto,
        desired_maximum_frame_latency: 2,
        view_formats: vec![],
    });
}

/// Relies on `wgpu::Surface::get_current_texture`: the next presentable
/// frame, or the class of the acquisition failure, one class per error
/// variant.
#[verifier::external_body]
fn get_current_texture(surface: &wgpu::Surface<'static>) -> (r: Result<
    wgpu::SurfaceTexture,
    SurfaceErrorKind,
>) {
    match surface.get_current_texture() {
        Ok(t) => Ok(t),
        Err(wgpu::SurfaceError::Timeout) => Err(SurfaceErrorKind::Timeout),
        Err(wgpu::SurfaceError::Outdated) => Err(SurfaceErrorKind::Outdated),
        Err(wgpu::SurfaceError::Lost) => Err(SurfaceErrorKind::Lost),
        Err(wgpu::SurfaceError::OutOfMemory) => Err(SurfaceErrorKind::OutOfMemory),
        Err(wgpu::SurfaceError::Other) => Err(SurfaceErrorKind::Other),
    }
}

/// Relies on `wgpu::Texture::create_view`: a full view of the acquired
/// frame's texture.
#[verifier::external_body]
fn create_frame_view(frame: &wgpu::SurfaceTexture) -> (v: wgpu::TextureView) {
    frame.texture.create_view(&wgpu::TextureViewDescriptor::default())
}

/// Relies on `wgpu::Device::create_command_encoder`: a fresh command
/// encoder.
#[verifier::external_body]
fn create_command_encoder(device: &wgpu::Device) -> (e: wgpu::CommandEncoder) {
    device.create_command_encoder(&wgpu::CommandEncoderDescriptor::default())
}

/// Relies on `wgpu::CommandEncoder::begin_render_pass`: a fresh pass over
/// the given view, clearing it to the fixed near-black color; the pass has
/// recorded nothing yet.
#[verifier::external_body]
fn begin_clear_pass<'a>(encoder: &'a mut wgpu::CommandEncoder, view: &wgpu::TextureView) -> (p:
    wgpu::RenderPass<'a>)
    ensures
        pass_commands(p) == Seq::<crate::render::pass::RenderCommand>::empty(),
{
    let c = wgpu::Color { r: bytemuck::cast(F64_CLEAR_CHANNEL), g: bytemuck::cast(F64_CLEAR_CHANNEL), b: bytemuck::cast(F64_CLEAR_CHANNEL), a: bytemuck::cast(F64_ONE) };
    let ops = wgpu::Operations { load: wgpu::LoadOp::Clear(c), store: wgpu::StoreOp::Store };
    let attachment = wgpu::RenderPassColorAttachment { view, resolve_target: None, ops };
    encoder.begin_render_pass(&wgpu::RenderPassDescriptor {
        label: Some("Render Pass"),
        color_attachments: &[Some(attachment)],
        depth_stencil_attachment: None,
        timestamp_writes: None,
        occlusion_query_set: None,
    })
}

/// Relies on `Drop` of `wgpu::RenderPass`: ends the pass's recording.
#[verifier::external_body]
fn end_pass(pass: wgpu::RenderPass) {
    drop(pass);
}

/// Relies on `wgpu::CommandEncoder::finish`: closes the encoder into a
/// command buffer.
#[verifier::external_body]
fn finish_encoder(encoder: wgpu::CommandEncoder) -> (b: wgpu::CommandBuffer) {
    encoder.finish()
}

/// Relies on `wgpu::Queue::submit`: hands the command buffer to the GPU.
#[verifier::external_body]
fn submit_command(queue: &wgpu::Queue, buffer: wgpu::CommandBuffer) {
    queue.submit([buffer]);
}

/// Relies on `wgpu::SurfaceTexture::present`: schedules the frame for
/// presentation.
#[verifier::external_body]
fn present_frame(frame: wgpu::SurfaceTexture) {
    frame.present();
}

/// Provides a context for interacting with the GPU API.
///
/// The context stores all state needed to maintain the surface: the logical
/// device, the command queue, the surface itself with the pixel size it was
/// last configured at, the camera uniform binding, and the sprite pipeline.
pub struct RenderContext {
    device: wgpu::Device,
    queue: wgpu::Queue,
    surface: wgpu::Surface<'static>,
    format: SurfaceFormat,
    width: u32,
    height: u32,
    camera: CameraBinding,
    sprite_pipeline: SpritePipeline,
    configure_count: Ghost<nat>,
}

impl RenderContext {
    /// The width the surface was last configured at.
    pub closed spec fn spec_width(&self) -> u32 {
        self.width
    }

    /// The height the surface was last configured at.
    pub closed spec fn spec_height(&self) -> u32 {
        self.height
    }

    /// How many times the surface has been configured.
    pub closed spec fn spec_configure_count(&self) -> nat {
        self.configure_count@
    }

    /// The matrix bits the camera uniform buffer holds.
    pub closed spec fn camera_uniform(&self) -> Seq<u32> {
        self.camera.spec_contents()
    }

    /// The matrices the instance buffer holds.
    pub closed spec fn instances(&self) -> Seq<Seq<u32>> {
        self.sprite_pipeline.instances()
    }

    /// The instance count the next draw will request.
    pub closed spec fn spec_instance_count(&self) -> u32 {
        self.sprite_pipeline.spec_instance_count()
    }

    /// Whether the last frame found more sprites than the instance capacity
    /// and clamped the drawn set.
    pub closed spec fn spec_instance_overflow(&self) -> bool {
        self.sprite_pipeline.spec_overflowed()
    }

    /// The surface format the context was configured with.
    pub closed spec fn spec_format(&self) -> SurfaceFormat {
        self.format
    }

    /// The context's invariant: the stored size is positive and within the
    /// device's default 2D-texture limit, and the sprite pipeline is well
    /// formed.
    pub closed spec fn wf(&self) -> bool {
        &&& 0 < self.width <= MAX_TEXTURE_SIDE
        &&& 0 < self.height <= MAX_TEXTURE_SIDE
        &&& self.sprite_pipeline.wf()
    }

    /// Whether the last frame found more sprites than the instance capacity
    /// and clamped the drawn set: the reportable signal for a capacity
    /// violation.
    pub fn instance_overflow(&self) -> (b: bool)
        ensures
            b == self.spec_instance_overflow(),
    {
        self.sprite_pipeline.instance_overflow()
    }

    /// Create the camera uniform buffer, holding the identity matrix until
    /// the first frame, with its layout and bind group.
    pub fn create_camera_buffer(device: &wgpu::Device) -> (r: CameraBinding)
        ensures
            r.spec_contents() == identity_mat(),
    {
        let m = identity_matrix();
        let buffer = create_camera_uniform_buffer(device, &m);
        let bind_group_layout = camera_bind_group_layout(device);
        let bind_group = camera_bind_group(device, &bind_group_layout, &buffer);
        CameraBinding { buffer, bind_group_layout, bind_group, contents: Ghost(m@) }
    }

    /// Assemble the context from its prebuilt parts: choose the surface
    /// format from what the surface offers — an sRGB-capable one when
    /// offered, else the first — and configure the surface at the given
    /// initial size, which must be positive and within the device's default
    /// 2D-texture limit.
    pub fn new(
        device: wgpu::Device,
        queue: wgpu::Queue,
        surface: wgpu::Surface<'static>,
        offered_formats: Vec<SurfaceFormat>,
        width: u32,
        height: u32,
        camera: CameraBinding,
        sprite_pipeline: SpritePipeline,
    ) -> (r: Self)
        requires
            offered_formats@.len() > 0,
            0 < width <= MAX_TEXTURE_SIDE,
            0 < height <= MAX_TEXTURE_SIDE,
            sprite_pipeline.wf(),
        ensures
            r.wf(),
            r.spec_width() == width,
            r.spec_height() == height,
            r.spec_configure_count() == 1,
            r.camera_uniform() == camera.spec_contents(),
            r.instances() == sprite_pipeline.instances(),
            Some(r.spec_format()) == chosen_surface_format(offered_formats@),
            (exists|i: int|
                0 <= i < offered_formats@.len() && (#[trigger] offered_formats@[i]).spec_srgb())
                ==> r.spec_format().spec_srgb(),
    {
        proof {
            lemma_format_choice_prefers_srgb(offered_formats@);
        }
        let format = choose_surface_format(&offered_formats).unwrap();
        configure_surface(&surface, &device, &format, width, height);
        Self {
            device,
            queue,
            surface,
            format,
            width,
            height,
            camera,
            sprite_pipeline,
            configure_count: Ghost(1),
        }
    }

    /// Resize the surface. Both dimensions positive and within the device's
    /// default 2D-texture limit: store the new size and reconfigure the
    /// surface, exactly once, keeping the chosen format. Otherwise — a zero
    /// dimension, as from a minimized window, or one beyond the limit —
    /// change nothing.
    pub fn resize(&mut self, new_width: u32, new_height: u32)
        requires
            old(self).wf(),
        ensures
            final(self).wf(),
            0 < new_width <= MAX_TEXTURE_SIDE && 0 < new_height <= MAX_TEXTURE_SIDE ==> {
                &&& final(self).spec_width() == new_width
                &&& final(self).spec_height() == new_height
                &&& final(self).spec_configure_count() == old(self).spec_configure_count() + 1
                &&& final(self).spec_format() == old(self).spec_format()
                &&& final(self).camera_uniform() == old(self).camera_uniform()
                &&& final(self).instances() == old(self).instances()
                &&& final(self).spec_instance_count() == old(self).spec_instance_count()
                &&& final(self).spec_instance_overflow() == old(self).spec_instance_overflow()
            },
            !(0 < new_width <= MAX_TEXTURE_SIDE && 0 < new_height <= MAX_TEXTURE_SIDE)
                ==> *final(self) == *old(self),
    {
        if texture_size_supported(new_width, new_height) {
            self.width = new_width;
            self.height = new_height;
            configure_surface(&self.surface, &self.device, &self.format, new_width, new_height);
            self.configure_count = Ghost(self.configure_count@ + 1);
        }
    }

    /// Recompute the view-projection for every primary camera, last one
    /// winning, and upload it; with no camera, keep the previous uniform.
    fn update_camera_buffer(&mut self, world: &hecs::World)
        ensures
            final(self).width == old(self).width,
            final(self).height == old(self).height,
            final(self).format == old(self).format,
            final(self).configure_count == old(self).configure_count,
            final(self).sprite_pipeline == old(self).sprite_pipeline,
            world_cameras(*world).len() == 0 ==> final(self).camera.spec_contents() == old(
                self,
            ).camera.spec_contents(),
            world_cameras(*world).len() > 0 ==> final(self).camera.spec_contents()
                == view_projection(
                old(self).width,
                old(self).height,
                world_cameras(*world).last(),
            ),
    {
        let cams = camera_transforms(world);
        let ghost w0 = self.width;
        let ghost h0 = self.height;
        let ghost f0 = self.format;
        let ghost c0 = self.configure_count@;
        let ghost sp0 = self.sprite_pipeline;
        let ghost init = self.camera.spec_contents();
        let mut i: usize = 0;
        while i < cams.len()
            invariant
                i <= cams@.len(),
                cams@ == world_cameras(*world),
                self.width == w0,
                self.height == h0,
                self.format == f0,
                self.configure_count@ == c0,
                self.sprite_pipeline == sp0,
                i == 0 ==> self.camera.spec_contents() == init,
                i > 0 ==> self.camera.spec_contents() == view_projection(
                    w0,
                    h0,
                    cams@[i as int - 1],
                ),
            decreases cams@.len() - i,
        {
            let cam = cams[i];
            let m = camera_view_projection(self.width, self.height, &cam);
            self.camera.write(&self.queue, &m);
            i = i + 1;
        }
    }

    /// Render the current frame to the surface.
    ///
    /// On an acquisition failure the context is untouched and the error's
    /// class is returned. Otherwise the camera uniform is recomputed from
    /// the cameras in the store (last one winning; kept when there is
    /// none), the instance buffer is overwritten with the current sprites'
    /// matrices clamped to capacity, and one clear-and-draw pass is
    /// submitted and presented.
    pub fn render(&mut self, world: &mut hecs::World) -> (r: Result<(), SurfaceErrorKind>)
        requires
            old(self).wf(),
        ensures
            final(self).wf(),
            final(self).spec_width() == old(self).spec_width(),
            final(self).spec_height() == old(self).spec_height(),
            final(self).spec_configure_count() == old(self).spec_configure_count(),
            final(self).spec_format() == old(self).spec_format(),
            *final(world) == *old(world),
            r matches Err(_) ==> *final(self) == *old(self),
            r matches Ok(_) ==> {
                &&& final(self).instances() == instance_matrices(world_sprites(*old(world)))
                &&& (final(self).spec_instance_overflow() <==> world_sprites(*old(world)).len()
                    > MAX_INSTANCES)
                &&& final(self).spec_instance_count() as int == min(
                    world_sprites(*old(world)).len() as int,
                    MAX_INSTANCES as int,
                )
                &&& (world_cameras(*old(world)).len() == 0 ==> final(self).camera_uniform() == old(
                    self,
                ).camera_uniform())
                &&& (world_cameras(*old(world)).len() > 0 ==> final(self).camera_uniform()
                    == view_projection(
                    old(self).spec_width(),
                    old(self).spec_height(),
                    world_cameras(*old(world)).last(),
                ))
            },
    {
        let frame = match get_current_texture(&self.surface) {
            Ok(f) => f,
            Err(kind) => {
                return Err(kind);
            },
        };
        let view = create_frame_view(&frame);
        let mut encoder = create_command_encoder(&self.device);

        // Update the camera uniform buffer.
        self.update_camera_buffer(world);

        // Upload sprite information to the sprite pipeline.
        self.sprite_pipeline.prepare(&self.queue, world);

        let mut render_pass = begin_clear_pass(&mut encoder, &view);
        self.sprite_pipeline.draw(&mut render_pass, self.camera.bind_group());
        end_pass(render_pass);

        submit_command(&self.queue, finish_encoder(encoder));
        present_frame(frame);
        Ok(())
    }
}

} // verus!
