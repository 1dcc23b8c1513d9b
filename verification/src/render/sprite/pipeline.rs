//! The sprite draw pipeline: shared quad geometry, a fixed-capacity
//! instance buffer, the shared texture binding, and the per-frame steps
//! that fill and draw them.
//!
//! Each [`SpritePipeline::prepare`] gathers the current sprite transforms,
//! computes one model matrix per sprite, and overwrites the instance buffer
//! with exactly those matrices, clamped to the buffer's capacity; the
//! instance count is set to the number written. Each
//! [`SpritePipeline::draw`] records one indexed draw of the six quad
//! indices over exactly that many instances.

use vstd::math::min;
use vstd::prelude::*;

use wgpu::util::DeviceExt;

use crate::mat4::{F32_ONE, F32_ZERO};
use crate::render::pass::{
    draw_indexed, pass_commands, set_bind_group, set_index_buffer_u16, set_pipeline,
    set_vertex_buffer, RenderCommand,
};
use crate::render::util::{write_storage_data, StorageBinding, TextureBinding};
use crate::render::vertex::Vertex;
use crate::transform::{model_matrix, Transform};
use crate::world::{sprite_transforms, world_sprites};

verus! {

/// Bit pattern of one half, the quad's half extent.
pub const F32_HALF: u32 = 0x3F00_0000;

/// Bit pattern of negative one half.
pub const F32_NEG_HALF: u32 = 0xBF00_0000;

/// The maximum number of instances that will be rendered per frame.
pub const MAX_INSTANCES: u64 = 10_000;

/// The unique vertices of the sprite quad: a unit square centered on the
/// origin, with the texture mapped top-left to bottom-right.
pub open spec fn quad_vertices() -> Seq<Vertex> {
    seq![
        Vertex {
            position_x: F32_NEG_HALF,
            position_y: F32_HALF,
            texture_u: F32_ZERO,
            texture_v: F32_ZERO,
        },
        Vertex {
            position_x: F32_NEG_HALF,
            position_y: F32_NEG_HALF,
            texture_u: F32_ZERO,
            texture_v: F32_ONE,
        },
        Vertex {
            position_x: F32_HALF,
            position_y: F32_NEG_HALF,
            texture_u: F32_ONE,
            texture_v: F32_ONE,
        },
        Vertex {
            position_x: F32_HALF,
            position_y: F32_HALF,
            texture_u: F32_ONE,
            texture_v: F32_ZERO,
        },
    ]
}

/// The quad vertices flattened to words, in field order, ready for the
/// vertex buffer.
pub open spec fn quad_vertex_data() -> Seq<u32> {
    seq![
        F32_NEG_HALF, F32_HALF, F32_ZERO, F32_ZERO,
        F32_NEG_HALF, F32_NEG_HALF, F32_ZERO, F32_ONE,
        F32_HALF, F32_NEG_HALF, F32_ONE, F32_ONE,
        F32_HALF, F32_HALF, F32_ONE, F32_ZERO,
    ]
}

/// The index list drawing the quad as two triangles.
pub open spec fn quad_index_data() -> Seq<u16> {
    seq![0u16, 1u16, 2u16, 2u16, 3u16, 0u16]
}

/// The unique vertices of the sprite quad.
pub fn sprite_quad_vertices() -> (v: Vec<Vertex>)
    ensures
        v@ == quad_vertices(),
{
    let v: Vec<Vertex> = vec![
        Vertex {
            position_x: F32_NEG_HALF,
            position_y: F32_HALF,
            texture_u: F32_ZERO,
            texture_v: F32_ZERO,
        },
        Vertex {
            position_x: F32_NEG_HALF,
            position_y: F32_NEG_HALF,
            texture_u: F32_ZERO,
            texture_v: F32_ONE,
        },
        Vertex {
            position_x: F32_HALF,
            position_y: F32_NEG_HALF,
            texture_u: F32_ONE,
            texture_v: F32_ONE,
        },
        Vertex {
            position_x: F32_HALF,
            position_y: F32_HALF,
            texture_u: F32_ONE,
            texture_v: F32_ZERO,
        },
    ];
    proof {
        assert(v@ =~= quad_vertices());
    }
    v
}

/// The quad vertices as words, ready for the vertex buffer.
pub fn sprite_quad_vertex_data() -> (v: Vec<u32>)
    ensures
        v@ == quad_vertex_data(),
{
    let v: Vec<u32> = vec![
        F32_NEG_HALF, F32_HALF, F32_ZERO, F32_ZERO,
        F32_NEG_HALF, F32_NEG_HALF, F32_ZERO, F32_ONE,
        F32_HALF, F32_NEG_HALF, F32_ONE, F32_ONE,
        F32_HALF, F32_HALF, F32_ONE, F32_ZERO,
    ];
    proof {
        assert(v@ =~= quad_vertex_data());
    }
    v
}

/// The quad's index list.
pub fn sprite_quad_indices() -> (v: Vec<u16>)
    ensures
        v@ == quad_index_data(),
{
    let v: Vec<u16> = vec![0u16, 1u16, 2u16, 2u16, 3u16, 0u16];
    proof {
        assert(v@ =~= quad_index_data());
    }
    v
}

/// Relies on `wgpu::util::DeviceExt::create_buffer_init`: a vertex buffer
/// holding exactly the given words.
#[verifier::external_body]
fn create_vertex_buffer_init(device: &wgpu::Device, data: &Vec<u32>) -> (b: wgpu::Buffer) {
    device.create_buffer_init(&wgpu::util::BufferInitDescriptor {
        label: Some("Sprite Vertex Buffer"),
        usage: wgpu::BufferUsages::VERTEX,
        contents: bytemuck::cast_slice(data.as_slice()),
    })
}

/// Relies on `wgpu::util::DeviceExt::create_buffer_init`: an index buffer
/// holding exactly the given 16-bit indices.
#[verifier::external_body]
fn create_index_buffer_init(device: &wgpu::Device, data: &Vec<u16>) -> (b: wgpu::Buffer) {
    device.create_buffer_init(&wgpu::util::BufferInitDescriptor {
        label: Some("Sprite Index Buffer"),
        usage: wgpu::BufferUsages::INDEX,
        contents: bytemuck::cast_slice(data.as_slice()),
    })
}

/// Create the shared quad vertex buffer, holding the quad's vertex words.
pub fn quad_vertex_buffer(device: &wgpu::Device) -> wgpu::Buffer {
    let data = sprite_quad_vertex_data();
    create_vertex_buffer_init(device, &data)
}

/// Create the shared quad index buffer, holding the quad's index list.
pub fn quad_index_buffer(device: &wgpu::Device) -> wgpu::Buffer {
    let data = sprite_quad_indices();
    create_index_buffer_init(device, &data)
}

/// The matrices a prepare call uploads for the given sprite transforms: one
/// model matrix per sprite, in order, clamped to the instance capacity.
pub open spec fn instance_matrices(sprites: Seq<Transform>) -> Seq<Seq<u32>> {
    sprites.take(min(sprites.len() as int, MAX_INSTANCES as int)).map(
        |i: int, t: Transform| model_matrix(t),
    )
}

/// The prepared instance set never outgrows the fixed capacity, and as
/// long as the sprites fit, none is dropped: below the capacity there is
/// exactly one model matrix per sprite, in order.
pub proof fn lemma_instance_capacity_clamp(sprites: Seq<Transform>)
    ensures
        instance_matrices(sprites).len() == min(sprites.len() as int, MAX_INSTANCES as int),
        instance_matrices(sprites).len() <= MAX_INSTANCES as int,
        sprites.len() <= MAX_INSTANCES ==> instance_matrices(sprites).len() == sprites.len(),
        forall|j: int|
            0 <= j < instance_matrices(sprites).len() ==> instance_matrices(sprites)[j]
                == model_matrix(sprites[j]),
{
}

/// The commands one sprite draw records: pipeline, quad geometry, the
/// camera, instance and texture groups at slots zero to two, and one
/// indexed draw of the six quad indices over `instance_count` instances.
pub open spec fn sprite_draw_commands(instance_count: u32) -> Seq<RenderCommand> {
    seq![
        RenderCommand::SetPipeline,
        RenderCommand::SetVertexBuffer { slot: 0 },
        RenderCommand::SetIndexBuffer,
        RenderCommand::SetBindGroup { slot: 0 },
        RenderCommand::SetBindGroup { slot: 1 },
        RenderCommand::SetBindGroup { slot: 2 },
        RenderCommand::DrawIndexed { index_count: 6, instance_count },
    ]
}

/// Compute the model matrix of each transform, in order, clamped to the
/// instance capacity: exactly the matrices one prepare call uploads for
/// that sprite list.
pub fn instance_matrices_for(transforms: &Vec<Transform>) -> (v: Vec<[u32; 16]>)
    ensures
        v@.map(|j: int, m: [u32; 16]| m@) == instance_matrices(transforms@),
{
    let total = transforms.len();
    let cap: usize = MAX_INSTANCES as usize;
    let n: usize = if total > cap {
        cap
    } else {
        total
    };
    let mut v: Vec<[u32; 16]> = Vec::new();
    let mut i: usize = 0;
    while i < n
        invariant
            i <= n,
            n <= transforms@.len(),
            n as int == min(transforms@.len() as int, MAX_INSTANCES as int),
            v@.len() == i,
            forall|j: int| 0 <= j < i ==> #[trigger] v@[j]@ == model_matrix(transforms@[j]),
        decreases n - i,
    {
        let m = transforms[i].matrix();
        v.push(m);
        i = i + 1;
    }
    proof {
        assert(v@.map(|j: int, m: [u32; 16]| m@) =~= instance_matrices(transforms@));
    }
    v
}

/// Gather every sprite's transform and compute its model matrix, in store
/// order, clamped to the instance capacity: exactly the matrices one
/// prepare call uploads.
pub fn gather_instance_matrices(world: &hecs::World) -> (v: Vec<[u32; 16]>)
    ensures
        v@.map(|j: int, m: [u32; 16]| m@) == instance_matrices(world_sprites(*world)),
{
    let transforms = sprite_transforms(world);
    instance_matrices_for(&transforms)
}

/// This pipeline is used for rendering sprites in the scene.
pub struct SpritePipeline {
    pipeline: wgpu::RenderPipeline,
    vertex_buffer: wgpu::Buffer,
    index_buffer: wgpu::Buffer,
    instance_binding: StorageBinding,
    instance_count: u32,
    overflowed: bool,
    texture_binding: TextureBinding,
    uploaded: Ghost<Seq<Seq<u32>>>,
}

impl SpritePipeline {
    /// The instance count the next draw will request.
    pub closed spec fn spec_instance_count(&self) -> u32 {
        self.instance_count
    }

    /// The matrices the instance buffer currently holds, front first.
    pub closed spec fn instances(&self) -> Seq<Seq<u32>> {
        self.uploaded@
    }

    /// Whether the last prepare found more sprites than the capacity and
    /// had to clamp the drawn set.
    pub closed spec fn spec_overflowed(&self) -> bool {
        self.overflowed
    }

    /// The pipeline's invariant: the instance buffer was allocated for
    /// exactly the fixed capacity, and the instance count counts what was
    /// last uploaded, within that capacity.
    pub closed spec fn wf(&self) -> bool {
        &&& self.instance_binding.spec_capacity() == MAX_INSTANCES
        &&& self.uploaded@.len() == self.instance_count
        &&& self.instance_count <= MAX_INSTANCES
    }

    /// Assemble the pipeline from its prebuilt GPU resources. The instance
    /// binding must have been created with the fixed instance capacity.
    pub fn new(
        pipeline: wgpu::RenderPipeline,
        vertex_buffer: wgpu::Buffer,
        index_buffer: wgpu::Buffer,
        instance_binding: StorageBinding,
        texture_binding: TextureBinding,
    ) -> (r: Self)
        requires
            instance_binding.spec_capacity() == MAX_INSTANCES,
        ensures
            r.wf(),
            r.spec_instance_count() == 0,
            r.instances() == Seq::<Seq<u32>>::empty(),
            !r.spec_overflowed(),
    {
        Self {
            pipeline,
            vertex_buffer,
            index_buffer,
            instance_binding,
            instance_count: 0,
            overflowed: false,
            texture_binding,
            uploaded: Ghost(Seq::empty()),
        }
    }

    /// The instance count the next draw will request.
    pub fn instance_count(&self) -> (n: u32)
        ensures
            n == self.spec_instance_count(),
    {
        self.instance_count
    }

    /// Whether the last prepare found more sprites than the capacity and
    /// clamped the drawn set: the reportable signal for a capacity
    /// violation.
    pub fn instance_overflow(&self) -> (b: bool)
        ensures
            b == self.spec_overflowed(),
    {
        self.overflowed
    }

    /// The layout of the instance storage binding, for building the
    /// pipeline layout.
    pub fn instance_bind_group_layout(&self) -> &wgpu::BindGroupLayout {
        self.instance_binding.bind_group_layout()
    }

    /// Gather every sprite's transform, compute its model matrix, and
    /// overwrite the instance buffer with exactly those matrices, clamped
    /// to the capacity; record how many were written, and whether the
    /// sprite count exceeded the capacity.
    pub fn prepare(&mut self, queue: &wgpu::Queue, world: &mut hecs::World)
        requires
            old(self).wf(),
        ensures
            final(self).wf(),
            *final(world) == *old(world),
            final(self).instances() == instance_matrices(world_sprites(*old(world))),
            final(self).spec_instance_count() as int == min(
                world_sprites(*old(world)).len() as int,
                MAX_INSTANCES as int,
            ),
            final(self).spec_overflowed() <==> world_sprites(*old(world)).len()
                > MAX_INSTANCES,
    {
        let transforms = sprite_transforms(world);
        let overflow = transforms.len() > MAX_INSTANCES as usize;
        let matrices = instance_matrices_for(&transforms);
        let n = matrices.len();
        proof {
            assert(matrices@.map(|j: int, m: [u32; 16]| m@).len() == matrices@.len());
            assert(instance_matrices(transforms@).len() == min(
                transforms@.len() as int,
                MAX_INSTANCES as int,
            ));
        }
        let mut data: Vec<u32> = Vec::new();
        let mut i: usize = 0;
        while i < n
            invariant
                i <= n,
                n == matrices@.len(),
                n as int <= MAX_INSTANCES as int,
                data@.len() == 16 * i,
                forall|j: int|
                    0 <= j < i ==> data@.subrange(16 * j, 16 * j + 16) == #[trigger] matrices@[j]@,
            decreases n - i,
        {
            let m = matrices[i];
            let mut k: usize = 0;
            while k < 16
                invariant
                    k <= 16,
                    i < n,
                    n == matrices@.len(),
                    data@.len() == 16 * i + k,
                    data@.subrange(16 * (i as int), data@.len() as int) == m@.take(k as int),
                    m@ == matrices@[i as int]@,
                    forall|j: int|
                        0 <= j < i ==> data@.subrange(16 * j, 16 * j + 16) == #[trigger] matrices@[j]@,
                decreases 16 - k,
            {
                let ghost pre = data@;
                data.push(m[k]);
                proof {
                    assert forall|j: int|
                        0 <= j < i implies data@.subrange(16 * j, 16 * j + 16)
                            == #[trigger] matrices@[j]@ by {
                        assert(data@.subrange(16 * j, 16 * j + 16) =~= pre.subrange(
                            16 * j,
                            16 * j + 16,
                        ));
                    }
                    assert(data@.subrange(16 * (i as int), data@.len() as int) =~= m@.take(
                        k as int + 1,
                    ));
                }
                k = k + 1;
            }
            proof {
                assert(data@.subrange(16 * (i as int), 16 * (i as int) + 16) == m@.take(16));
                assert(m@.take(16) =~= m@);
            }
            i = i + 1;
        }
        write_storage_data(queue, &self.instance_binding, &data);
        self.instance_count = n as u32;
        self.overflowed = overflow;
        self.uploaded = Ghost(Seq::new(n as nat, |j: int| data@.subrange(16 * j, 16 * j + 16)));
        proof {
            assert(self.uploaded@ =~= instance_matrices(transforms@));
        }
    }

    /// Record one sprite draw: the pipeline, the quad geometry, the camera,
    /// instance and texture groups at slots zero to two, and one indexed
    /// draw of the six quad indices over the prepared instance count.
    pub fn draw(&self, render_pass: &mut wgpu::RenderPass, camera_bind_group: &wgpu::BindGroup)
        ensures
            pass_commands(*final(render_pass)) == pass_commands(*old(render_pass))
                + sprite_draw_commands(self.spec_instance_count()),
    {
        set_pipeline(render_pass, &self.pipeline);
        set_vertex_buffer(render_pass, 0, &self.vertex_buffer);
        set_index_buffer_u16(render_pass, &self.index_buffer);
        set_bind_group(render_pass, 0, camera_bind_group);
        set_bind_group(render_pass, 1, self.instance_binding.bind_group());
        set_bind_group(render_pass, 2, self.texture_binding.bind_group());
        draw_indexed(render_pass, 6, self.instance_count);
        proof {
            assert(pass_commands(*final(render_pass)) =~= pass_commands(*old(render_pass))
                + sprite_draw_commands(self.instance_count));
        }
    }
}

} // verus!
