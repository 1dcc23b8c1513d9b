//! A model of what a render pass records.
//!
//! The pass handle is opaque, so the commands it has recorded are named as a
//! sequence, and each recording call states what it appends. The draw code's
//! contract then pins the exact commands of a sprite draw: which slots are
//! bound, in what order, and what instance range the draw requests.

use vstd::prelude::*;

verus! {

/// One recorded render-pass command. Handles are opaque, so a command names
/// the slot it binds, not the bound object.
#[derive(Copy, Clone, Debug, PartialEq, Eq, Structural)]
pub enum RenderCommand {
    SetPipeline,
    SetVertexBuffer { slot: u32 },
    SetIndexBuffer,
    SetBindGroup { slot: u32 },
    DrawIndexed { index_count: u32, instance_count: u32 },
}

/// The commands the pass has recorded so far, oldest first.
pub uninterp spec fn pass_commands(p: wgpu::RenderPass) -> Seq<RenderCommand>;

/// Relies on `wgpu::RenderPass::set_pipeline`: records one pipeline switch.
#[verifier::external_body]
pub(crate) fn set_pipeline(p: &mut wgpu::RenderPass, pipeline: &wgpu::RenderPipeline)
    ensures
        pass_commands(*final(p)) == pass_commands(*old(p)).push(RenderCommand::SetPipeline),
{
    p.set_pipeline(pipeline);
}

/// Relies on `wgpu::RenderPass::set_vertex_buffer`: records one vertex
/// buffer binding at the given slot.
#[verifier::external_body]
pub(crate) fn set_vertex_buffer(p: &mut wgpu::RenderPass, slot: u32, buffer: &wgpu::Buffer)
    ensures
        pass_commands(*final(p)) == pass_commands(*old(p)).push(
            RenderCommand::SetVertexBuffer { slot },
        ),
{
    p.set_vertex_buffer(slot, buffer.slice(..));
}

/// Relies on `wgpu::RenderPass::set_index_buffer`: records one 16-bit index
/// buffer binding.
#[verifier::external_body]
pub(crate) fn set_index_buffer_u16(p: &mut wgpu::RenderPass, buffer: &wgpu::Buffer)
    ensures
        pass_commands(*final(p)) == pass_commands(*old(p)).push(RenderCommand::SetIndexBuffer),
{
    p.set_index_buffer(buffer.slice(..), wgpu::IndexFormat::Uint16);
}

/// Relies on `wgpu::RenderPass::set_bind_group`: records one bind-group
/// binding at the given slot.
#[verifier::external_body]
pub(crate) fn set_bind_group(p: &mut wgpu::RenderPass, slot: u32, group: &wgpu::BindGroup)
    ensures
        pass_commands(*final(p)) == pass_commands(*old(p)).push(
            RenderCommand::SetBindGroup { slot },
        ),
{
    p.set_bind_group(slot, group, &[]);
}

/// Relies on `wgpu::RenderPass::draw_indexed`: records one indexed draw over
/// the first `index_count` indices and the instance range up to
/// `instance_count`.
#[verifier::external_body]
pub(crate) fn draw_indexed(p: &mut wgpu::RenderPass, index_count: u32, instance_count: u32)
    ensures
        pass_commands(*final(p)) == pass_commands(*old(p)).push(
            RenderCommand::DrawIndexed { index_count, instance_count },
        ),
{
    p.draw_indexed(0..index_count, 0, 0..instance_count);
}

} // verus!
