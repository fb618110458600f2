//! The trusted boundary to the GPU backend, and the verified replay of a
//! frame's draw plan against it.
//!
//! Only the three calls the per-frame path needs cross the boundary:
//! setting a scissor rectangle, issuing an indexed draw, and writing a
//! buffer. Each is wrapped once; everything around the calls — which
//! rectangles, which index ranges, in which order — is verified against
//! the plan of the draw-command list.

use vstd::prelude::*;
use crate::draw::DrawCommand;
use crate::draw::GpuOp;
use crate::draw::clip_wf;
use crate::draw::lemma_plan_draw_bounds;
use crate::draw::lemma_total_elems_nonneg;
use crate::draw::plan_spec;
use crate::draw::replay_plan;
use crate::draw::total_elems;
use crate::scratch::MAX_INDEX_BUFFER_SIZE;
use crate::scratch::MAX_VERTEX_BUFFER_SIZE;
use crate::scratch::ScratchBuffer;

verus! {

/// The sixteen-bit index capacity of the fixed index buffer: a draw call
/// never reaches past this many entries.
pub const MAX_INDEX_ENTRIES: u32 = 65536;

#[verifier::external_type_specification]
#[verifier::external_body]
pub struct ExRenderPass<'a>(wgpu::RenderPass<'a>);

#[verifier::external_type_specification]
#[verifier::external_body]
pub struct ExQueue(wgpu::Queue);

#[verifier::external_type_specification]
#[verifier::external_body]
pub struct ExBuffer(wgpu::Buffer);

/// Relies on wgpu::RenderPass::set_scissor_rect: records the pixel
/// rectangle that later draws on this pass are clipped to.
#[verifier::external_body]
fn pass_set_scissor<'a>(pass: &mut wgpu::RenderPass<'a>, x: u32, y: u32, width: u32, height: u32) {
    pass.set_scissor_rect(x, y, width, height);
}

/// Relies on wgpu::RenderPass::draw_indexed: records one draw of indices
/// `[first, first + count)`, a single instance, base vertex zero. The call
/// reaches past the bound index buffer if the range does, so the range is
/// held inside the fixed buffer's sixteen-bit entry capacity.
#[verifier::external_body]
fn pass_draw_indexed<'a>(pass: &mut wgpu::RenderPass<'a>, first: u32, count: u32)
    requires
        first + count <= MAX_INDEX_ENTRIES,
{
    pass.draw_indexed(first..first + count, 0, 0..1);
}

/// Relies on wgpu::Queue::write_buffer: schedules a copy of `data` into
/// `buffer` starting at byte `offset`. The call validates synchronously
/// and fails on an offset or length that is not a multiple of four, so
/// those are required here. It also fails on a write overrunning the
/// destination, which no contract over the opaque buffer can state: the
/// callers write the fixed scratch capacities into buffers this bridge
/// prescribes at exactly those sizes.
#[verifier::external_body]
fn queue_write_buffer(queue: &wgpu::Queue, buffer: &wgpu::Buffer, offset: u64, data: &[u8])
    requires
        offset % 4 == 0,
        data@.len() % 4 == 0,
{
    queue.write_buffer(buffer, offset, data);
}

/// Replays a frame's draw-command list against the active render pass:
/// for each command with a nonzero element count, in emission order, one
/// scissor setting followed by one indexed draw over the next contiguous
/// index range. Commands with element count zero issue nothing. Returns
/// the calls issued, which are exactly the plan of the list.
pub fn draw_gui<'a>(
    pass: &mut wgpu::RenderPass<'a>,
    cmds: &Vec<DrawCommand>,
    screen_width: u32,
    screen_height: u32,
) -> (issued: Vec<GpuOp>)
    requires
        screen_width >= 1,
        screen_height >= 1,
        forall|k: int| 0 <= k < cmds@.len() ==> clip_wf((#[trigger] cmds@[k]).clip),
        total_elems(cmds@) <= MAX_INDEX_ENTRIES,
    ensures
        issued@ == plan_spec(cmds@, screen_width, screen_height, 0),
{
    proof {
        lemma_total_elems_nonneg(cmds@);
        lemma_plan_draw_bounds(cmds@, screen_width, screen_height, 0);
    }
    let planned = replay_plan(cmds, screen_width, screen_height);
    let ops = planned.0;
    let mut i: usize = 0;
    while i < ops.len()
        invariant
            i <= ops@.len(),
            ops@ == plan_spec(cmds@, screen_width, screen_height, 0),
            total_elems(cmds@) <= MAX_INDEX_ENTRIES,
            forall|j: int|
                0 <= j < ops@.len() ==> match #[trigger] ops@[j] {
                    GpuOp::DrawIndexed { first, count } => first + count <= total_elems(cmds@),
                    _ => true,
                },
        decreases ops@.len() - i,
    {
        let op = ops[i];
        match op {
            GpuOp::SetScissor { x, y, width, height } => {
                pass_set_scissor(pass, x, y, width, height);
            },
            GpuOp::DrawIndexed { first, count } => {
                pass_draw_indexed(pass, first, count);
            },
        }
        i = i + 1;
    }
    ops
}

/// Uploads one frame's geometry: the index and vertex scratch buffers are
/// written whole into their GPU buffers from byte zero, a full-range
/// replacement with no partial-update tracking. The scratch buffers must
/// hold their prescribed fixed capacities, which the destination buffers
/// are created at, so the writes fit exactly.
pub fn upload_geometry(
    queue: &wgpu::Queue,
    index_buffer: &wgpu::Buffer,
    vertex_buffer: &wgpu::Buffer,
    indices: &ScratchBuffer,
    vertices: &ScratchBuffer,
)
    requires
        indices.capacity_spec() == MAX_INDEX_BUFFER_SIZE as int,
        vertices.capacity_spec() == MAX_VERTEX_BUFFER_SIZE as int,
{
    let index_bytes = indices.as_slice();
    let vertex_bytes = vertices.as_slice();
    queue_write_buffer(queue, index_buffer, 0, index_bytes);
    queue_write_buffer(queue, vertex_buffer, 0, vertex_bytes);
}

} // verus!
