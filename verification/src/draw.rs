//! Planning the per-frame replay of the toolkit's draw-command list.
//!
//! Each command with a nonzero element count becomes one scissor-rectangle
//! setting followed by one indexed draw call covering the next slice of the
//! shared index buffer; a command with element count zero produces nothing.
//! Commands are replayed in emission order, and the index ranges of the
//! draw calls partition `[0, total)` contiguously.

use vstd::prelude::*;
use crate::fixed::FX_ONE;
use crate::fixed::Fx;
use crate::fixed::fx_scale_to_dim;
use crate::fixed::scaled_to_dim;

verus! {

/// A clip rectangle in normalized screen fractions: `x` and `y` are the
/// origin, `w` and `h` the extent, each at most 1.0.
#[derive(Clone, Copy, Debug, PartialEq, Eq, Structural)]
pub struct ClipRect {
    pub x: Fx,
    pub y: Fx,
    pub w: Fx,
    pub h: Fx,
}

/// Normalized coordinates never exceed 1.0; negative origins are allowed
/// and are clamped when converted to pixels.
pub open spec fn clip_wf(c: ClipRect) -> bool {
    &&& c.x.raw <= FX_ONE
    &&& c.y.raw <= FX_ONE
    &&& c.w.raw <= FX_ONE
    &&& c.h.raw <= FX_ONE
}

/// One draw command consumed from the toolkit: how many indices to draw
/// and the clip rectangle to draw them under.
#[derive(Clone, Copy, Debug, PartialEq, Eq, Structural)]
pub struct DrawCommand {
    pub elem_count: u32,
    pub clip: ClipRect,
}

/// One call to issue against the active render pass.
#[derive(Clone, Copy, Debug, PartialEq, Eq, Structural)]
pub enum GpuOp {
    /// Restrict rasterization to a pixel rectangle.
    SetScissor { x: u32, y: u32, width: u32, height: u32 },
    /// Draw indices `[first, first + count)` once.
    DrawIndexed { first: u32, count: u32 },
}

/// The pixel scissor rectangle of a clip rectangle on a `width` by `height`
/// screen: origins clamped to zero, fractions multiplied out.
pub open spec fn scissor_spec(c: ClipRect, width: u32, height: u32) -> GpuOp {
    GpuOp::SetScissor {
        x: scaled_to_dim(c.x.raw as int, width as int) as u32,
        y: scaled_to_dim(c.y.raw as int, height as int) as u32,
        width: scaled_to_dim(c.w.raw as int, width as int) as u32,
        height: scaled_to_dim(c.h.raw as int, height as int) as u32,
    }
}

/// The calls one command contributes when the running index offset is
/// `off`: none at all for an empty command.
pub open spec fn cmd_ops_spec(cmd: DrawCommand, width: u32, height: u32, off: u32) -> Seq<GpuOp> {
    if cmd.elem_count == 0 {
        Seq::empty()
    } else {
        seq![
            scissor_spec(cmd.clip, width, height),
            GpuOp::DrawIndexed { first: off, count: cmd.elem_count },
        ]
    }
}

/// The total element count of a command list.
pub open spec fn total_elems(cmds: Seq<DrawCommand>) -> int
    decreases cmds.len(),
{
    if cmds.len() == 0 {
        0
    } else {
        cmds[0].elem_count + total_elems(cmds.drop_first())
    }
}

/// The full call plan of a command list, starting at index offset `off`.
pub open spec fn plan_spec(cmds: Seq<DrawCommand>, width: u32, height: u32, off: u32) -> Seq<GpuOp>
    decreases cmds.len(),
{
    if cmds.len() == 0 {
        Seq::empty()
    } else {
        cmd_ops_spec(cmds[0], width, height, off) + plan_spec(
            cmds.drop_first(),
            width,
            height,
            ((off + cmds[0].elem_count) as u32),
        )
    }
}

/// The index ranges `(first, count)` of the draw calls a command list
/// produces, in order, skipping empty commands.
pub open spec fn draw_ranges(cmds: Seq<DrawCommand>, off: u32) -> Seq<(u32, u32)>
    decreases cmds.len(),
{
    if cmds.len() == 0 {
        Seq::empty()
    } else if cmds[0].elem_count == 0 {
        draw_ranges(cmds.drop_first(), off)
    } else {
        seq![(off, cmds[0].elem_count)] + draw_ranges(
            cmds.drop_first(),
            ((off + cmds[0].elem_count) as u32),
        )
    }
}

/// The draw calls among a call plan, as `(first, count)` pairs in order.
pub open spec fn draw_list(ops: Seq<GpuOp>) -> Seq<(u32, u32)>
    decreases ops.len(),
{
    if ops.len() == 0 {
        Seq::empty()
    } else {
        match ops[0] {
            GpuOp::DrawIndexed { first, count } => seq![(first, count)] + draw_list(
                ops.drop_first(),
            ),
            _ => draw_list(ops.drop_first()),
        }
    }
}

/// The counts of a list of draw ranges, summed.
pub open spec fn sum_counts(d: Seq<(u32, u32)>) -> int
    decreases d.len(),
{
    if d.len() == 0 {
        0
    } else {
        d[0].1 + sum_counts(d.drop_first())
    }
}

/// A total element count is never negative.
pub proof fn lemma_total_elems_nonneg(cmds: Seq<DrawCommand>)
    ensures
        total_elems(cmds) >= 0,
    decreases cmds.len(),
{
    if cmds.len() > 0 {
        lemma_total_elems_nonneg(cmds.drop_first());
    }
}

/// Extracting the draw calls distributes over concatenation of plans.
pub proof fn lemma_draw_list_add(a: Seq<GpuOp>, b: Seq<GpuOp>)
    ensures
        draw_list(a + b) == draw_list(a) + draw_list(b),
    decreases a.len(),
{
    if a.len() == 0 {
        assert(a + b =~= b);
        assert(draw_list(a) + draw_list(b) =~= draw_list(b));
    } else {
        assert((a + b).drop_first() =~= a.drop_first() + b);
        lemma_draw_list_add(a.drop_first(), b);
        match a[0] {
            GpuOp::DrawIndexed { first, count } => {
                assert(draw_list(a + b) =~= seq![(first, count)] + draw_list(a.drop_first() + b));
                assert(draw_list(a) + draw_list(b) =~= seq![(first, count)] + (draw_list(
                    a.drop_first(),
                ) + draw_list(b)));
            },
            _ => {},
        }
    }
}

/// A plan's draw calls are exactly the draw ranges of its command list:
/// scissor settings contribute nothing to the draw list.
pub proof fn lemma_plan_draws_are_ranges(cmds: Seq<DrawCommand>, width: u32, height: u32, off: u32)
    ensures
        draw_list(plan_spec(cmds, width, height, off)) == draw_ranges(cmds, off),
    decreases cmds.len(),
{
    if cmds.len() > 0 {
        let head_ops = cmd_ops_spec(cmds[0], width, height, off);
        let next_off: u32 = ((off + cmds[0].elem_count) as u32);
        lemma_draw_list_add(head_ops, plan_spec(cmds.drop_first(), width, height, next_off));
        lemma_plan_draws_are_ranges(cmds.drop_first(), width, height, next_off);
        if cmds[0].elem_count == 0 {
            assert(draw_list(head_ops) =~= Seq::<(u32, u32)>::empty());
            assert(draw_list(plan_spec(cmds, width, height, off)) =~= draw_ranges(cmds, off));
        } else {
            let tail = seq![GpuOp::DrawIndexed { first: off, count: cmds[0].elem_count }];
            assert(head_ops.drop_first() =~= tail);
            assert(tail.drop_first() =~= Seq::<GpuOp>::empty());
            assert(draw_list(Seq::<GpuOp>::empty()) =~= Seq::<(u32, u32)>::empty());
            assert(tail[0] == GpuOp::DrawIndexed { first: off, count: cmds[0].elem_count });
            assert(draw_list(tail) =~= seq![(off, cmds[0].elem_count)] + draw_list(
                tail.drop_first(),
            ));
            assert(draw_list(tail) =~= seq![(off, cmds[0].elem_count)]);
            assert(draw_list(head_ops) =~= seq![(off, cmds[0].elem_count)]);
            assert(draw_list(plan_spec(cmds, width, height, off)) =~= draw_ranges(cmds, off));
        }
    }
}

/// The draw ranges of a command list with total element count `t`, started
/// at offset `off` with `off + t` within range: every count is positive,
/// the first range starts at `off`, each later range starts where the one
/// before it ends, every range stays within `[off, off + t)`, and the
/// counts sum to `t` exactly.
pub proof fn lemma_draw_ranges_contiguous(cmds: Seq<DrawCommand>, off: u32)
    requires
        off + total_elems(cmds) <= u32::MAX,
    ensures
        ({
            let d = draw_ranges(cmds, off);
            let t = total_elems(cmds);
            &&& sum_counts(d) == t
            &&& forall|i: int| 0 <= i < d.len() ==> (#[trigger] d[i]).1 > 0
            &&& forall|i: int|
                0 <= i < d.len() ==> off <= (#[trigger] d[i]).0 && d[i].0 + d[i].1 <= off + t
            &&& (d.len() > 0 ==> d[0].0 == off)
            &&& forall|i: int| 0 <= i < d.len() - 1 ==> (#[trigger] d[i + 1]).0 == d[i].0 + d[i].1
        }),
    decreases cmds.len(),
{
    lemma_total_elems_nonneg(cmds);
    if cmds.len() > 0 {
        let head = cmds[0];
        let rest = cmds.drop_first();
        lemma_total_elems_nonneg(rest);
        let next_off: u32 = ((off + head.elem_count) as u32);
        lemma_draw_ranges_contiguous(rest, next_off);
        let d = draw_ranges(cmds, off);
        let dr = draw_ranges(rest, next_off);
        let t = total_elems(cmds);
        if head.elem_count == 0 {
            assert(next_off == off);
            assert(d =~= dr);
            assert(total_elems(rest) == t);
        } else {
            assert(d =~= seq![(off, head.elem_count)] + dr);
            assert(d.len() == 1 + dr.len());
            assert(d[0] == (off, head.elem_count));
            assert(d.drop_first() =~= dr);
            assert(forall|i: int| 0 <= i < dr.len() ==> d[i + 1] == (#[trigger] dr[i]));
            assert(total_elems(rest) == t - head.elem_count);
            assert(sum_counts(d) == head.elem_count + sum_counts(dr));
            assert forall|i: int| 0 <= i < d.len() implies (#[trigger] d[i]).1 > 0 by {
                if i > 0 {
                    assert(d[i] == dr[i - 1]);
                }
            }
            assert forall|i: int| 0 <= i < d.len() implies off <= (#[trigger] d[i]).0 && d[i].0
                + d[i].1 <= off + t by {
                if i > 0 {
                    assert(d[i] == dr[i - 1]);
                    assert(next_off <= dr[i - 1].0 && dr[i - 1].0 + dr[i - 1].1 <= next_off
                        + total_elems(rest));
                }
            }
            assert forall|i: int| 0 <= i < d.len() - 1 implies (#[trigger] d[i + 1]).0 == d[i].0
                + d[i].1 by {
                if i == 0 {
                    assert(d[1] == dr[0]);
                    assert(dr[0].0 == next_off);
                } else {
                    assert(d[i] == dr[i - 1]);
                    assert(d[i + 1] == dr[i]);
                    assert(dr[(i - 1) + 1].0 == dr[i - 1].0 + dr[i - 1].1);
                }
            }
        }
    }
}

/// Every draw call of a plan starts at or after `off`, has a positive
/// count, and ends at or before `off` plus the total element count.
pub proof fn lemma_plan_draw_bounds(cmds: Seq<DrawCommand>, width: u32, height: u32, off: u32)
    requires
        off + total_elems(cmds) <= u32::MAX,
    ensures
        ({
            let p = plan_spec(cmds, width, height, off);
            forall|j: int|
                0 <= j < p.len() ==> match #[trigger] p[j] {
                    GpuOp::DrawIndexed { first, count } => off <= first && count > 0 && first
                        + count <= off + total_elems(cmds),
                    _ => true,
                }
        }),
    decreases cmds.len(),
{
    lemma_total_elems_nonneg(cmds);
    if cmds.len() > 0 {
        let head_ops = cmd_ops_spec(cmds[0], width, height, off);
        let next_off: u32 = ((off + cmds[0].elem_count) as u32);
        let rest = cmds.drop_first();
        lemma_total_elems_nonneg(rest);
        lemma_plan_draw_bounds(rest, width, height, next_off);
        let p = plan_spec(cmds, width, height, off);
        let pr = plan_spec(rest, width, height, next_off);
        assert(p =~= head_ops + pr);
        assert(forall|j: int| 0 <= j < pr.len() ==> p[head_ops.len() + j] == (#[trigger] pr[j]));
    }
}

/// For a command list whose element counts sum to `t`, the draw calls of
/// its plan consume exactly `t` indices in all: the first call starts at
/// index zero, each later call starts exactly where the one before it
/// ended, so the ranges are disjoint and contiguous, and their counts sum
/// to `t`.
pub proof fn lemma_plan_partitions_indices(cmds: Seq<DrawCommand>, width: u32, height: u32)
    requires
        total_elems(cmds) <= u32::MAX,
    ensures
        ({
            let d = draw_list(plan_spec(cmds, width, height, 0));
            let t = total_elems(cmds);
            &&& d == draw_ranges(cmds, 0)
            &&& sum_counts(d) == t
            &&& forall|i: int| 0 <= i < d.len() ==> (#[trigger] d[i]).1 > 0
            &&& forall|i: int| 0 <= i < d.len() ==> (#[trigger] d[i]).0 + d[i].1 <= t
            &&& (d.len() > 0 ==> d[0].0 == 0)
            &&& forall|i: int| 0 <= i < d.len() - 1 ==> (#[trigger] d[i + 1]).0 == d[i].0 + d[i].1
        }),
{
    lemma_plan_draws_are_ranges(cmds, width, height, 0);
    lemma_draw_ranges_contiguous(cmds, 0);
}

/// How many commands of a list have a nonzero element count.
pub open spec fn count_nonzero(cmds: Seq<DrawCommand>) -> int
    decreases cmds.len(),
{
    if cmds.len() == 0 {
        0
    } else {
        (if cmds[0].elem_count == 0 {
            0int
        } else {
            1int
        }) + count_nonzero(cmds.drop_first())
    }
}

/// Each command with a nonzero element count contributes exactly one
/// scissor setting and one draw call, and a command with element count
/// zero contributes neither: the plan holds two calls per nonzero
/// command, and its draw calls number exactly the nonzero commands.
pub proof fn lemma_one_scissor_one_draw_per_nonzero(
    cmds: Seq<DrawCommand>,
    width: u32,
    height: u32,
    off: u32,
)
    ensures
        plan_spec(cmds, width, height, off).len() == 2 * count_nonzero(cmds),
        draw_ranges(cmds, off).len() == count_nonzero(cmds),
        draw_list(plan_spec(cmds, width, height, off)).len() == count_nonzero(cmds),
    decreases cmds.len(),
{
    lemma_plan_draws_are_ranges(cmds, width, height, off);
    if cmds.len() > 0 {
        let next_off: u32 = ((off + cmds[0].elem_count) as u32);
        lemma_one_scissor_one_draw_per_nonzero(cmds.drop_first(), width, height, next_off);
    }
}

/// A command with element count zero contributes no call at all to the
/// plan: no scissor setting and no draw.
pub proof fn lemma_zero_count_no_ops(cmd: DrawCommand, width: u32, height: u32, off: u32)
    requires
        cmd.elem_count == 0,
    ensures
        cmd_ops_spec(cmd, width, height, off) == Seq::<GpuOp>::empty(),
        plan_spec(seq![cmd], width, height, off) == Seq::<GpuOp>::empty(),
{
    assert(seq![cmd].drop_first() =~= Seq::<DrawCommand>::empty());
    assert(cmd_ops_spec(cmd, width, height, off) + plan_spec(
        Seq::<DrawCommand>::empty(),
        width,
        height,
        ((off + cmd.elem_count) as u32),
    ) =~= Seq::<GpuOp>::empty());
    assert(plan_spec(seq![cmd], width, height, off) =~= Seq::<GpuOp>::empty());
}

/// Computes the call plan for a command list on a `width` by `height`
/// screen, and the index offset reached after the last command, which
/// equals the total element count of the list.
pub fn replay_plan(cmds: &Vec<DrawCommand>, width: u32, height: u32) -> (r: (Vec<GpuOp>, u32))
    requires
        width >= 1,
        height >= 1,
        forall|k: int| 0 <= k < cmds@.len() ==> clip_wf((#[trigger] cmds@[k]).clip),
        total_elems(cmds@) <= u32::MAX,
    ensures
        r.0@ == plan_spec(cmds@, width, height, 0),
        r.1 == total_elems(cmds@),
{
    let mut ops: Vec<GpuOp> = Vec::new();
    let mut offset: u32 = 0;
    let mut i: usize = 0;
    proof {
        assert(cmds@.skip(0) =~= cmds@);
        assert(ops@ + plan_spec(cmds@, width, height, 0) =~= plan_spec(cmds@, width, height, 0));
    }
    while i < cmds.len()
        invariant
            i <= cmds@.len(),
            width >= 1,
            height >= 1,
            forall|k: int| 0 <= k < cmds@.len() ==> clip_wf((#[trigger] cmds@[k]).clip),
            total_elems(cmds@) <= u32::MAX,
            offset + total_elems(cmds@.skip(i as int)) == total_elems(cmds@),
            plan_spec(cmds@, width, height, 0) == ops@ + plan_spec(
                cmds@.skip(i as int),
                width,
                height,
                offset,
            ),
        decreases cmds@.len() - i,
    {
        let ghost prev_ops = ops@;
        let ghost prev_off = offset;
        let cmd = cmds[i];
        proof {
            assert(cmds@.skip(i as int).drop_first() =~= cmds@.skip(i as int + 1));
            assert(cmds@.skip(i as int)[0] == cmds@[i as int]);
            lemma_total_elems_nonneg(cmds@.skip(i as int + 1));
            lemma_total_elems_nonneg(cmds@.skip(i as int));
        }
        if cmd.elem_count > 0 {
            let sx = fx_scale_to_dim(cmd.clip.x, width);
            let sy = fx_scale_to_dim(cmd.clip.y, height);
            let sw = fx_scale_to_dim(cmd.clip.w, width);
            let sh = fx_scale_to_dim(cmd.clip.h, height);
            ops.push(GpuOp::SetScissor { x: sx, y: sy, width: sw, height: sh });
            ops.push(GpuOp::DrawIndexed { first: offset, count: cmd.elem_count });
            proof {
                assert(ops@ =~= prev_ops + cmd_ops_spec(cmd, width, height, prev_off));
            }
        } else {
            proof {
                assert(ops@ =~= prev_ops + cmd_ops_spec(cmd, width, height, prev_off));
            }
        }
        offset = offset + cmd.elem_count;
        i = i + 1;
        proof {
            assert(plan_spec(cmds@.skip(i as int - 1), width, height, prev_off) == cmd_ops_spec(
                cmd,
                width,
                height,
                prev_off,
            ) + plan_spec(cmds@.skip(i as int), width, height, offset));
            assert(ops@ + plan_spec(cmds@.skip(i as int), width, height, offset) =~= prev_ops
                + plan_spec(cmds@.skip(i as int - 1), width, height, prev_off));
        }
    }
    proof {
        assert(cmds@.skip(cmds@.len() as int) =~= Seq::<DrawCommand>::empty());
        assert(ops@ + plan_spec(
            cmds@.skip(cmds@.len() as int),
            width,
            height,
            offset,
        ) =~= ops@);
    }
    (ops, offset)
}

} // verus!
