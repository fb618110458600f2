//! The one-time GPU resource-set description: bind-group layout, pipeline
//! state, sampler and buffer sizes.
//!
//! These are plain values; the caller turns them into backend objects once
//! at construction. The vertex attributes come from the same layout the
//! toolkit converter is configured with, and the buffer sizes equal the
//! fixed scratch capacities, so a whole-range upload always fits.

use vstd::prelude::*;
use crate::layout::GpuVertexAttribute;
use crate::layout::gpu_attributes;
use crate::layout::gpu_attributes_spec;
use crate::layout::vertex_layout;
use crate::layout::vertex_layout_spec;
use crate::scratch::MAX_INDEX_BUFFER_SIZE;
use crate::scratch::MAX_VERTEX_BUFFER_SIZE;

verus! {

/// The byte size of the uniform buffer: a 4 by 4 matrix of 4-byte words.
pub const UNIFORM_BUFFER_SIZE: u64 = 4 * 16;

/// Which shader stage a binding is visible to.
#[derive(Clone, Copy, Debug, PartialEq, Eq, Structural)]
pub enum ShaderStage {
    Vertex,
    Fragment,
}

/// What a bind-group slot holds.
#[derive(Clone, Copy, Debug, PartialEq, Eq, Structural)]
pub enum BindingKind {
    /// A uniform buffer of at least `min_size` bytes.
    UniformBuffer { min_size: u64 },
    /// A sampled two-dimensional texture.
    Texture2d,
    /// A filtering sampler.
    Sampler,
}

/// One slot of the bind-group layout.
#[derive(Clone, Copy, Debug, PartialEq, Eq, Structural)]
pub struct BindGroupLayoutEntryDesc {
    pub binding: u32,
    pub visibility: ShaderStage,
    pub kind: BindingKind,
}

/// A blend factor of the color pipeline.
#[derive(Clone, Copy, Debug, PartialEq, Eq, Structural)]
pub enum BlendFactor {
    SrcAlpha,
    OneMinusSrcAlpha,
    One,
    Zero,
}

/// Source and destination factors of one blend equation; the operation is
/// addition.
#[derive(Clone, Copy, Debug, PartialEq, Eq, Structural)]
pub struct BlendDesc {
    pub src: BlendFactor,
    pub dst: BlendFactor,
}

/// The fixed render-pipeline state.
#[derive(Debug, PartialEq, Eq)]
pub struct PipelineDesc {
    pub front_face_clockwise: bool,
    pub cull_back_faces: bool,
    pub triangle_list: bool,
    pub sixteen_bit_indices: bool,
    pub color_blend: BlendDesc,
    pub alpha_blend: BlendDesc,
    pub vertex_stride: u32,
    pub attributes: Vec<GpuVertexAttribute>,
}

/// The font-atlas sampler: linear filtering, repeat addressing.
#[derive(Clone, Copy, Debug, PartialEq, Eq, Structural)]
pub struct SamplerDesc {
    pub linear_filter: bool,
    pub repeat_address: bool,
}

/// Byte sizes of the three GPU buffers.
#[derive(Clone, Copy, Debug, PartialEq, Eq, Structural)]
pub struct BufferSizes {
    pub index: u64,
    pub vertex: u64,
    pub uniform: u64,
}

/// Everything the one-time construction needs as plain values.
#[derive(Debug, PartialEq, Eq)]
pub struct GpuSetupDesc {
    pub bind_group_entries: Vec<BindGroupLayoutEntryDesc>,
    pub pipeline: PipelineDesc,
    pub sampler: SamplerDesc,
    pub buffer_sizes: BufferSizes,
}

/// The bind-group layout: the uniform buffer at slot 0 for the vertex
/// stage, the font-atlas texture at slot 1 and its sampler at slot 2 for
/// the fragment stage.
pub open spec fn bind_group_entries_spec() -> Seq<BindGroupLayoutEntryDesc> {
    seq![
        BindGroupLayoutEntryDesc {
            binding: 0,
            visibility: ShaderStage::Vertex,
            kind: BindingKind::UniformBuffer { min_size: UNIFORM_BUFFER_SIZE },
        },
        BindGroupLayoutEntryDesc {
            binding: 1,
            visibility: ShaderStage::Fragment,
            kind: BindingKind::Texture2d,
        },
        BindGroupLayoutEntryDesc {
            binding: 2,
            visibility: ShaderStage::Fragment,
            kind: BindingKind::Sampler,
        },
    ]
}

/// The exact setup this bridge always uses: clockwise front faces with
/// back-face culling, a triangle list over sixteen-bit indices, standard
/// source-alpha blending with pass-through alpha, the shared vertex
/// layout, and buffers sized to the fixed scratch capacities.
pub open spec fn gpu_setup_exact(d: GpuSetupDesc) -> bool {
    &&& d.bind_group_entries@ == bind_group_entries_spec()
    &&& d.pipeline.front_face_clockwise == true
    &&& d.pipeline.cull_back_faces == true
    &&& d.pipeline.triangle_list == true
    &&& d.pipeline.sixteen_bit_indices == true
    &&& d.pipeline.color_blend == BlendDesc {
        src: BlendFactor::SrcAlpha,
        dst: BlendFactor::OneMinusSrcAlpha,
    }
    &&& d.pipeline.alpha_blend == BlendDesc { src: BlendFactor::One, dst: BlendFactor::Zero }
    &&& d.pipeline.vertex_stride == vertex_layout_spec().stride
    &&& d.pipeline.attributes@ == gpu_attributes_spec(vertex_layout_spec())
    &&& d.sampler == SamplerDesc { linear_filter: true, repeat_address: true }
    &&& d.buffer_sizes.index == MAX_INDEX_BUFFER_SIZE as u64
    &&& d.buffer_sizes.vertex == MAX_VERTEX_BUFFER_SIZE as u64
    &&& d.buffer_sizes.uniform == UNIFORM_BUFFER_SIZE
}

/// Builds the GPU setup description.
pub fn gpu_setup() -> (d: GpuSetupDesc)
    ensures
        gpu_setup_exact(d),
{
    let mut entries: Vec<BindGroupLayoutEntryDesc> = Vec::new();
    entries.push(BindGroupLayoutEntryDesc {
        binding: 0,
        visibility: ShaderStage::Vertex,
        kind: BindingKind::UniformBuffer { min_size: UNIFORM_BUFFER_SIZE },
    });
    entries.push(BindGroupLayoutEntryDesc {
        binding: 1,
        visibility: ShaderStage::Fragment,
        kind: BindingKind::Texture2d,
    });
    entries.push(BindGroupLayoutEntryDesc {
        binding: 2,
        visibility: ShaderStage::Fragment,
        kind: BindingKind::Sampler,
    });
    proof {
        assert(entries@ =~= bind_group_entries_spec());
    }
    let layout = vertex_layout();
    let attributes = gpu_attributes(&layout);
    GpuSetupDesc {
        bind_group_entries: entries,
        pipeline: PipelineDesc {
            front_face_clockwise: true,
            cull_back_faces: true,
            triangle_list: true,
            sixteen_bit_indices: true,
            color_blend: BlendDesc { src: BlendFactor::SrcAlpha, dst: BlendFactor::OneMinusSrcAlpha },
            alpha_blend: BlendDesc { src: BlendFactor::One, dst: BlendFactor::Zero },
            vertex_stride: layout.stride,
            attributes,
        },
        sampler: SamplerDesc { linear_filter: true, repeat_address: true },
        buffer_sizes: BufferSizes {
            index: MAX_INDEX_BUFFER_SIZE as u64,
            vertex: MAX_VERTEX_BUFFER_SIZE as u64,
            uniform: UNIFORM_BUFFER_SIZE,
        },
    }
}

} // verus!
