//! The fixed vertex memory layout that the toolkit's geometry baker and the
//! GPU pipeline's vertex-input state must agree on byte for byte.
//!
//! A vertex holds a two-float position, a two-float texture coordinate and a
//! four-byte packed RGBA color. The same `VertexLayout` value feeds both the
//! toolkit conversion configuration and the GPU vertex-attribute description,
//! and `lemma_layout_offsets_agree` states that the two offset sets coincide.

use vstd::prelude::*;

verus! {

/// Which vertex field a toolkit layout element describes.
#[derive(Clone, Copy, Debug, PartialEq, Eq, Structural)]
pub enum ToolkitAttribute {
    Position,
    Texcoord,
    Color,
    /// Terminator marker closing the layout list.
    AttributeCount,
}

/// The toolkit-side encoding of a vertex field.
#[derive(Clone, Copy, Debug, PartialEq, Eq, Structural)]
pub enum ToolkitFormat {
    /// Two 32-bit floats.
    FloatPair,
    /// Four bytes, one per channel.
    Rgba8,
    /// Terminator marker closing the layout list.
    FormatCount,
}

/// One element of the layout list handed to the toolkit converter.
#[derive(Clone, Copy, Debug, PartialEq, Eq, Structural)]
pub struct ToolkitLayoutElement {
    pub attribute: ToolkitAttribute,
    pub format: ToolkitFormat,
    pub offset: u32,
}

/// The GPU-side encoding of a vertex field.
#[derive(Clone, Copy, Debug, PartialEq, Eq, Structural)]
pub enum GpuVertexFormat {
    Float32x2,
    Uint32,
}

/// One vertex attribute of the GPU pipeline's vertex-input state.
#[derive(Clone, Copy, Debug, PartialEq, Eq, Structural)]
pub struct GpuVertexAttribute {
    pub format: GpuVertexFormat,
    pub offset: u32,
    pub shader_location: u32,
}

/// Byte offsets, stride and alignment of the vertex fields.
#[derive(Clone, Copy, Debug, PartialEq, Eq, Structural)]
pub struct VertexLayout {
    pub position_offset: u32,
    pub uv_offset: u32,
    pub color_offset: u32,
    pub stride: u32,
    pub alignment: u32,
}

/// The fields stand back to back: an 8-byte position, an 8-byte texture
/// coordinate, a 4-byte color, with 4-byte alignment and no padding.
pub open spec fn layout_wf(l: VertexLayout) -> bool {
    &&& l.position_offset == 0
    &&& l.uv_offset == l.position_offset + 8
    &&& l.color_offset == l.uv_offset + 8
    &&& l.stride == l.color_offset + 4
    &&& l.alignment == 4
}

/// The one layout this bridge uses: position at 0, texture coordinate at 8,
/// color at 16, 20 bytes per vertex, 4-byte aligned.
pub open spec fn vertex_layout_spec() -> VertexLayout {
    VertexLayout { position_offset: 0, uv_offset: 8, color_offset: 16, stride: 20, alignment: 4 }
}

/// Builds the vertex layout.
pub fn vertex_layout() -> (l: VertexLayout)
    ensures
        l == vertex_layout_spec(),
        layout_wf(l),
{
    VertexLayout { position_offset: 0, uv_offset: 8, color_offset: 16, stride: 20, alignment: 4 }
}

/// The layout list handed to the toolkit converter: one element per vertex
/// field, closed by the toolkit's terminator element.
pub open spec fn toolkit_elements_spec(l: VertexLayout) -> Seq<ToolkitLayoutElement> {
    seq![
        ToolkitLayoutElement {
            attribute: ToolkitAttribute::Position,
            format: ToolkitFormat::FloatPair,
            offset: l.position_offset,
        },
        ToolkitLayoutElement {
            attribute: ToolkitAttribute::Texcoord,
            format: ToolkitFormat::FloatPair,
            offset: l.uv_offset,
        },
        ToolkitLayoutElement {
            attribute: ToolkitAttribute::Color,
            format: ToolkitFormat::Rgba8,
            offset: l.color_offset,
        },
        ToolkitLayoutElement {
            attribute: ToolkitAttribute::AttributeCount,
            format: ToolkitFormat::FormatCount,
            offset: 0,
        },
    ]
}

/// The vertex-attribute list handed to the GPU pipeline, shader locations
/// 0, 1 and 2.
pub open spec fn gpu_attributes_spec(l: VertexLayout) -> Seq<GpuVertexAttribute> {
    seq![
        GpuVertexAttribute {
            format: GpuVertexFormat::Float32x2,
            offset: l.position_offset,
            shader_location: 0,
        },
        GpuVertexAttribute {
            format: GpuVertexFormat::Float32x2,
            offset: l.uv_offset,
            shader_location: 1,
        },
        GpuVertexAttribute { format: GpuVertexFormat::Uint32, offset: l.color_offset, shader_location: 2 },
    ]
}

/// Builds the toolkit-side layout list.
pub fn toolkit_elements(l: &VertexLayout) -> (v: Vec<ToolkitLayoutElement>)
    ensures
        v@ == toolkit_elements_spec(*l),
{
    let mut v: Vec<ToolkitLayoutElement> = Vec::new();
    v.push(ToolkitLayoutElement {
        attribute: ToolkitAttribute::Position,
        format: ToolkitFormat::FloatPair,
        offset: l.position_offset,
    });
    v.push(ToolkitLayoutElement {
        attribute: ToolkitAttribute::Texcoord,
        format: ToolkitFormat::FloatPair,
        offset: l.uv_offset,
    });
    v.push(ToolkitLayoutElement {
        attribute: ToolkitAttribute::Color,
        format: ToolkitFormat::Rgba8,
        offset: l.color_offset,
    });
    v.push(ToolkitLayoutElement {
        attribute: ToolkitAttribute::AttributeCount,
        format: ToolkitFormat::FormatCount,
        offset: 0,
    });
    proof {
        assert(v@ =~= toolkit_elements_spec(*l));
    }
    v
}

/// Builds the GPU-side vertex-attribute list.
pub fn gpu_attributes(l: &VertexLayout) -> (v: Vec<GpuVertexAttribute>)
    ensures
        v@ == gpu_attributes_spec(*l),
{
    let mut v: Vec<GpuVertexAttribute> = Vec::new();
    v.push(GpuVertexAttribute {
        format: GpuVertexFormat::Float32x2,
        offset: l.position_offset,
        shader_location: 0,
    });
    v.push(GpuVertexAttribute {
        format: GpuVertexFormat::Float32x2,
        offset: l.uv_offset,
        shader_location: 1,
    });
    v.push(GpuVertexAttribute { format: GpuVertexFormat::Uint32, offset: l.color_offset, shader_location: 2 });
    proof {
        assert(v@ =~= gpu_attributes_spec(*l));
    }
    v
}

/// For every vertex layout, the byte offset of each field in the toolkit
/// conversion configuration equals the byte offset in the GPU pipeline's
/// vertex-attribute description, field for field in the same order.
pub proof fn lemma_layout_offsets_agree(l: VertexLayout)
    ensures
        toolkit_elements_spec(l).len() == 4,
        gpu_attributes_spec(l).len() == 3,
        forall|i: int|
            0 <= i < 3 ==> toolkit_elements_spec(l)[i].offset == gpu_attributes_spec(l)[i].offset,
{
}

} // verus!
