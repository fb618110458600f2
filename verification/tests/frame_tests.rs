use gui_bridge::context::Context;
use gui_bridge::fixed::Frac;
use gui_bridge::layout::gpu_attributes;
use gui_bridge::layout::toolkit_elements;
use gui_bridge::layout::vertex_layout;
use gui_bridge::projection::projection;
use gui_bridge::scratch::MAX_INDEX_BUFFER_SIZE;
use gui_bridge::scratch::MAX_VERTEX_BUFFER_SIZE;
use gui_bridge::scratch::ScratchBuffer;
use gui_bridge::setup::BindingKind;
use gui_bridge::setup::BlendFactor;
use gui_bridge::setup::ShaderStage;
use gui_bridge::setup::gpu_setup;

#[test]
fn vertex_fields_stand_back_to_back() {
    let l = vertex_layout();
    assert_eq!(l.position_offset, 0);
    assert_eq!(l.uv_offset, 8);
    assert_eq!(l.color_offset, 16);
    assert_eq!(l.stride, 20);
    assert_eq!(l.alignment, 4);
}

#[test]
fn toolkit_and_gpu_offsets_agree() {
    let l = vertex_layout();
    let toolkit = toolkit_elements(&l);
    let gpu = gpu_attributes(&l);
    assert_eq!(toolkit.len(), 4);
    assert_eq!(gpu.len(), 3);
    for i in 0..3 {
        assert_eq!(toolkit[i].offset, gpu[i].offset);
        assert_eq!(gpu[i].shader_location, i as u32);
    }
    assert_eq!(toolkit[3].offset, 0);
}

#[test]
fn projection_scales_and_translates_exactly() {
    let m = projection(800, 600);
    assert_eq!(m.entries.len(), 16);
    assert_eq!(m.entries[0], Frac { num: 2, den: 800 });
    assert_eq!(m.entries[5], Frac { num: -2, den: 600 });
    assert_eq!(m.entries[10], Frac { num: -1, den: 1 });
    assert_eq!(m.entries[12], Frac { num: -1, den: 1 });
    assert_eq!(m.entries[13], Frac { num: 1, den: 1 });
    assert_eq!(m.entries[15], Frac { num: 1, den: 1 });
}

#[test]
fn projection_maps_corner_pixels_to_clip_corners() {
    let w = 800i64;
    let h = 600i64;
    // pixel (0, 0): x = (2*0 - w)/w = -1, y = (h - 2*0)/h = 1
    assert_eq!(2 * 0 - w, -1 * w);
    assert_eq!(h - 2 * 0, 1 * h);
    // pixel (w, h): x = (2*w - w)/w = 1, y = (h - 2*h)/h = -1
    assert_eq!(2 * w - w, 1 * w);
    assert_eq!(h - 2 * h, -1 * h);
}

#[test]
fn update_builds_the_fixed_conversion_config() {
    let ctx = Context::new();
    let u = ctx.update(800, 600);
    assert_eq!(u.config.vertex_size, 20);
    assert_eq!(u.config.vertex_alignment, 4);
    assert_eq!(u.config.global_alpha, Frac { num: 1, den: 1 });
    assert!(!u.config.shape_aa);
    assert!(!u.config.line_aa);
    assert_eq!(u.config.circle_segment_count, 22);
    assert_eq!(u.config.curve_segment_count, 22);
    assert_eq!(u.config.arc_segment_count, 22);
    assert_eq!(u.config.vertex_layout.len(), 4);
    assert_eq!(u.projection.entries[0], Frac { num: 2, den: 800 });
    assert_eq!(u.index_upload_len, MAX_INDEX_BUFFER_SIZE);
    assert_eq!(u.vertex_upload_len, MAX_VERTEX_BUFFER_SIZE);
}

#[test]
fn gpu_setup_matches_the_fixed_pipeline_state() {
    let d = gpu_setup();
    assert_eq!(d.bind_group_entries.len(), 3);
    assert_eq!(d.bind_group_entries[0].binding, 0);
    assert_eq!(d.bind_group_entries[0].visibility, ShaderStage::Vertex);
    assert_eq!(d.bind_group_entries[0].kind, BindingKind::UniformBuffer { min_size: 64 });
    assert_eq!(d.bind_group_entries[1].kind, BindingKind::Texture2d);
    assert_eq!(d.bind_group_entries[2].kind, BindingKind::Sampler);
    assert!(d.pipeline.front_face_clockwise);
    assert!(d.pipeline.cull_back_faces);
    assert!(d.pipeline.triangle_list);
    assert!(d.pipeline.sixteen_bit_indices);
    assert_eq!(d.pipeline.color_blend.src, BlendFactor::SrcAlpha);
    assert_eq!(d.pipeline.color_blend.dst, BlendFactor::OneMinusSrcAlpha);
    assert_eq!(d.pipeline.alpha_blend.src, BlendFactor::One);
    assert_eq!(d.pipeline.alpha_blend.dst, BlendFactor::Zero);
    assert_eq!(d.pipeline.vertex_stride, 20);
    assert_eq!(d.buffer_sizes.index, MAX_INDEX_BUFFER_SIZE as u64);
    assert_eq!(d.buffer_sizes.vertex, MAX_VERTEX_BUFFER_SIZE as u64);
    assert_eq!(d.buffer_sizes.uniform, 64);
    // the pipeline's attributes carry the same offsets as the vertex layout
    let l = vertex_layout();
    assert_eq!(d.pipeline.attributes[0].offset, l.position_offset);
    assert_eq!(d.pipeline.attributes[1].offset, l.uv_offset);
    assert_eq!(d.pipeline.attributes[2].offset, l.color_offset);
}

#[test]
fn vertex_data_at_exact_capacity_is_kept_whole() {
    let mut buf = ScratchBuffer::new(MAX_VERTEX_BUFFER_SIZE);
    let data = vec![0xabu8; MAX_VERTEX_BUFFER_SIZE];
    let written = buf.write(&data);
    assert_eq!(written, MAX_VERTEX_BUFFER_SIZE);
    assert_eq!(buf.used(), MAX_VERTEX_BUFFER_SIZE);
    assert_eq!(buf.as_slice()[MAX_VERTEX_BUFFER_SIZE - 1], 0xab);
}

#[test]
fn one_byte_past_capacity_is_truncated_not_an_error() {
    let mut buf = ScratchBuffer::new(MAX_VERTEX_BUFFER_SIZE);
    let data = vec![0xcdu8; MAX_VERTEX_BUFFER_SIZE + 1];
    let written = buf.write(&data);
    assert_eq!(written, MAX_VERTEX_BUFFER_SIZE);
    assert_eq!(buf.used(), MAX_VERTEX_BUFFER_SIZE);
}

#[test]
fn writes_append_and_truncate_at_the_ceiling() {
    let mut buf = ScratchBuffer::new(8);
    assert_eq!(buf.write(&vec![1u8, 2, 3, 4, 5]), 5);
    assert_eq!(buf.write(&vec![6u8, 7, 8, 9, 10]), 3);
    assert_eq!(buf.used(), 8);
    assert_eq!(buf.as_slice(), &[1u8, 2, 3, 4, 5, 6, 7, 8]);
    buf.clear();
    assert_eq!(buf.used(), 0);
    assert_eq!(buf.capacity(), 8);
}

#[test]
fn index_capacity_is_the_documented_ceiling() {
    assert_eq!(MAX_INDEX_BUFFER_SIZE, 128 * 1024);
    assert_eq!(MAX_VERTEX_BUFFER_SIZE, 512 * 1024);
    let ctx = Context::new();
    assert_eq!(ctx.indices.capacity(), MAX_INDEX_BUFFER_SIZE);
    assert_eq!(ctx.vertices.capacity(), MAX_VERTEX_BUFFER_SIZE);
}
