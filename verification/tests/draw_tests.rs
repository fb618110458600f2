use gui_bridge::draw::ClipRect;
use gui_bridge::draw::DrawCommand;
use gui_bridge::draw::GpuOp;
use gui_bridge::draw::replay_plan;
use gui_bridge::fixed::Fx;
use gui_bridge::fixed::fx_scale_to_dim;

fn full_clip() -> ClipRect {
    ClipRect { x: Fx { raw: 0 }, y: Fx { raw: 0 }, w: Fx { raw: 65536 }, h: Fx { raw: 65536 } }
}

#[test]
fn scale_half_of_800_is_400() {
    assert_eq!(fx_scale_to_dim(Fx { raw: 32768 }, 800), 400);
}

#[test]
fn scale_clamps_negative_to_zero() {
    assert_eq!(fx_scale_to_dim(Fx { raw: -20000 }, 800), 0);
}

#[test]
fn scale_one_covers_the_whole_dimension() {
    assert_eq!(fx_scale_to_dim(Fx { raw: 65536 }, 600), 600);
    assert_eq!(fx_scale_to_dim(Fx { raw: 0 }, 600), 0);
}

#[test]
fn single_full_screen_command_draws_once() {
    let cmds = vec![DrawCommand { elem_count: 6, clip: full_clip() }];
    let (ops, total) = replay_plan(&cmds, 800, 600);
    assert_eq!(
        ops,
        vec![
            GpuOp::SetScissor { x: 0, y: 0, width: 800, height: 600 },
            GpuOp::DrawIndexed { first: 0, count: 6 },
        ]
    );
    assert_eq!(total, 6);
}

#[test]
fn zero_count_command_issues_nothing() {
    let cmds = vec![DrawCommand { elem_count: 0, clip: full_clip() }];
    let (ops, total) = replay_plan(&cmds, 800, 600);
    assert!(ops.is_empty());
    assert_eq!(total, 0);
}

#[test]
fn zero_count_commands_are_skipped_between_draws() {
    let cmds = vec![
        DrawCommand { elem_count: 9, clip: full_clip() },
        DrawCommand { elem_count: 0, clip: full_clip() },
        DrawCommand { elem_count: 3, clip: full_clip() },
    ];
    let (ops, total) = replay_plan(&cmds, 640, 480);
    assert_eq!(ops.len(), 4);
    assert_eq!(ops[1], GpuOp::DrawIndexed { first: 0, count: 9 });
    assert_eq!(ops[3], GpuOp::DrawIndexed { first: 9, count: 3 });
    assert_eq!(total, 12);
}

#[test]
fn index_ranges_are_contiguous_and_sum_to_total() {
    let counts = [5u32, 7, 0, 11, 2];
    let cmds: Vec<DrawCommand> =
        counts.iter().map(|&c| DrawCommand { elem_count: c, clip: full_clip() }).collect();
    let (ops, total) = replay_plan(&cmds, 1024, 768);
    let mut expected_first = 0u32;
    let mut summed = 0u32;
    for op in &ops {
        if let GpuOp::DrawIndexed { first, count } = op {
            assert_eq!(*first, expected_first);
            assert!(*count > 0);
            expected_first += count;
            summed += count;
        }
    }
    assert_eq!(summed, total);
    assert_eq!(total, 25);
}

#[test]
fn clip_fractions_scale_by_screen_size() {
    let clip = ClipRect {
        x: Fx { raw: 16384 },
        y: Fx { raw: 32768 },
        w: Fx { raw: 32768 },
        h: Fx { raw: 16384 },
    };
    let cmds = vec![DrawCommand { elem_count: 3, clip }];
    let (ops, _) = replay_plan(&cmds, 800, 600);
    assert_eq!(ops[0], GpuOp::SetScissor { x: 200, y: 300, width: 400, height: 150 });
}

#[test]
fn negative_clip_origin_is_clamped_to_zero() {
    let clip = ClipRect {
        x: Fx { raw: -5000 },
        y: Fx { raw: -65536 },
        w: Fx { raw: 65536 },
        h: Fx { raw: 65536 },
    };
    let cmds = vec![DrawCommand { elem_count: 3, clip }];
    let (ops, _) = replay_plan(&cmds, 800, 600);
    assert_eq!(ops[0], GpuOp::SetScissor { x: 0, y: 0, width: 800, height: 600 });
}
