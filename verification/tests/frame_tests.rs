use render_host::frame::{
    EncoderCommand, FramePhase, FrameProgress, Primitive, SCENE_TIME_SLOT, VERTEX_INPUT_SLOT,
};
use render_host::geometry::triangle_vertices;
use render_host::host::{Rect, RenderHost, Surface};

fn rect(w: f64, h: f64) -> Rect {
    Rect {
        origin_x: 0.0f64.to_bits(),
        origin_y: 0.0f64.to_bits(),
        width: w.to_bits(),
        height: h.to_bits(),
    }
}

fn ready_host() -> RenderHost {
    RenderHost {
        device: 10,
        queue: 20,
        pipeline: 70,
        pipeline_pixel_format: 80,
        surface: Surface { id: 30, pixel_format: 80, frame: rect(800.0, 600.0) },
    }
}

fn commit_count(commands: &[EncoderCommand]) -> usize {
    commands.iter().filter(|c| **c == EncoderCommand::Commit).count()
}

#[test]
fn first_draw_produces_one_commit() {
    let host = ready_host();
    let plan = host.run_frame(Some(1), Some(2), Some(3), Some(4)).unwrap();
    assert_eq!(commit_count(&plan.commands), 1);
}

#[test]
fn complete_frame_commands_are_exact_and_in_order() {
    let host = ready_host();
    let plan = host.run_frame(Some(1), Some(2), Some(3), Some(4)).unwrap();
    assert_eq!(
        plan.commands,
        vec![
            EncoderCommand::SetVertexBytes { slot: VERTEX_INPUT_SLOT, vertex_count: 3 },
            EncoderCommand::SetPipeline { pipeline: 70 },
            EncoderCommand::Draw {
                primitive: Primitive::Triangle,
                vertex_start: 0,
                vertex_count: 3,
            },
            EncoderCommand::EndEncoding,
            EncoderCommand::Present { drawable: 1 },
            EncoderCommand::Commit,
        ]
    );
    assert_eq!(plan.vertices, triangle_vertices());
}

#[test]
fn missing_drawable_abandons_the_frame() {
    let host = ready_host();
    assert_eq!(host.run_frame(None, Some(2), Some(3), Some(4)), None);
}

#[test]
fn missing_command_buffer_abandons_the_frame() {
    let host = ready_host();
    assert_eq!(host.run_frame(Some(1), None, Some(3), Some(4)), None);
}

#[test]
fn missing_pass_descriptor_abandons_the_frame() {
    let host = ready_host();
    assert_eq!(host.run_frame(Some(1), Some(2), None, Some(4)), None);
}

#[test]
fn missing_encoder_abandons_the_frame() {
    let host = ready_host();
    assert_eq!(host.run_frame(Some(1), Some(2), Some(3), None), None);
}

#[test]
fn skipped_frame_then_next_frame_commits_once() {
    let host = ready_host();
    assert_eq!(host.run_frame(None, Some(2), Some(3), Some(4)), None);
    let plan = host.run_frame(Some(5), Some(6), Some(7), Some(8)).unwrap();
    assert_eq!(commit_count(&plan.commands), 1);
    assert_eq!(*plan.commands.last().unwrap(), EncoderCommand::Commit);
}

#[test]
fn frame_steps_walk_the_acquisition_sequence() {
    let host = ready_host();
    let phase = host.begin_frame();
    assert_eq!(phase, FramePhase::AwaitDrawable);

    let progress = host.frame_step(phase, Some(1));
    assert_eq!(
        progress,
        FrameProgress::Continue(FramePhase::AwaitCommandBuffer { drawable: 1 })
    );

    let progress = host.frame_step(FramePhase::AwaitCommandBuffer { drawable: 1 }, Some(2));
    assert_eq!(
        progress,
        FrameProgress::Continue(FramePhase::AwaitPassDescriptor {
            drawable: 1,
            command_buffer: 2,
        })
    );

    let progress = host.frame_step(
        FramePhase::AwaitPassDescriptor { drawable: 1, command_buffer: 2 },
        Some(3),
    );
    assert_eq!(
        progress,
        FrameProgress::Continue(FramePhase::AwaitEncoder {
            drawable: 1,
            command_buffer: 2,
            pass_descriptor: 3,
        })
    );

    let progress = host.frame_step(
        FramePhase::AwaitEncoder { drawable: 1, command_buffer: 2, pass_descriptor: 3 },
        Some(4),
    );
    match progress {
        FrameProgress::Encode(plan) => {
            assert_eq!(plan.vertices, triangle_vertices());
            assert_eq!(*plan.commands.last().unwrap(), EncoderCommand::Commit);
        }
        other => panic!("expected an encode plan, got {:?}", other),
    }
}

#[test]
fn abandonment_at_any_step_issues_nothing() {
    let host = ready_host();
    assert_eq!(host.frame_step(FramePhase::AwaitDrawable, None), FrameProgress::Abandoned);
    assert_eq!(
        host.frame_step(FramePhase::AwaitCommandBuffer { drawable: 1 }, None),
        FrameProgress::Abandoned
    );
    assert_eq!(
        host.frame_step(FramePhase::AwaitPassDescriptor { drawable: 1, command_buffer: 2 }, None),
        FrameProgress::Abandoned
    );
    assert_eq!(
        host.frame_step(
            FramePhase::AwaitEncoder { drawable: 1, command_buffer: 2, pass_descriptor: 3 },
            None,
        ),
        FrameProgress::Abandoned
    );
}

#[test]
fn every_frame_binds_the_same_pipeline() {
    let host = ready_host();
    let first = host.run_frame(Some(1), Some(2), Some(3), Some(4)).unwrap();
    let second = host.run_frame(Some(9), Some(8), Some(7), Some(6)).unwrap();
    assert_eq!(first.commands[1], EncoderCommand::SetPipeline { pipeline: host.pipeline });
    assert_eq!(second.commands[1], EncoderCommand::SetPipeline { pipeline: host.pipeline });
}

#[test]
fn geometry_is_independent_of_the_host() {
    let mut other = ready_host();
    other.device = 99;
    other.pipeline = 98;
    let a = ready_host().run_frame(Some(1), Some(2), Some(3), Some(4)).unwrap();
    let b = other.run_frame(Some(1), Some(2), Some(3), Some(4)).unwrap();
    assert_eq!(a.vertices, b.vertices);
}

#[test]
fn scene_time_slot_is_reserved_and_distinct() {
    assert_eq!(SCENE_TIME_SLOT, 0);
    assert_eq!(VERTEX_INPUT_SLOT, 1);
}
