use render_host::bootstrap::{run_bootstrap, BootstrapConfig, BootstrapOutcomes, FatalError};
use render_host::frame::EncoderCommand;
use render_host::host::Rect;

fn config() -> BootstrapConfig {
    BootstrapConfig {
        content_frame: Rect {
            origin_x: 0.0f64.to_bits(),
            origin_y: 0.0f64.to_bits(),
            width: 800.0f64.to_bits(),
            height: 600.0f64.to_bits(),
        },
    }
}

fn good_outcomes() -> BootstrapOutcomes {
    BootstrapOutcomes {
        device: Some(10),
        queue: Some(20),
        surface: 30,
        pixel_format: 80,
        library: Some(40),
        vertex_function: Some(50),
        fragment_function: Some(60),
        pipeline: Some(70),
    }
}

#[test]
fn bootstrap_then_first_draw_commits_once() {
    let host = run_bootstrap(config(), good_outcomes()).unwrap();
    let plan = host.run_frame(Some(1), Some(2), Some(3), Some(4)).unwrap();
    let commits = plan
        .commands
        .iter()
        .filter(|c| **c == EncoderCommand::Commit)
        .count();
    assert_eq!(commits, 1);
}

#[test]
fn bootstrap_then_unavailable_drawable_skips_then_commits() {
    let host = run_bootstrap(config(), good_outcomes()).unwrap();
    assert_eq!(host.run_frame(None, None, None, None), None);
    let plan = host.run_frame(Some(1), Some(2), Some(3), Some(4)).unwrap();
    assert_eq!(*plan.commands.last().unwrap(), EncoderCommand::Commit);
}

#[test]
fn resize_after_bootstrap_keeps_the_pipeline_instance() {
    let mut host = run_bootstrap(config(), good_outcomes()).unwrap();
    let pipeline_before = host.pipeline;
    host.handle_resize(Rect {
        origin_x: 0.0f64.to_bits(),
        origin_y: 0.0f64.to_bits(),
        width: 1024.0f64.to_bits(),
        height: 768.0f64.to_bits(),
    });
    assert_eq!(host.pipeline, pipeline_before);
    assert_eq!(f64::from_bits(host.surface.frame.width), 1024.0);
    assert_eq!(f64::from_bits(host.surface.frame.height), 768.0);
}

#[test]
fn missing_fragment_entry_point_means_no_host_and_no_frames() {
    let outcomes = BootstrapOutcomes { fragment_function: None, ..good_outcomes() };
    let result = run_bootstrap(config(), outcomes);
    assert_eq!(result, Err(FatalError::MissingFragmentFunction));
}
