use render_host::host::{HostEvent, LoopDirective, Rect, RenderHost, Surface};

fn rect(x: f64, y: f64, w: f64, h: f64) -> Rect {
    Rect {
        origin_x: x.to_bits(),
        origin_y: y.to_bits(),
        width: w.to_bits(),
        height: h.to_bits(),
    }
}

fn ready_host() -> RenderHost {
    RenderHost {
        device: 10,
        queue: 20,
        pipeline: 70,
        pipeline_pixel_format: 80,
        surface: Surface { id: 30, pixel_format: 80, frame: rect(0.0, 0.0, 800.0, 600.0) },
    }
}

#[test]
fn resize_sets_the_surface_frame_exactly() {
    let mut host = ready_host();
    let target = rect(0.0, 0.0, 1024.0, 768.0);
    let d = host.handle_event(HostEvent::Resized { content_frame: target });
    assert_eq!(d, LoopDirective::Wait);
    assert_eq!(host.surface.frame, target);
}

#[test]
fn resize_recreates_no_gpu_resource() {
    let mut host = ready_host();
    let before = host;
    host.handle_event(HostEvent::Resized { content_frame: rect(0.0, 0.0, 1024.0, 768.0) });
    assert_eq!(host.device, before.device);
    assert_eq!(host.queue, before.queue);
    assert_eq!(host.pipeline, before.pipeline);
    assert_eq!(host.pipeline_pixel_format, before.pipeline_pixel_format);
    assert_eq!(host.surface.id, before.surface.id);
    assert_eq!(host.surface.pixel_format, before.surface.pixel_format);
}

#[test]
fn resize_is_bit_exact_for_fractional_frames() {
    let mut host = ready_host();
    let target = rect(1.5, -2.25, 1024.125, 768.0625);
    host.handle_resize(target);
    assert_eq!(host.surface.frame, target);
    assert_eq!(f64::from_bits(host.surface.frame.width), 1024.125);
}

#[test]
fn close_request_exits_the_loop() {
    let mut host = ready_host();
    let before = host;
    let d = host.handle_event(HostEvent::CloseRequested);
    assert_eq!(d, LoopDirective::Exit);
    assert_eq!(host, before);
}

#[test]
fn redraw_request_changes_nothing() {
    let mut host = ready_host();
    let before = host;
    let d = host.handle_event(HostEvent::RedrawRequested);
    assert_eq!(d, LoopDirective::Wait);
    assert_eq!(host, before);
}

#[test]
fn other_events_change_nothing() {
    let mut host = ready_host();
    let before = host;
    let d = host.handle_event(HostEvent::Other);
    assert_eq!(d, LoopDirective::Wait);
    assert_eq!(host, before);
}

#[test]
fn repeated_resizes_keep_only_the_last_frame() {
    let mut host = ready_host();
    host.handle_event(HostEvent::Resized { content_frame: rect(0.0, 0.0, 640.0, 480.0) });
    host.handle_event(HostEvent::Resized { content_frame: rect(0.0, 0.0, 1024.0, 768.0) });
    assert_eq!(host.surface.frame, rect(0.0, 0.0, 1024.0, 768.0));
    assert_eq!(host.pipeline, ready_host().pipeline);
}
