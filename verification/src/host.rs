//! The live rendering host: the resources resolved at bootstrap, the
//! mutable surface, and the event dispatch of the surrounding event loop.

use vstd::prelude::*;

verus! {

/// A rectangle in window coordinates. Each component holds the raw bit
/// pattern of the host's double-precision coordinate; the model never
/// interprets these bits, it only stores and compares them, so a frame
/// handed back by a resize is exact bit for bit.
#[derive(Copy, Clone, Debug, PartialEq, Eq, Structural)]
pub struct Rect {
    pub origin_x: u64,
    pub origin_y: u64,
    pub width: u64,
    pub height: u64,
}

/// The drawable view: the one resource whose state changes after
/// bootstrap. Its frame follows the window's content area; its pixel
/// format is fixed when the surface is created.
#[derive(Copy, Clone, Debug, PartialEq, Eq, Structural)]
pub struct Surface {
    /// Opaque handle to the backend's view object.
    pub id: u64,
    /// The pixel format the surface presents in, as the backend reports it.
    pub pixel_format: u64,
    /// The surface's current frame within the window.
    pub frame: Rect,
}

/// The resources a successful bootstrap resolves: the device, the command
/// queue and the pipeline state are created once and never replaced; only
/// the surface's frame changes afterwards.
#[derive(Copy, Clone, Debug, PartialEq, Eq, Structural)]
pub struct RenderHost {
    /// Opaque handle to the GPU device.
    pub device: u64,
    /// Opaque handle to the one command queue.
    pub queue: u64,
    /// Opaque handle to the one pipeline state.
    pub pipeline: u64,
    /// The color-attachment pixel format the pipeline was built against.
    pub pipeline_pixel_format: u64,
    /// The drawable surface.
    pub surface: Surface,
}

/// A notification dispatched by the event loop that owns the window.
#[derive(Copy, Clone, Debug, PartialEq, Eq, Structural)]
pub enum HostEvent {
    /// The user asked to close the window.
    CloseRequested,
    /// The window was resized; `content_frame` is the window's current
    /// content-area rectangle, read back from the window itself.
    Resized { content_frame: Rect },
    /// A redraw was requested; drawing is driven by the surface's own
    /// redraw cadence, so the event loop takes no action here.
    RedrawRequested,
    /// Any other notification; ignored.
    Other,
}

/// What the event loop should do after an event was handled.
#[derive(Copy, Clone, Debug, PartialEq, Eq, Structural)]
pub enum LoopDirective {
    /// Keep waiting for the next event.
    Wait,
    /// Leave the event loop; the process is shutting down.
    Exit,
}

/// The host state after one event: a resize replaces the surface's frame
/// with the window's content frame and touches nothing else; every other
/// event leaves the host unchanged.
pub open spec fn apply_event(h: RenderHost, event: HostEvent) -> RenderHost {
    match event {
        HostEvent::Resized { content_frame } => RenderHost {
            surface: Surface {
                id: h.surface.id,
                pixel_format: h.surface.pixel_format,
                frame: content_frame,
            },
            ..h
        },
        _ => h,
    }
}

/// The host state after a whole sequence of events, applied in order.
pub open spec fn apply_events(h: RenderHost, events: Seq<HostEvent>) -> RenderHost
    decreases events.len(),
{
    if events.len() == 0 {
        h
    } else {
        apply_events(apply_event(h, events[0]), events.subrange(1, events.len() as int))
    }
}

impl RenderHost {
    /// The pipeline's color attachment and the surface must agree on the
    /// pixel format, or presentation is undefined. Bootstrap establishes
    /// this and nothing afterwards can break it.
    pub open spec fn wf(self) -> bool {
        self.pipeline_pixel_format == self.surface.pixel_format
    }

    /// Reconciles the surface with the window after a resize: the
    /// surface's frame becomes exactly the window's current content-area
    /// rectangle. No device, queue or pipeline is touched.
    pub fn handle_resize(&mut self, content_frame: Rect)
        ensures
            final(self).surface.frame == content_frame,
            *final(self) == apply_event(
                *old(self),
                HostEvent::Resized { content_frame },
            ),
            old(self).wf() ==> final(self).wf(),
    {
        self.surface.frame = content_frame;
    }

    /// Dispatches one event-loop notification: a close request ends the
    /// loop, a resize reconciles the surface, everything else is a no-op.
    pub fn handle_event(&mut self, event: HostEvent) -> (d: LoopDirective)
        ensures
            *final(self) == apply_event(*old(self), event),
            d is Exit <==> event is CloseRequested,
            old(self).wf() ==> final(self).wf(),
    {
        match event {
            HostEvent::CloseRequested => LoopDirective::Exit,
            HostEvent::Resized { content_frame } => {
                self.handle_resize(content_frame);
                LoopDirective::Wait
            },
            HostEvent::RedrawRequested => LoopDirective::Wait,
            HostEvent::Other => LoopDirective::Wait,
        }
    }
}

/// The pipeline is a singleton: however many events the loop dispatches,
/// the host's device, queue and pipeline handles, and the surface's
/// identity and pixel format, are the ones bootstrap resolved; only the
/// surface's frame can differ.
pub proof fn lemma_pipeline_singleton(h: RenderHost, events: Seq<HostEvent>)
    ensures
        apply_events(h, events).pipeline == h.pipeline,
        apply_events(h, events).device == h.device,
        apply_events(h, events).queue == h.queue,
        apply_events(h, events).pipeline_pixel_format == h.pipeline_pixel_format,
        apply_events(h, events).surface.id == h.surface.id,
        apply_events(h, events).surface.pixel_format == h.surface.pixel_format,
        h.wf() ==> apply_events(h, events).wf(),
    decreases events.len(),
{
    if events.len() > 0 {
        lemma_pipeline_singleton(apply_event(h, events[0]), events.subrange(1, events.len() as int));
    }
}

} // verus!
