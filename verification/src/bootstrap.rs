//! The one-time pipeline bootstrap: a strict sequence of fallible
//! resource-acquisition steps that either resolves every GPU resource the
//! host needs or fails fatally at the first step that cannot produce its
//! resource. There is no degraded mode and no retry.

use vstd::prelude::*;

use crate::host::{Rect, RenderHost, Surface};

verus! {

/// An unrecoverable configuration or environment error met during
/// bootstrap. Any of these aborts startup; the host cannot render.
#[derive(Copy, Clone, Debug, PartialEq, Eq, Structural)]
pub enum FatalError {
    /// No default GPU device is available.
    NoDevice,
    /// The device could not create a command queue.
    CommandQueueFailed,
    /// The shader source did not compile into a library.
    ShaderCompilationFailed,
    /// The compiled library has no vertex entry point of the expected name.
    MissingVertexFunction,
    /// The compiled library has no fragment entry point of the expected name.
    MissingFragmentFunction,
    /// The device refused to build a pipeline state from the descriptor.
    PipelineCreationFailed,
}

/// What bootstrap still has to do. Each awaiting phase names the backend
/// call whose outcome it is waiting for, in the strict order the steps run.
#[derive(Copy, Clone, Debug, PartialEq, Eq, Structural)]
pub enum BootstrapPhase {
    /// Step 1: acquire the default GPU device.
    AwaitDevice,
    /// Step 2: create one command queue from the device.
    AwaitQueue,
    /// Step 3: construct the surface, sized to the window's content frame.
    AwaitSurface,
    /// Step 4: compile the shader source into a library.
    AwaitLibrary,
    /// Step 5: resolve the vertex entry point by name.
    AwaitVertexFunction,
    /// Step 6: resolve the fragment entry point by name.
    AwaitFragmentFunction,
    /// Step 7: create the pipeline state from the finished descriptor.
    AwaitPipeline,
    /// Bootstrap succeeded; the host was handed out.
    Complete,
    /// Bootstrap aborted at some step; nothing can be rendered.
    Failed,
}

/// How far into the step sequence a phase lies; used to say which
/// resources a well-formed bootstrap state must already hold.
pub open spec fn phase_rank(phase: BootstrapPhase) -> int {
    match phase {
        BootstrapPhase::AwaitDevice => 0,
        BootstrapPhase::AwaitQueue => 1,
        BootstrapPhase::AwaitSurface => 2,
        BootstrapPhase::AwaitLibrary => 3,
        BootstrapPhase::AwaitVertexFunction => 4,
        BootstrapPhase::AwaitFragmentFunction => 5,
        BootstrapPhase::AwaitPipeline => 6,
        BootstrapPhase::Complete => 7,
        BootstrapPhase::Failed => 0,
    }
}

/// The configuration bootstrap starts from: the window's content-area
/// rectangle, which sizes the surface.
#[derive(Copy, Clone, Debug, PartialEq, Eq, Structural)]
pub struct BootstrapConfig {
    /// The host window's current content-area rectangle.
    pub content_frame: Rect,
}

/// The next backend call the shell must perform, with every argument the
/// call needs already resolved.
#[derive(Copy, Clone, Debug, PartialEq, Eq, Structural)]
pub enum BootstrapAction {
    /// Ask the backend for the default GPU device.
    AcquireDevice,
    /// Create a command queue from the device.
    CreateCommandQueue { device: u64 },
    /// Construct the surface on the device, sized to `frame`, and attach
    /// it to the window's content area.
    CreateSurface { device: u64, frame: Rect },
    /// Compile the embedded shader source into a library on the device.
    CompileShaderLibrary { device: u64 },
    /// Look up the vertex entry point in the compiled library.
    ResolveVertexFunction { library: u64 },
    /// Look up the fragment entry point in the compiled library.
    ResolveFragmentFunction { library: u64 },
    /// Build the pipeline state: both shader stages and the
    /// color-attachment pixel format, which must equal the surface's.
    CreatePipelineState {
        device: u64,
        vertex_function: u64,
        fragment_function: u64,
        pixel_format: u64,
    },
}

/// The outcome of one backend call, reported back by the shell. `None`
/// means the call could not produce its resource.
#[derive(Copy, Clone, Debug, PartialEq, Eq)]
pub enum BackendReply {
    /// Outcome of acquiring the default device.
    Device(Option<u64>),
    /// Outcome of creating the command queue.
    Queue(Option<u64>),
    /// The surface was constructed (surface construction itself does not
    /// fail); the backend reports the surface handle and the pixel format
    /// the surface presents in.
    SurfaceMade { surface: u64, pixel_format: u64 },
    /// Outcome of compiling the shader source.
    Library(Option<u64>),
    /// Outcome of resolving the vertex entry point.
    VertexFunction(Option<u64>),
    /// Outcome of resolving the fragment entry point.
    FragmentFunction(Option<u64>),
    /// Outcome of creating the pipeline state.
    Pipeline(Option<u64>),
}

/// What `Bootstrap::advance` decided: either the next call to perform, or
/// the finished host, or the fatal error that aborts startup.
#[derive(Copy, Clone, Debug, PartialEq, Eq)]
pub enum BootstrapStatus {
    /// Perform this backend call next and report its outcome.
    Proceed(BootstrapAction),
    /// Every step succeeded; this host renders from now on.
    Ready(RenderHost),
    /// Startup must abort with this error.
    Fatal(FatalError),
}

/// The bootstrap state machine. It is driven by one reply per step and
/// transitions once through the phases; it holds each resolved resource
/// handle so later steps can name their arguments.
#[derive(Copy, Clone, Debug, PartialEq, Eq)]
pub struct Bootstrap {
    /// The configuration bootstrap was started with; never changes.
    pub config: BootstrapConfig,
    /// The phase the machine is in.
    pub phase: BootstrapPhase,
    /// The device handle, once step 1 succeeded.
    pub device: Option<u64>,
    /// The command-queue handle, once step 2 succeeded.
    pub queue: Option<u64>,
    /// The surface, once step 3 ran.
    pub surface: Option<Surface>,
    /// The shader-library handle, once step 4 succeeded.
    pub library: Option<u64>,
    /// The vertex entry point, once step 5 succeeded.
    pub vertex_function: Option<u64>,
    /// The fragment entry point, once step 6 succeeded.
    pub fragment_function: Option<u64>,
}

impl Bootstrap {
    /// A machine deep enough into the sequence holds every resource the
    /// steps before its phase resolved.
    pub open spec fn wf(self) -> bool {
        &&& phase_rank(self.phase) >= 1 ==> self.device is Some
        &&& phase_rank(self.phase) >= 2 ==> self.queue is Some
        &&& phase_rank(self.phase) >= 3 ==> self.surface is Some
        &&& phase_rank(self.phase) >= 4 ==> self.library is Some
        &&& phase_rank(self.phase) >= 5 ==> self.vertex_function is Some
        &&& phase_rank(self.phase) >= 6 ==> self.fragment_function is Some
    }

    /// The reply kinds the machine's current phase is waiting for.
    pub open spec fn expects(self, reply: BackendReply) -> bool {
        match (self.phase, reply) {
            (BootstrapPhase::AwaitDevice, BackendReply::Device(_)) => true,
            (BootstrapPhase::AwaitQueue, BackendReply::Queue(_)) => true,
            (BootstrapPhase::AwaitSurface, BackendReply::SurfaceMade { .. }) => true,
            (BootstrapPhase::AwaitLibrary, BackendReply::Library(_)) => true,
            (BootstrapPhase::AwaitVertexFunction, BackendReply::VertexFunction(_)) => true,
            (BootstrapPhase::AwaitFragmentFunction, BackendReply::FragmentFunction(_)) => true,
            (BootstrapPhase::AwaitPipeline, BackendReply::Pipeline(_)) => true,
            _ => false,
        }
    }

    /// This machine, aborted: only the phase changes.
    pub open spec fn failed(self) -> Bootstrap {
        Bootstrap { phase: BootstrapPhase::Failed, ..self }
    }

    /// This machine after step 1 resolved the device.
    pub open spec fn after_device(self, device: u64) -> Bootstrap {
        Bootstrap { phase: BootstrapPhase::AwaitQueue, device: Some(device), ..self }
    }

    /// This machine after step 2 resolved the command queue.
    pub open spec fn after_queue(self, queue: u64) -> Bootstrap {
        Bootstrap { phase: BootstrapPhase::AwaitSurface, queue: Some(queue), ..self }
    }

    /// This machine after step 3 constructed the surface. The surface is
    /// sized to the configured content frame.
    pub open spec fn after_surface(self, surface: u64, pixel_format: u64) -> Bootstrap {
        Bootstrap {
            phase: BootstrapPhase::AwaitLibrary,
            surface: Some(
                Surface { id: surface, pixel_format, frame: self.config.content_frame },
            ),
            ..self
        }
    }

    /// This machine after step 4 compiled the shader library.
    pub open spec fn after_library(self, library: u64) -> Bootstrap {
        Bootstrap { phase: BootstrapPhase::AwaitVertexFunction, library: Some(library), ..self }
    }

    /// This machine after step 5 resolved the vertex entry point.
    pub open spec fn after_vertex_function(self, vertex_function: u64) -> Bootstrap {
        Bootstrap {
            phase: BootstrapPhase::AwaitFragmentFunction,
            vertex_function: Some(vertex_function),
            ..self
        }
    }

    /// This machine after step 6 resolved the fragment entry point.
    pub open spec fn after_fragment_function(self, fragment_function: u64) -> Bootstrap {
        Bootstrap {
            phase: BootstrapPhase::AwaitPipeline,
            fragment_function: Some(fragment_function),
            ..self
        }
    }

    /// Starts a bootstrap: nothing is resolved yet and the machine waits
    /// for the outcome of acquiring the default device.
    pub fn new(config: BootstrapConfig) -> (b: Bootstrap)
        ensures
            b == (Bootstrap {
                config,
                phase: BootstrapPhase::AwaitDevice,
                device: None,
                queue: None,
                surface: None,
                library: None,
                vertex_function: None,
                fragment_function: None,
            }),
            b.wf(),
    {
        Bootstrap {
            config,
            phase: BootstrapPhase::AwaitDevice,
            device: None,
            queue: None,
            surface: None,
            library: None,
            vertex_function: None,
            fragment_function: None,
        }
    }

    /// The backend call that opens every bootstrap: acquire the device.
    pub fn first_action(&self) -> (a: BootstrapAction)
        ensures
            a is AcquireDevice,
    {
        BootstrapAction::AcquireDevice
    }

    /// Takes the outcome of the awaited step and decides what happens
    /// next: a missing resource aborts bootstrap with the step's fatal
    /// error; a resolved one is recorded and the next call is named. The
    /// final step hands out the finished host, whose pipeline was built
    /// against exactly the surface's pixel format.
    pub fn advance(&mut self, reply: BackendReply) -> (status: BootstrapStatus)
        requires
            old(self).wf(),
            old(self).expects(reply),
        ensures
            final(self).wf(),
            final(self).config == old(self).config,
            reply is Device && reply->Device_0 is None ==> *final(self) == old(self).failed()
                && status == BootstrapStatus::Fatal(FatalError::NoDevice),
            reply is Device && reply->Device_0 is Some ==> *final(self) == old(self).after_device(
                reply->Device_0->0,
            ) && status == (BootstrapStatus::Proceed(
                BootstrapAction::CreateCommandQueue { device: reply->Device_0->0 },
            )),
            reply is Queue && reply->Queue_0 is None ==> *final(self) == old(self).failed()
                && status == BootstrapStatus::Fatal(FatalError::CommandQueueFailed),
            reply is Queue && reply->Queue_0 is Some ==> *final(self) == old(self).after_queue(
                reply->Queue_0->0,
            ) && status == (BootstrapStatus::Proceed(
                BootstrapAction::CreateSurface {
                    device: old(self).device->0,
                    frame: old(self).config.content_frame,
                },
            )),
            reply is SurfaceMade ==> *final(self) == old(self).after_surface(
                reply->SurfaceMade_surface,
                reply->SurfaceMade_pixel_format,
            ) && status == (BootstrapStatus::Proceed(
                BootstrapAction::CompileShaderLibrary { device: old(self).device->0 },
            )),
            reply is Library && reply->Library_0 is None ==> *final(self) == old(self).failed()
                && status == BootstrapStatus::Fatal(FatalError::ShaderCompilationFailed),
            reply is Library && reply->Library_0 is Some ==> *final(self) == old(
                self,
            ).after_library(reply->Library_0->0) && status == (BootstrapStatus::Proceed(
                BootstrapAction::ResolveVertexFunction { library: reply->Library_0->0 },
            )),
            reply is VertexFunction && reply->VertexFunction_0 is None ==> *final(self) == old(
                self,
            ).failed() && status == BootstrapStatus::Fatal(FatalError::MissingVertexFunction),
            reply is VertexFunction && reply->VertexFunction_0 is Some ==> *final(self) == old(
                self,
            ).after_vertex_function(reply->VertexFunction_0->0) && status == (
            BootstrapStatus::Proceed(
                BootstrapAction::ResolveFragmentFunction { library: old(self).library->0 },
            )),
            reply is FragmentFunction && reply->FragmentFunction_0 is None ==> *final(self) == old(
                self,
            ).failed() && status == BootstrapStatus::Fatal(FatalError::MissingFragmentFunction),
            reply is FragmentFunction && reply->FragmentFunction_0 is Some ==> *final(self) == old(
                self,
            ).after_fragment_function(reply->FragmentFunction_0->0) && status == (
            BootstrapStatus::Proceed(
                BootstrapAction::CreatePipelineState {
                    device: old(self).device->0,
                    vertex_function: old(self).vertex_function->0,
                    fragment_function: reply->FragmentFunction_0->0,
                    pixel_format: (old(self).surface->0).pixel_format,
                },
            )),
            reply is Pipeline && reply->Pipeline_0 is None ==> *final(self) == old(self).failed()
                && status == BootstrapStatus::Fatal(FatalError::PipelineCreationFailed),
            reply is Pipeline && reply->Pipeline_0 is Some ==> final(self).phase is Complete
                && status == (BootstrapStatus::Ready(
                RenderHost {
                    device: old(self).device->0,
                    queue: old(self).queue->0,
                    pipeline: reply->Pipeline_0->0,
                    pipeline_pixel_format: (old(self).surface->0).pixel_format,
                    surface: (old(self).surface->0),
                },
            )),
            status is Ready ==> (status->Ready_0).wf(),
    {
        match reply {
            BackendReply::Device(outcome) => match outcome {
                None => {
                    self.phase = BootstrapPhase::Failed;
                    BootstrapStatus::Fatal(FatalError::NoDevice)
                },
                Some(d) => {
                    self.device = Some(d);
                    self.phase = BootstrapPhase::AwaitQueue;
                    BootstrapStatus::Proceed(BootstrapAction::CreateCommandQueue { device: d })
                },
            },
            BackendReply::Queue(outcome) => match outcome {
                None => {
                    self.phase = BootstrapPhase::Failed;
                    BootstrapStatus::Fatal(FatalError::CommandQueueFailed)
                },
                Some(q) => {
                    self.queue = Some(q);
                    self.phase = BootstrapPhase::AwaitSurface;
                    BootstrapStatus::Proceed(BootstrapAction::CreateSurface {
                        device: self.device.unwrap(),
                        frame: self.config.content_frame,
                    })
                },
            },
            BackendReply::SurfaceMade { surface, pixel_format } => {
                self.surface = Some(Surface {
                    id: surface,
                    pixel_format,
                    frame: self.config.content_frame,
                });
                self.phase = BootstrapPhase::AwaitLibrary;
                BootstrapStatus::Proceed(BootstrapAction::CompileShaderLibrary {
                    device: self.device.unwrap(),
                })
            },
            BackendReply::Library(outcome) => match outcome {
                None => {
                    self.phase = BootstrapPhase::Failed;
                    BootstrapStatus::Fatal(FatalError::ShaderCompilationFailed)
                },
                Some(l) => {
                    self.library = Some(l);
                    self.phase = BootstrapPhase::AwaitVertexFunction;
                    BootstrapStatus::Proceed(BootstrapAction::ResolveVertexFunction { library: l })
                },
            },
            BackendReply::VertexFunction(outcome) => match outcome {
                None => {
                    self.phase = BootstrapPhase::Failed;
                    BootstrapStatus::Fatal(FatalError::MissingVertexFunction)
                },
                Some(vf) => {
                    self.vertex_function = Some(vf);
                    self.phase = BootstrapPhase::AwaitFragmentFunction;
                    BootstrapStatus::Proceed(BootstrapAction::ResolveFragmentFunction {
                        library: self.library.unwrap(),
                    })
                },
            },
            BackendReply::FragmentFunction(outcome) => match outcome {
                None => {
                    self.phase = BootstrapPhase::Failed;
                    BootstrapStatus::Fatal(FatalError::MissingFragmentFunction)
                },
                Some(ff) => {
                    self.fragment_function = Some(ff);
                    self.phase = BootstrapPhase::AwaitPipeline;
                    BootstrapStatus::Proceed(BootstrapAction::CreatePipelineState {
                        device: self.device.unwrap(),
                        vertex_function: self.vertex_function.unwrap(),
                        fragment_function: ff,
                        pixel_format: self.surface.unwrap().pixel_format,
                    })
                },
            },
            BackendReply::Pipeline(outcome) => match outcome {
                None => {
                    self.phase = BootstrapPhase::Failed;
                    BootstrapStatus::Fatal(FatalError::PipelineCreationFailed)
                },
                Some(p) => {
                    self.phase = BootstrapPhase::Complete;
                    let s = self.surface.unwrap();
                    BootstrapStatus::Ready(RenderHost {
                        device: self.device.unwrap(),
                        queue: self.queue.unwrap(),
                        pipeline: p,
                        pipeline_pixel_format: s.pixel_format,
                        surface: s,
                    })
                },
            },
        }
    }
}

/// Everything one backend bootstrap attempt produced, step by step. `None`
/// means that step's call could not produce its resource; later fields are
/// irrelevant once an earlier one is `None`, since bootstrap aborts there.
#[derive(Copy, Clone, Debug, PartialEq, Eq)]
pub struct BootstrapOutcomes {
    /// Outcome of acquiring the default device.
    pub device: Option<u64>,
    /// Outcome of creating the command queue.
    pub queue: Option<u64>,
    /// The constructed surface's handle.
    pub surface: u64,
    /// The pixel format the constructed surface presents in.
    pub pixel_format: u64,
    /// Outcome of compiling the shader library.
    pub library: Option<u64>,
    /// Outcome of resolving the vertex entry point.
    pub vertex_function: Option<u64>,
    /// Outcome of resolving the fragment entry point.
    pub fragment_function: Option<u64>,
    /// Outcome of creating the pipeline state.
    pub pipeline: Option<u64>,
}

/// Runs the whole bootstrap sequence on one attempt's outcomes. The host
/// comes back exactly when every step produced its resource; otherwise the
/// result is the fatal error of the first step that did not, and the steps
/// after it are never consulted.
pub fn run_bootstrap(config: BootstrapConfig, outcomes: BootstrapOutcomes) -> (r: Result<
    RenderHost,
    FatalError,
>)
    ensures
        r is Ok <==> (outcomes.device is Some && outcomes.queue is Some && outcomes.library is Some
            && outcomes.vertex_function is Some && outcomes.fragment_function is Some
            && outcomes.pipeline is Some),
        outcomes.device is None ==> r == Err::<RenderHost, FatalError>(FatalError::NoDevice),
        (outcomes.device is Some && outcomes.queue is None) ==> r == Err::<
            RenderHost,
            FatalError,
        >(FatalError::CommandQueueFailed),
        (outcomes.device is Some && outcomes.queue is Some && outcomes.library is None) ==> r
            == Err::<RenderHost, FatalError>(FatalError::ShaderCompilationFailed),
        (outcomes.device is Some && outcomes.queue is Some && outcomes.library is Some
            && outcomes.vertex_function is None) ==> r == Err::<RenderHost, FatalError>(
            FatalError::MissingVertexFunction,
        ),
        (outcomes.device is Some && outcomes.queue is Some && outcomes.library is Some
            && outcomes.vertex_function is Some && outcomes.fragment_function is None) ==> r
            == Err::<RenderHost, FatalError>(FatalError::MissingFragmentFunction),
        (outcomes.device is Some && outcomes.queue is Some && outcomes.library is Some
            && outcomes.vertex_function is Some && outcomes.fragment_function is Some
            && outcomes.pipeline is None) ==> r == Err::<RenderHost, FatalError>(
            FatalError::PipelineCreationFailed,
        ),
        r matches Ok(host) ==> (Some(host.device) == outcomes.device && Some(host.queue)
            == outcomes.queue && Some(host.pipeline) == outcomes.pipeline && host.surface.id
            == outcomes.surface && host.surface.pixel_format == outcomes.pixel_format
            && host.surface.frame == config.content_frame && host.pipeline_pixel_format
            == outcomes.pixel_format && host.wf()),
{
    let mut b = Bootstrap::new(config);
    match b.advance(BackendReply::Device(outcomes.device)) {
        BootstrapStatus::Fatal(e) => {
            return Err(e);
        },
        _ => {},
    }
    match b.advance(BackendReply::Queue(outcomes.queue)) {
        BootstrapStatus::Fatal(e) => {
            return Err(e);
        },
        _ => {},
    }
    match b.advance(BackendReply::SurfaceMade {
        surface: outcomes.surface,
        pixel_format: outcomes.pixel_format,
    }) {
        BootstrapStatus::Fatal(e) => {
            return Err(e);
        },
        _ => {},
    }
    match b.advance(BackendReply::Library(outcomes.library)) {
        BootstrapStatus::Fatal(e) => {
            return Err(e);
        },
        _ => {},
    }
    match b.advance(BackendReply::VertexFunction(outcomes.vertex_function)) {
        BootstrapStatus::Fatal(e) => {
            return Err(e);
        },
        _ => {},
    }
    match b.advance(BackendReply::FragmentFunction(outcomes.fragment_function)) {
        BootstrapStatus::Fatal(e) => {
            return Err(e);
        },
        _ => {},
    }
    match b.advance(BackendReply::Pipeline(outcomes.pipeline)) {
        BootstrapStatus::Ready(host) => Ok(host),
        BootstrapStatus::Fatal(e) => Err(e),
        BootstrapStatus::Proceed(_) => Err(FatalError::PipelineCreationFailed),
    }
}

} // verus!
