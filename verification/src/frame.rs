//! The per-frame draw state machine: a frame is assembled from four
//! fallible acquisition steps and then encoded, presented and committed as
//! one unit, or abandoned entirely.

use vstd::prelude::*;

use crate::geometry::{triangle_vertices, triangle_vertices_spec, Vertex};
use crate::host::RenderHost;

verus! {

/// The vertex-input slot the triangle geometry is written to.
pub const VERTEX_INPUT_SLOT: u64 = 1;

/// The vertex-input slot reserved for the scene-time scalar. Nothing is
/// written there yet; the slot is kept free for shader-side animation.
pub const SCENE_TIME_SLOT: u64 = 0;

/// A monotonically advancing scene-time scalar, held as the raw bit
/// pattern of a single-precision second count. A reserved extension point:
/// it is part of the data model but no frame consults it yet.
#[derive(Copy, Clone, Debug, PartialEq, Eq, Structural)]
pub struct SceneTime {
    pub seconds_bits: u32,
}

/// The draw primitive of the one draw call.
#[derive(Copy, Clone, Debug, PartialEq, Eq, Structural)]
pub enum Primitive {
    /// A triangle list.
    Triangle,
}

/// One encoding, presentation or submission command of a complete frame,
/// in the order the shell must issue them to the backend.
#[derive(Copy, Clone, Debug, PartialEq, Eq, Structural)]
pub enum EncoderCommand {
    /// Write the frame's vertex array as inline bytes into the given
    /// vertex-input slot.
    SetVertexBytes { slot: u64, vertex_count: u64 },
    /// Bind the pipeline state.
    SetPipeline { pipeline: u64 },
    /// Issue the draw call.
    Draw { primitive: Primitive, vertex_start: u64, vertex_count: u64 },
    /// Finalize the encoder; no further encoding is permitted afterwards.
    EndEncoding,
    /// Schedule the command buffer to present the acquired drawable.
    Present { drawable: u64 },
    /// Submit the command buffer to the queue for execution.
    Commit,
}

/// Where a frame stands among its four acquisition steps. Each phase names
/// the resource the shell must try to acquire next and carries the handles
/// already acquired this frame.
#[derive(Copy, Clone, Debug, PartialEq, Eq, Structural)]
pub enum FramePhase {
    /// Step 1: acquire the current presentable drawable from the surface.
    AwaitDrawable,
    /// Step 2: acquire a command buffer from the queue.
    AwaitCommandBuffer { drawable: u64 },
    /// Step 3: acquire the current render-pass descriptor from the surface.
    AwaitPassDescriptor { drawable: u64, command_buffer: u64 },
    /// Step 4: acquire a render command encoder from the command buffer
    /// and the pass descriptor.
    AwaitEncoder { drawable: u64, command_buffer: u64, pass_descriptor: u64 },
}

/// Everything a complete frame encodes: the fixed vertex payload and the
/// exact command sequence, already in issue order.
#[derive(Clone, Debug, PartialEq)]
pub struct FramePlan {
    /// The vertex array written in the set-vertex-bytes command.
    pub vertices: Vec<Vertex>,
    /// The commands to issue, in order, ending in the one commit.
    pub commands: Vec<EncoderCommand>,
}

/// The outcome of one acquisition step.
#[derive(Clone, Debug, PartialEq)]
pub enum FrameProgress {
    /// The step succeeded; move on to the next acquisition.
    Continue(FramePhase),
    /// The step's resource was unavailable; the whole frame is abandoned
    /// and nothing is submitted. The next redraw tick retries from scratch.
    Abandoned,
    /// All four acquisitions succeeded; encode and submit this plan.
    Encode(FramePlan),
}

/// The command sequence of every complete frame: write the fixed geometry,
/// bind the one pipeline, draw the triangle, end encoding, present the
/// acquired drawable, commit. Commit comes last and only here.
pub open spec fn frame_command_seq(pipeline: u64, drawable: u64) -> Seq<EncoderCommand> {
    seq![
        EncoderCommand::SetVertexBytes { slot: VERTEX_INPUT_SLOT, vertex_count: 3 },
        EncoderCommand::SetPipeline { pipeline },
        EncoderCommand::Draw { primitive: Primitive::Triangle, vertex_start: 0, vertex_count: 3 },
        EncoderCommand::EndEncoding,
        EncoderCommand::Present { drawable },
        EncoderCommand::Commit,
    ]
}

impl RenderHost {
    /// Starts a frame: the first thing a frame needs is a drawable.
    pub fn begin_frame(&self) -> (p: FramePhase)
        ensures
            p is AwaitDrawable,
    {
        FramePhase::AwaitDrawable
    }

    /// Builds the plan of a frame whose four acquisitions all succeeded:
    /// the fixed triangle geometry and the full command sequence, with the
    /// pipeline bound being exactly this host's pipeline.
    pub fn encode_frame(&self, drawable: u64) -> (plan: FramePlan)
        ensures
            plan.vertices@ == triangle_vertices_spec(),
            plan.commands@ == frame_command_seq(self.pipeline, drawable),
    {
        let vertices = triangle_vertices();
        let mut commands: Vec<EncoderCommand> = Vec::new();
        commands.push(EncoderCommand::SetVertexBytes { slot: VERTEX_INPUT_SLOT, vertex_count: 3 });
        commands.push(EncoderCommand::SetPipeline { pipeline: self.pipeline });
        commands.push(EncoderCommand::Draw {
            primitive: Primitive::Triangle,
            vertex_start: 0,
            vertex_count: 3,
        });
        commands.push(EncoderCommand::EndEncoding);
        commands.push(EncoderCommand::Present { drawable });
        commands.push(EncoderCommand::Commit);
        proof {
            assert(commands@ =~= frame_command_seq(self.pipeline, drawable));
        }
        FramePlan { vertices, commands }
    }

    /// Advances the frame by one acquisition outcome. An unavailable
    /// resource abandons the frame at once — no partial encoding is ever
    /// submitted; a successful final acquisition yields the complete plan.
    pub fn frame_step(&self, phase: FramePhase, acquired: Option<u64>) -> (r: FrameProgress)
        ensures
            acquired is None ==> r is Abandoned,
            phase is AwaitDrawable && acquired is Some ==> r == (FrameProgress::Continue(
                FramePhase::AwaitCommandBuffer { drawable: acquired->0 },
            )),
            phase is AwaitCommandBuffer && acquired is Some ==> r == (FrameProgress::Continue(
                FramePhase::AwaitPassDescriptor {
                    drawable: phase->AwaitCommandBuffer_drawable,
                    command_buffer: acquired->0,
                },
            )),
            phase is AwaitPassDescriptor && acquired is Some ==> r == (FrameProgress::Continue(
                FramePhase::AwaitEncoder {
                    drawable: phase->AwaitPassDescriptor_drawable,
                    command_buffer: phase->AwaitPassDescriptor_command_buffer,
                    pass_descriptor: acquired->0,
                },
            )),
            phase is AwaitEncoder && acquired is Some ==> r is Encode
                && (r->Encode_0).vertices@ == triangle_vertices_spec()
                && (r->Encode_0).commands@ == frame_command_seq(
                self.pipeline,
                phase->AwaitEncoder_drawable,
            ),
    {
        match acquired {
            None => FrameProgress::Abandoned,
            Some(handle) => match phase {
                FramePhase::AwaitDrawable => FrameProgress::Continue(
                    FramePhase::AwaitCommandBuffer { drawable: handle },
                ),
                FramePhase::AwaitCommandBuffer { drawable } => FrameProgress::Continue(
                    FramePhase::AwaitPassDescriptor { drawable, command_buffer: handle },
                ),
                FramePhase::AwaitPassDescriptor { drawable, command_buffer } => {
                    FrameProgress::Continue(FramePhase::AwaitEncoder {
                        drawable,
                        command_buffer,
                        pass_descriptor: handle,
                    })
                },
                FramePhase::AwaitEncoder { drawable, .. } => {
                    FrameProgress::Encode(self.encode_frame(drawable))
                },
            },
        }
    }

    /// Runs one whole frame through the state machine, given the outcome
    /// of each acquisition step. A plan comes back exactly when all four
    /// steps produced their resource; any failure abandons the frame with
    /// no commands at all — commit happens if and only if every step
    /// before it succeeded.
    pub fn run_frame(
        &self,
        drawable: Option<u64>,
        command_buffer: Option<u64>,
        pass_descriptor: Option<u64>,
        encoder: Option<u64>,
    ) -> (r: Option<FramePlan>)
        ensures
            r is Some <==> (drawable is Some && command_buffer is Some
                && pass_descriptor is Some && encoder is Some),
            r is Some ==> (r->0).vertices@ == triangle_vertices_spec()
                && (r->0).commands@ == frame_command_seq(self.pipeline, drawable->0),
    {
        let phase = self.begin_frame();
        let phase = match self.frame_step(phase, drawable) {
            FrameProgress::Continue(p) => p,
            _ => {
                return None;
            },
        };
        let phase = match self.frame_step(phase, command_buffer) {
            FrameProgress::Continue(p) => p,
            _ => {
                return None;
            },
        };
        let phase = match self.frame_step(phase, pass_descriptor) {
            FrameProgress::Continue(p) => p,
            _ => {
                return None;
            },
        };
        match self.frame_step(phase, encoder) {
            FrameProgress::Encode(plan) => Some(plan),
            _ => None,
        }
    }
}

/// Commit is the last of the six frame commands and occurs nowhere earlier
/// in the sequence: there is no partial-commit state.
pub proof fn lemma_commit_is_last(pipeline: u64, drawable: u64)
    ensures
        frame_command_seq(pipeline, drawable).len() == 6,
        frame_command_seq(pipeline, drawable)[5] == EncoderCommand::Commit,
        forall|i: int|
            0 <= i < 5 ==> frame_command_seq(pipeline, drawable)[i] != EncoderCommand::Commit,
{
    let s = frame_command_seq(pipeline, drawable);
    assert forall|i: int| 0 <= i < 5 implies s[i] != EncoderCommand::Commit by {
        if i == 0 {
        } else if i == 1 {
        } else if i == 2 {
        } else if i == 3 {
        } else {
            assert(i == 4);
        }
    }
}

} // verus!
