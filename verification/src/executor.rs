use vstd::prelude::*;

use crate::pipeline::PipelineHandle;

verus! {

/// Reasons the pass does nothing for one camera for one frame. Both are
/// soft, per-frame degradations, never errors: the un-transformed image
/// simply passes through to the later stages.
#[derive(Clone, Copy, PartialEq, Eq, Structural, Debug)]
pub enum SkipReason {
    /// The pipeline is still compiling, or was never constructed.
    PipelineNotReady,
    /// The shared uniform buffer has no binding for this camera this frame
    /// (the upload did not run, or produced nothing).
    MissingUniformBinding,
}

/// The ping-pong color target of one camera for one frame: the pass reads
/// `source` and writes `destination`. The surrounding renderer guarantees
/// the two are never the same underlying image and makes the written
/// destination the camera's new current image after the pass.
#[derive(Clone, Copy, PartialEq, Eq, Structural, Debug)]
pub struct ColorTarget {
    /// The camera's current color image, read by the pass.
    pub source: u64,
    /// The image the pass writes; distinct from `source`.
    pub destination: u64,
}

/// The bind group built fresh for one pass, binding the three resources in
/// the fixed layout order.
#[derive(Clone, Copy, PartialEq, Eq, Structural, Debug)]
pub struct BindGroup {
    /// Binding 0: view of the source color image.
    pub texture: u64,
    /// Binding 1: the filtering sampler created with the pipeline.
    pub sampler: u64,
    /// Binding 2: the shared uniform buffer, bound at this byte offset —
    /// the dynamic offset supplied at bind time, addressing this camera's
    /// settings record.
    pub uniform_offset: u32,
}

/// The one draw the pass issues when it runs: a full-screen triangle into
/// the destination image, with no depth/stencil attachment.
#[derive(Clone, Copy, PartialEq, Eq, Structural, Debug)]
pub struct DrawCommand {
    /// The cached effect pipeline the draw is bound to.
    pub pipeline: PipelineHandle,
    /// The three bound resources.
    pub bind_group: BindGroup,
    /// The destination image the render pass targets.
    pub target: u64,
    /// Vertex count of the draw: the three vertices of the full-screen
    /// triangle, with no vertex buffer.
    pub vertices: u32,
    /// Instance count of the draw: one.
    pub instances: u32,
}

/// What the pass does for one camera in one frame: either the one draw, or
/// nothing, with the reason.
#[derive(Clone, Copy, PartialEq, Eq, Structural, Debug)]
pub enum PassAction {
    /// The pass is skipped this frame; the current image passes through.
    Skip(SkipReason),
    /// The pass runs and issues this draw.
    Draw(DrawCommand),
}

/// The executor's decision: skip while the pipeline or the uniform binding
/// is missing, otherwise the one fixed draw — source image and sampler and
/// this camera's uniform offset bound in layout order, targeting the
/// destination image, three vertices, one instance.
pub open spec fn spec_run(
    target: ColorTarget,
    pipeline: Option<PipelineHandle>,
    sampler: u64,
    uniform_offset: Option<u32>,
) -> PassAction {
    match pipeline {
        None => PassAction::Skip(SkipReason::PipelineNotReady),
        Some(p) => match uniform_offset {
            None => PassAction::Skip(SkipReason::MissingUniformBinding),
            Some(off) => PassAction::Draw(
                DrawCommand {
                    pipeline: p,
                    bind_group: BindGroup {
                        texture: target.source,
                        sampler,
                        uniform_offset: off,
                    },
                    target: target.destination,
                    vertices: 3,
                    instances: 1,
                },
            ),
        },
    }
}

/// Runs the pass for one camera: decides between the one draw and a skip.
///
/// `pipeline` is the frame's pipeline lookup (nothing while compilation is
/// pending), `uniform_offset` this camera's offset from the frame's upload
/// (nothing if no upload produced one), `sampler` the shared sampler. The
/// caller must have set up the ping-pong swap: source and destination are
/// distinct images.
pub fn run(
    target: &ColorTarget,
    pipeline: Option<PipelineHandle>,
    sampler: u64,
    uniform_offset: Option<u32>,
) -> (r: PassAction)
    requires
        target.source != target.destination,
    ensures
        r == spec_run(*target, pipeline, sampler, uniform_offset),
        r is Draw <==> pipeline is Some && uniform_offset is Some,
{
    match pipeline {
        None => PassAction::Skip(SkipReason::PipelineNotReady),
        Some(p) => match uniform_offset {
            None => PassAction::Skip(SkipReason::MissingUniformBinding),
            Some(off) => PassAction::Draw(
                DrawCommand {
                    pipeline: p,
                    bind_group: BindGroup {
                        texture: target.source,
                        sampler,
                        uniform_offset: off,
                    },
                    target: target.destination,
                    vertices: 3,
                    instances: 1,
                },
            ),
        },
    }
}

} // verus!
