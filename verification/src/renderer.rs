//! Render stages and the per-frame command schedule.
//!
//! Each registered pass belongs to one of two ordered stages.  A frame's
//! work is described by a sequence of commands: clear the targets, run every
//! opaque pass in registration order, copy the color and depth targets into
//! the opaque snapshot textures, run every transparent pass in registration
//! order, submit the recorded commands, present the image.  The shell
//! executes the sequence against the GPU exactly as given.

use vstd::prelude::*;

verus! {

/// The ordering partition of render passes: everything in the opaque stage
/// runs, and is snapshotted, strictly before any transparent-stage pass.
#[allow(non_camel_case_types)]
#[derive(Clone, Copy, PartialEq, Eq, Structural, PartialOrd, Ord, Hash, Debug)]
pub enum RenderStage {
    OPAQUE,
    TRANSPARENT,
}

/// One step of a frame, in the order the shell must perform them.  A pass is
/// named by the handle under which it was registered.
#[derive(Clone, Copy, PartialEq, Eq, Structural, Debug)]
pub enum FrameCommand {
    /// Clear the color target to the configured clear color and the depth
    /// target to the far plane.
    Clear,
    /// Run the registered pass with this handle: write its pass-local
    /// uniform, then record its draw commands.
    RunPass(u32),
    /// Copy the color target into the opaque snapshot color texture.
    CopyOpaqueColor,
    /// Copy the depth target into the opaque snapshot depth texture.
    CopyOpaqueDepth,
    /// Submit the recorded commands as one batch.
    Submit,
    /// Present the acquired surface image.
    Present,
}

/// The schedule of one frame over the two per-stage pass lists.
pub open spec fn schedule_of(opaque: Seq<u32>, transparent: Seq<u32>) -> Seq<FrameCommand> {
    seq![FrameCommand::Clear] + opaque.map_values(|p: u32| FrameCommand::RunPass(p))
        + seq![FrameCommand::CopyOpaqueColor, FrameCommand::CopyOpaqueDepth]
        + transparent.map_values(|p: u32| FrameCommand::RunPass(p))
        + seq![FrameCommand::Submit, FrameCommand::Present]
}

/// Where each command of a frame schedule stands: the clear first; the
/// opaque passes in registration order; the two snapshot copies; the
/// transparent passes in registration order; the submission and the
/// presentation last.  In particular every opaque pass precedes both copies,
/// and both copies precede every transparent pass.
pub proof fn lemma_schedule_stage_order(opaque: Seq<u32>, transparent: Seq<u32>)
    ensures
        schedule_of(opaque, transparent).len() == 5 + opaque.len() + transparent.len(),
        schedule_of(opaque, transparent)[0] == FrameCommand::Clear,
        forall|k: int|
            0 <= k < opaque.len() ==> schedule_of(opaque, transparent)[1 + k] == FrameCommand::RunPass(
                opaque[k],
            ),
        schedule_of(opaque, transparent)[1 + opaque.len() as int] == FrameCommand::CopyOpaqueColor,
        schedule_of(opaque, transparent)[2 + opaque.len() as int] == FrameCommand::CopyOpaqueDepth,
        forall|k: int|
            0 <= k < transparent.len() ==> schedule_of(opaque, transparent)[3 + opaque.len() as int + k]
                == FrameCommand::RunPass(transparent[k]),
        schedule_of(opaque, transparent)[3 + opaque.len() as int + transparent.len() as int]
            == FrameCommand::Submit,
        schedule_of(opaque, transparent)[4 + opaque.len() as int + transparent.len() as int]
            == FrameCommand::Present,
{
}

} // verus!
