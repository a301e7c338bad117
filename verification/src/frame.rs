use vstd::prelude::*;

use crate::color::ClearColor;
use crate::registry::Registry;

verus! {

/// The bind-group slot the texture binding occupies in the pass.
pub const BIND_GROUP_INDEX: u32 = 0;

/// A frame is drawn with one instance of the active mesh.
pub const INSTANCE_COUNT: u32 = 1;

/// Why the surface refused to hand out a presentable image.
#[derive(Clone, Copy, Debug, PartialEq, Eq, Structural)]
pub enum AcquireError {
    /// The image was not ready in time.
    Timeout,
    /// The surface no longer matches the window and must be reconfigured.
    Outdated,
    /// The surface was lost and must be reconfigured.
    Lost,
    /// The device is out of memory.
    OutOfMemory,
}

/// What the frame driver does about a refused acquire.
#[derive(Clone, Copy, Debug, PartialEq, Eq, Structural)]
pub enum FrameDecision {
    /// Re-apply the stored configuration unchanged and skip this frame.
    RecoverAndSkip,
    /// Signal the host to terminate the render loop.
    Terminate,
    /// Report the error, skip this frame, and carry on.
    ReportAndSkip,
}

/// The failure-recovery policy: a lost surface is recovered silently, out
/// of memory ends the loop, anything else costs one reported frame.
pub open spec fn acquire_policy(err: AcquireError) -> FrameDecision {
    match err {
        AcquireError::Lost => FrameDecision::RecoverAndSkip,
        AcquireError::OutOfMemory => FrameDecision::Terminate,
        AcquireError::Timeout => FrameDecision::ReportAndSkip,
        AcquireError::Outdated => FrameDecision::ReportAndSkip,
    }
}

/// Decides what a refused acquire means for this frame. No error escapes
/// past this decision: every variant maps to a skip, a recovery or an
/// orderly termination, and the next frame starts from unchanged state.
pub fn decide_acquire_failure(err: &AcquireError) -> (d: FrameDecision)
    ensures
        d == acquire_policy(*err),
{
    match err {
        AcquireError::Lost => FrameDecision::RecoverAndSkip,
        AcquireError::OutOfMemory => FrameDecision::Terminate,
        AcquireError::Timeout => FrameDecision::ReportAndSkip,
        AcquireError::Outdated => FrameDecision::ReportAndSkip,
    }
}

/// One step of the command sequence a frame records. The `variant` fields
/// name which variant's GPU object the host binds.
#[derive(Clone, Copy, Debug, PartialEq, Eq, Structural)]
pub enum RenderCommand {
    /// Open the render pass, clearing the frame to this color.
    BeginPass { clear: ClearColor },
    /// Bind the pipeline of this variant.
    SetPipeline { variant: usize },
    /// Bind this variant's texture binding at the given bind-group slot.
    SetBindGroup { group: u32, variant: usize },
    /// Bind this variant's vertex buffer.
    SetVertexBuffer { variant: usize },
    /// Bind this variant's index buffer, 16-bit indices.
    SetIndexBuffer { variant: usize },
    /// Draw the index range `[first, first + count)` once per instance.
    DrawIndexed { first: u32, count: u32, instances: u32 },
    /// Close the render pass; no pass-scoped command may follow.
    EndPass,
    /// Finalize the command sequence for submission.
    Finish,
}

/// True of the commands that may stand only inside an open render pass.
pub open spec fn pass_scoped(c: RenderCommand) -> bool {
    ||| c is SetPipeline
    ||| c is SetBindGroup
    ||| c is SetVertexBuffer
    ||| c is SetIndexBuffer
    ||| c is DrawIndexed
}

/// The command protocol the device demands: the sequence opens the pass
/// first, closes it before finalizing, finalizes exactly at the end, and
/// keeps every pass-scoped command strictly inside the open pass.
pub open spec fn pass_well_formed(cmds: Seq<RenderCommand>) -> bool {
    &&& cmds.len() >= 3
    &&& cmds[0] is BeginPass
    &&& cmds[cmds.len() - 2] is EndPass
    &&& cmds[cmds.len() - 1] is Finish
    &&& forall|k: int| 1 <= k < cmds.len() - 2 ==> pass_scoped(cmds[k])
}

/// The command sequence of one frame over the given registry and clear
/// color: clear, bind the active pipeline, bind the active texture binding
/// if the variant has one, bind the active geometry, draw the whole index
/// range once, close the pass, finalize.
pub open spec fn frame_commands(r: Registry, clear: ClearColor) -> Seq<RenderCommand>
    recommends
        r.wf(),
{
    let draw = RenderCommand::DrawIndexed {
        first: 0,
        count: r.active_variant().mesh.indices@.len() as u32,
        instances: INSTANCE_COUNT,
    };
    if r.active_variant().texture is Some {
        seq![
            RenderCommand::BeginPass { clear },
            RenderCommand::SetPipeline { variant: r.active },
            RenderCommand::SetBindGroup { group: BIND_GROUP_INDEX, variant: r.active },
            RenderCommand::SetVertexBuffer { variant: r.active },
            RenderCommand::SetIndexBuffer { variant: r.active },
            draw,
            RenderCommand::EndPass,
            RenderCommand::Finish,
        ]
    } else {
        seq![
            RenderCommand::BeginPass { clear },
            RenderCommand::SetPipeline { variant: r.active },
            RenderCommand::SetVertexBuffer { variant: r.active },
            RenderCommand::SetIndexBuffer { variant: r.active },
            draw,
            RenderCommand::EndPass,
            RenderCommand::Finish,
        ]
    }
}

/// Records the command sequence of one frame.
pub fn record_frame(r: &Registry, clear: ClearColor) -> (cmds: Vec<RenderCommand>)
    requires
        r.wf(),
    ensures
        cmds@ == frame_commands(*r, clear),
        pass_well_formed(cmds@),
{
    let count = r.active_index_count();
    let variant = r.active_index();
    let mut cmds: Vec<RenderCommand> = Vec::new();
    cmds.push(RenderCommand::BeginPass { clear });
    cmds.push(RenderCommand::SetPipeline { variant });
    if r.active_texture_binding().is_some() {
        cmds.push(RenderCommand::SetBindGroup { group: BIND_GROUP_INDEX, variant });
    }
    cmds.push(RenderCommand::SetVertexBuffer { variant });
    cmds.push(RenderCommand::SetIndexBuffer { variant });
    cmds.push(RenderCommand::DrawIndexed { first: 0, count, instances: INSTANCE_COUNT });
    cmds.push(RenderCommand::EndPass);
    cmds.push(RenderCommand::Finish);
    proof {
        assert(cmds@ =~= frame_commands(*r, clear));
    }
    cmds
}

/// Every frame's command sequence obeys the pass protocol: the render pass
/// is closed before the sequence is finalized, and nothing pass-scoped
/// stands outside it.
pub proof fn lemma_frame_commands_well_formed(r: Registry, clear: ClearColor)
    requires
        r.wf(),
    ensures
        pass_well_formed(frame_commands(r, clear)),
{
}

/// The one draw of a frame covers exactly the active mesh's index range,
/// `[0, index count)`, with a single instance.
pub proof fn lemma_frame_draw_covers_active_mesh(r: Registry, clear: ClearColor)
    requires
        r.wf(),
    ensures
        exists|k: int|
            0 <= k < frame_commands(r, clear).len() && frame_commands(r, clear)[k]
                == (RenderCommand::DrawIndexed {
                first: 0,
                count: r.active_variant().mesh.indices@.len() as u32,
                instances: INSTANCE_COUNT,
            }),
{
    let cmds = frame_commands(r, clear);
    if r.active_variant().texture is Some {
        assert(cmds[5] == (RenderCommand::DrawIndexed {
            first: 0,
            count: r.active_variant().mesh.indices@.len() as u32,
            instances: INSTANCE_COUNT,
        }));
    } else {
        assert(cmds[4] == (RenderCommand::DrawIndexed {
            first: 0,
            count: r.active_variant().mesh.indices@.len() as u32,
            instances: INSTANCE_COUNT,
        }));
    }
}

} // verus!
