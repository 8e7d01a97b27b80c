//! The Shutdown Sequencer: the strict teardown order of a draining session.
//!
//! Downstream clients of the texture-sharing server poll asynchronously,
//! so the sequencer first floods them with blank frames, lets the GPU
//! finish, waits, and only then stops and releases the server; the
//! engine's render context is destroyed while the GPU context is still
//! current, the surfaces after it, and the context itself last.  Getting
//! this order wrong corrupts the downstream client's buffer or crashes
//! the GPU driver, so the order is stated and proved here and the worker
//! executes the plan verbatim.

use vstd::prelude::*;

verus! {

/// How many blank frames are published while draining, so that every
/// asynchronously polling client has a real chance to observe one.
pub const BLANK_FRAME_REPEATS: usize = 10;

/// Milliseconds between two blank-frame publishes.
pub const BLANK_FRAME_GAP_MS: u64 = 50;

/// Milliseconds the sequencer rests after the GPU finished, before the
/// server is stopped.
pub const SETTLE_DELAY_MS: u64 = 300;

/// Milliseconds granted to the server's stop call before the binding is
/// released.
pub const SERVER_STOP_WAIT_MS: u64 = 500;

/// One step of the teardown sequence.
#[derive(Clone, Copy, Debug, PartialEq, Eq, Structural)]
pub enum TeardownStep {
    /// Make the session's GPU context current on the worker thread.
    MakeContextCurrent,
    /// Clear the frame surface to a solid neutral color and publish it,
    /// then wait [`BLANK_FRAME_GAP_MS`].
    PublishBlankFrame,
    /// Flush and finish all pending GPU work.
    FinishGpu,
    /// Sleep [`SETTLE_DELAY_MS`] so clients can pick the blank state up
    /// before the server disappears.
    SettleDelay,
    /// Ask the texture-sharing server to stop, then wait
    /// [`SERVER_STOP_WAIT_MS`].
    StopServer,
    /// Release the server binding.
    ReleaseServer,
    /// Destroy the engine's render context, while the GPU context is
    /// still current.
    DestroyRenderContext,
    /// Delete framebuffers and textures of the frame and preview surfaces.
    DeleteSurfaces,
    /// Destroy the GPU context itself.
    DestroyGpuContext,
}

/// Where a step stands in the required dependency order.  Teardown must
/// never perform a step of a lower stage after one of a higher stage.
pub open spec fn teardown_stage(s: TeardownStep) -> int {
    match s {
        TeardownStep::MakeContextCurrent => 0,
        TeardownStep::PublishBlankFrame => 1,
        TeardownStep::FinishGpu => 2,
        TeardownStep::SettleDelay => 3,
        TeardownStep::StopServer => 4,
        TeardownStep::ReleaseServer => 5,
        TeardownStep::DestroyRenderContext => 6,
        TeardownStep::DeleteSurfaces => 7,
        TeardownStep::DestroyGpuContext => 8,
    }
}

/// The plan a draining session executes, first step first.
pub open spec fn spec_shutdown_plan(blank_repeats: nat) -> Seq<TeardownStep> {
    seq![TeardownStep::MakeContextCurrent]
        + Seq::new(blank_repeats, |i: int| TeardownStep::PublishBlankFrame)
        + seq![
            TeardownStep::FinishGpu,
            TeardownStep::SettleDelay,
            TeardownStep::StopServer,
            TeardownStep::ReleaseServer,
            TeardownStep::DestroyRenderContext,
            TeardownStep::DeleteSurfaces,
            TeardownStep::DestroyGpuContext,
        ]
}

/// Build the teardown plan for one session.
pub fn shutdown_plan() -> (plan: Vec<TeardownStep>)
    ensures
        plan@ == spec_shutdown_plan(BLANK_FRAME_REPEATS as nat),
{
    let mut plan: Vec<TeardownStep> = Vec::new();
    plan.push(TeardownStep::MakeContextCurrent);
    let mut i: usize = 0;
    while i < BLANK_FRAME_REPEATS
        invariant
            i <= BLANK_FRAME_REPEATS,
            plan@ =~= seq![TeardownStep::MakeContextCurrent]
                + Seq::new(i as nat, |j: int| TeardownStep::PublishBlankFrame),
        decreases BLANK_FRAME_REPEATS - i,
    {
        plan.push(TeardownStep::PublishBlankFrame);
        i = i + 1;
    }
    plan.push(TeardownStep::FinishGpu);
    plan.push(TeardownStep::SettleDelay);
    plan.push(TeardownStep::StopServer);
    plan.push(TeardownStep::ReleaseServer);
    plan.push(TeardownStep::DestroyRenderContext);
    plan.push(TeardownStep::DeleteSurfaces);
    plan.push(TeardownStep::DestroyGpuContext);
    proof {
        assert(plan@ =~= spec_shutdown_plan(BLANK_FRAME_REPEATS as nat));
    }
    plan
}

/// Shutdown order: every plan publishes its blank frames — at least one —
/// strictly before the server is stopped; the server is stopped before it
/// is released, the release comes before the render-context destroy, the
/// destroy before the surface deletes, and the GPU context goes down
/// last.  Stated as: the plan is sorted by [`teardown_stage`].
pub proof fn lemma_shutdown_order(blank_repeats: nat)
    requires
        blank_repeats >= 1,
    ensures
        ({
            let plan = spec_shutdown_plan(blank_repeats);
            &&& plan.len() == blank_repeats + 8
            &&& forall|i: int|
                1 <= i <= blank_repeats ==> (#[trigger] plan[i]) is PublishBlankFrame
            &&& forall|i: int, j: int|
                0 <= i <= j < plan.len() ==> teardown_stage(#[trigger] plan[i])
                    <= teardown_stage(#[trigger] plan[j])
        }),
{
    let n = blank_repeats as int;
    let plan = spec_shutdown_plan(blank_repeats);
    assert forall|i: int| 0 <= i < plan.len() implies teardown_stage(#[trigger] plan[i]) == (
    if i == 0 {
        0int
    } else if i <= n {
        1int
    } else {
        i - n + 1
    }) by {
        if i == 0 {
            assert(plan[i] is MakeContextCurrent);
        } else if i <= n {
            assert(plan[i] is PublishBlankFrame);
        }
    }
}

} // verus!
