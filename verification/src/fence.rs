use ash::vk;
use vstd::prelude::*;
use crate::error::RenderError;

verus! {

/// What is known of the fence that guards a submission.
#[derive(Clone, Copy, Debug, PartialEq, Eq, Structural)]
pub enum FenceStatus {
    /// The work it guarded is complete, or it was created signaled.
    Signaled,
    /// It was reset and guards nothing yet.
    Unsignaled,
    /// It was handed to the queue with a submission that may still run.
    InFlight,
}

/// Where a submission stands between its three backend calls.
#[derive(Clone, Copy, Debug, PartialEq, Eq, Structural)]
pub enum GatePhase {
    /// No submission is under way.
    Idle,
    /// The fence is being reset.
    Resetting,
    /// The command buffer is being submitted.
    Submitting,
    /// The fence is being waited for.
    Waiting,
}

/// What the caller has to do next for the submission.
#[derive(Clone, Copy, Debug, PartialEq, Eq, Structural)]
pub enum GateAction {
    /// Reset the fence and report the backend's code.
    ResetFence,
    /// Submit the command buffer to the queue, with the fence and without any
    /// semaphore, and report the backend's code.
    Submit,
    /// Wait for the fence for at most this many nanoseconds and report the
    /// backend's code.
    Wait(u64),
    /// The submitted work is complete.
    Completed,
    /// The submission has failed.
    Failed(RenderError),
    /// No submission is under way, so there was nothing to report.
    NothingPending,
}

/// What a backend code says of the call that returned it.
#[derive(Clone, Copy, Debug, PartialEq, Eq, Structural)]
pub enum ResultKind {
    Success,
    Timeout,
    Failure,
}

/// The fence protocol through which command buffers are submitted, one at a time.
#[derive(Clone, Copy, Debug, PartialEq, Eq, Structural)]
pub struct SubmissionGate {
    pub phase: GatePhase,
    pub fence: FenceStatus,
    /// How long a wait may take, in nanoseconds.
    pub timeout: u64,
}

/// The timeout that makes a wait block until the fence signals.
pub const WAIT_FOREVER: u64 = 0xffff_ffff_ffff_ffff;

/// The backend's code for success is 0, its code for a wait that ran out of
/// time is 2; every other code is a failure here.
pub open spec fn kind_of(code: i32) -> ResultKind {
    if code == 0 {
        ResultKind::Success
    } else if code == 2 {
        ResultKind::Timeout
    } else {
        ResultKind::Failure
    }
}

impl SubmissionGate {
    /// The fence is in the status that the phase implies: it is never reset
    /// while in flight, submitted with only when unsignaled, and waited for
    /// only when in flight.
    pub open spec fn wf(self) -> bool {
        match self.phase {
            GatePhase::Idle => true,
            GatePhase::Resetting => self.fence != FenceStatus::InFlight,
            GatePhase::Submitting => self.fence == FenceStatus::Unsignaled,
            GatePhase::Waiting => self.fence == FenceStatus::InFlight,
        }
    }
}

/// A gate over a fence that was created signaled.
pub open spec fn fresh(timeout: u64) -> SubmissionGate {
    SubmissionGate { phase: GatePhase::Idle, fence: FenceStatus::Signaled, timeout }
}

/// The call that a gate in the middle of a submission is waiting to hear of.
pub open spec fn pending_action(gate: SubmissionGate) -> GateAction {
    match gate.phase {
        GatePhase::Idle => GateAction::NothingPending,
        GatePhase::Resetting => GateAction::ResetFence,
        GatePhase::Submitting => GateAction::Submit,
        GatePhase::Waiting => GateAction::Wait(gate.timeout),
    }
}

/// The state once a submission is asked for, and what is asked in turn.
///
/// An idle gate starts with the reset of its fence, unless the fence is still
/// in flight from a wait that did not see it signal: then the fence cannot be
/// used again and the submission fails. A gate that is in the middle of a
/// submission stays there and repeats what it is waiting for.
pub open spec fn begun(gate: SubmissionGate) -> (SubmissionGate, GateAction) {
    if gate.phase != GatePhase::Idle {
        (gate, pending_action(gate))
    } else if gate.fence == FenceStatus::InFlight {
        (gate, GateAction::Failed(RenderError::SubmissionTimeout))
    } else {
        (SubmissionGate { phase: GatePhase::Resetting, ..gate }, GateAction::ResetFence)
    }
}

/// The state once the pending call has returned `code`, and what is asked next.
///
/// Success leads from the reset to the submission, from the submission to the
/// wait, and from the wait to completion. A failed call ends the submission
/// with the backend's code; a wait that ran out of time ends it with a timeout
/// and leaves the fence in flight.
pub open spec fn continued(gate: SubmissionGate, code: i32) -> (SubmissionGate, GateAction) {
    let idle = SubmissionGate { phase: GatePhase::Idle, ..gate };
    match gate.phase {
        GatePhase::Idle => (gate, GateAction::NothingPending),
        GatePhase::Resetting => if kind_of(code) == ResultKind::Success {
            (
                SubmissionGate {
                    phase: GatePhase::Submitting,
                    fence: FenceStatus::Unsignaled,
                    ..gate
                },
                GateAction::Submit,
            )
        } else {
            (idle, GateAction::Failed(RenderError::BackendCallFailed(code)))
        },
        GatePhase::Submitting => if kind_of(code) == ResultKind::Success {
            (
                SubmissionGate { phase: GatePhase::Waiting, fence: FenceStatus::InFlight, ..gate },
                GateAction::Wait(gate.timeout),
            )
        } else {
            (idle, GateAction::Failed(RenderError::BackendCallFailed(code)))
        },
        GatePhase::Waiting => match kind_of(code) {
            ResultKind::Success => (
                SubmissionGate { phase: GatePhase::Idle, fence: FenceStatus::Signaled, ..gate },
                GateAction::Completed,
            ),
            ResultKind::Timeout => (idle, GateAction::Failed(RenderError::SubmissionTimeout)),
            ResultKind::Failure => (
                idle,
                GateAction::Failed(RenderError::BackendCallFailed(code)),
            ),
        },
    }
}

/// Tells apart `SUCCESS` and `TIMEOUT` of `ash::vk::Result` from its other
/// values. ash defines `SUCCESS` as 0 and `TIMEOUT` as 2.
#[verifier::external_body]
fn result_kind(code: i32) -> (kind: ResultKind)
    ensures
        kind == kind_of(code),
{
    match vk::Result::from_raw(code) {
        vk::Result::SUCCESS => ResultKind::Success,
        vk::Result::TIMEOUT => ResultKind::Timeout,
        _ => ResultKind::Failure,
    }
}

/// Makes a submission gate for a fence that was created signaled.
pub fn new_gate(timeout: u64) -> (gate: SubmissionGate)
    ensures
        gate == fresh(timeout),
        gate.wf(),
{
    SubmissionGate { phase: GatePhase::Idle, fence: FenceStatus::Signaled, timeout }
}

/// Starts `submit_and_wait`: says what to do first for a new submission.
pub fn begin_submission(gate: SubmissionGate) -> (step: (SubmissionGate, GateAction))
    ensures
        step == begun(gate),
        gate.wf() ==> step.0.wf(),
{
    match gate.phase {
        GatePhase::Idle => match gate.fence {
            FenceStatus::InFlight => (gate, GateAction::Failed(RenderError::SubmissionTimeout)),
            _ => (
                SubmissionGate { phase: GatePhase::Resetting, fence: gate.fence, timeout: gate.timeout },
                GateAction::ResetFence,
            ),
        },
        GatePhase::Resetting => (gate, GateAction::ResetFence),
        GatePhase::Submitting => (gate, GateAction::Submit),
        GatePhase::Waiting => (gate, GateAction::Wait(gate.timeout)),
    }
}

/// Carries `submit_and_wait` on: takes the code of the call that was
/// pending and says what to do next.
pub fn continue_submission(gate: SubmissionGate, code: i32) -> (step: (SubmissionGate, GateAction))
    ensures
        step == continued(gate, code),
        gate.wf() ==> step.0.wf(),
{
    let timeout = gate.timeout;
    let idle = SubmissionGate { phase: GatePhase::Idle, fence: gate.fence, timeout };
    match gate.phase {
        GatePhase::Idle => (gate, GateAction::NothingPending),
        GatePhase::Resetting => match result_kind(code) {
            ResultKind::Success => (
                SubmissionGate {
                    phase: GatePhase::Submitting,
                    fence: FenceStatus::Unsignaled,
                    timeout,
                },
                GateAction::Submit,
            ),
            _ => (idle, GateAction::Failed(RenderError::BackendCallFailed(code))),
        },
        GatePhase::Submitting => match result_kind(code) {
            ResultKind::Success => (
                SubmissionGate { phase: GatePhase::Waiting, fence: FenceStatus::InFlight, timeout },
                GateAction::Wait(timeout),
            ),
            _ => (idle, GateAction::Failed(RenderError::BackendCallFailed(code))),
        },
        GatePhase::Waiting => match result_kind(code) {
            ResultKind::Success => (
                SubmissionGate { phase: GatePhase::Idle, fence: FenceStatus::Signaled, timeout },
                GateAction::Completed,
            ),
            ResultKind::Timeout => (idle, GateAction::Failed(RenderError::SubmissionTimeout)),
            ResultKind::Failure => (
                idle,
                GateAction::Failed(RenderError::BackendCallFailed(code)),
            ),
        },
    }
}

/// A submission whose three calls succeed resets the fence, submits, waits
/// with the configured timeout, and completes; the state is then idle over a
/// signaled fence, ready for the next submission.
pub proof fn lemma_successful_submission(gate: SubmissionGate)
    requires
        gate.phase == GatePhase::Idle,
        gate.fence != FenceStatus::InFlight,
    ensures
        begun(gate).1 == GateAction::ResetFence,
        continued(begun(gate).0, 0).1 == GateAction::Submit,
        continued(continued(begun(gate).0, 0).0, 0).1 == GateAction::Wait(gate.timeout),
        continued(continued(continued(begun(gate).0, 0).0, 0).0, 0) == (
            fresh(gate.timeout),
            GateAction::Completed,
        ),
{
}

/// The fence is not used for a second submission before it has been waited
/// for and reset: a reset is asked for only when the fence is not in flight,
/// and a submission only in answer to a successful reset, with the fence
/// unsignaled.
pub proof fn lemma_fence_is_reset_before_reuse(gate: SubmissionGate, code: i32)
    requires
        gate.wf(),
    ensures
        begun(gate).1 == GateAction::ResetFence ==> gate.fence != FenceStatus::InFlight,
        continued(gate, code).1 == GateAction::ResetFence ==> false,
        continued(gate, code).1 == GateAction::Submit ==> {
            &&& gate.phase == GatePhase::Resetting
            &&& kind_of(code) == ResultKind::Success
            &&& continued(gate, code).0.fence == FenceStatus::Unsignaled
        },
        begun(gate).1 == GateAction::Submit ==> gate.phase == GatePhase::Submitting && gate.fence
            == FenceStatus::Unsignaled,
{
}

/// A wait that runs out of time fails the submission with a timeout, and the
/// fence, still in flight, lets no further submission start.
pub proof fn lemma_timeout_blocks_the_gate(gate: SubmissionGate, code: i32)
    requires
        gate.wf(),
        gate.phase == GatePhase::Waiting,
        kind_of(code) == ResultKind::Timeout,
    ensures
        continued(gate, code).1 == GateAction::Failed(RenderError::SubmissionTimeout),
        begun(continued(gate, code).0).1 == GateAction::Failed(RenderError::SubmissionTimeout),
        begun(continued(gate, code).0).0 == continued(gate, code).0,
{
}

} // verus!
