use frame_renderer::error::RenderError;
use frame_renderer::fence::{
    begin_submission, continue_submission, new_gate, FenceStatus, GateAction, GatePhase,
    SubmissionGate, WAIT_FOREVER,
};

const SUCCESS: i32 = 0;
const NOT_READY: i32 = 1;
const TIMEOUT: i32 = 2;
const ERROR_DEVICE_LOST: i32 = -4;

#[test]
fn submit_and_wait_resets_submits_waits() {
    let gate = new_gate(WAIT_FOREVER);
    assert_eq!(
        gate,
        SubmissionGate {
            phase: GatePhase::Idle,
            fence: FenceStatus::Signaled,
            timeout: u64::MAX
        }
    );
    let (gate, action) = begin_submission(gate);
    assert_eq!(action, GateAction::ResetFence);
    assert_eq!(gate.phase, GatePhase::Resetting);
    let (gate, action) = continue_submission(gate, SUCCESS);
    assert_eq!(action, GateAction::Submit);
    assert_eq!(gate.fence, FenceStatus::Unsignaled);
    let (gate, action) = continue_submission(gate, SUCCESS);
    assert_eq!(action, GateAction::Wait(u64::MAX));
    assert_eq!(gate.fence, FenceStatus::InFlight);
    let (gate, action) = continue_submission(gate, SUCCESS);
    assert_eq!(action, GateAction::Completed);
    assert_eq!(gate, new_gate(WAIT_FOREVER));
}

#[test]
fn gate_is_reusable_after_a_completed_submission() {
    let mut gate = new_gate(5_000_000);
    for _ in 0..2 {
        let (g, a) = begin_submission(gate);
        assert_eq!(a, GateAction::ResetFence);
        let (g, a) = continue_submission(g, SUCCESS);
        assert_eq!(a, GateAction::Submit);
        let (g, a) = continue_submission(g, SUCCESS);
        assert_eq!(a, GateAction::Wait(5_000_000));
        let (g, a) = continue_submission(g, SUCCESS);
        assert_eq!(a, GateAction::Completed);
        gate = g;
    }
    assert_eq!(gate.fence, FenceStatus::Signaled);
}

#[test]
fn wait_timeout_is_a_submission_timeout() {
    let (gate, _) = begin_submission(new_gate(1_000));
    let (gate, _) = continue_submission(gate, SUCCESS);
    let (gate, _) = continue_submission(gate, SUCCESS);
    let (gate, action) = continue_submission(gate, TIMEOUT);
    assert_eq!(action, GateAction::Failed(RenderError::SubmissionTimeout));
    assert_eq!(gate.phase, GatePhase::Idle);
    assert_eq!(gate.fence, FenceStatus::InFlight);
    let (again, action) = begin_submission(gate);
    assert_eq!(action, GateAction::Failed(RenderError::SubmissionTimeout));
    assert_eq!(again, gate);
}

#[test]
fn failed_calls_carry_the_backend_code() {
    let (gate, _) = begin_submission(new_gate(WAIT_FOREVER));
    let (after, action) = continue_submission(gate, ERROR_DEVICE_LOST);
    assert_eq!(action, GateAction::Failed(RenderError::BackendCallFailed(-4)));
    assert_eq!(after.phase, GatePhase::Idle);
    assert_eq!(after.fence, FenceStatus::Signaled);

    let (gate, _) = continue_submission(gate, SUCCESS);
    let (after, action) = continue_submission(gate, TIMEOUT);
    assert_eq!(action, GateAction::Failed(RenderError::BackendCallFailed(2)));
    assert_eq!(after.fence, FenceStatus::Unsignaled);

    let (gate, _) = continue_submission(gate, SUCCESS);
    let (after, action) = continue_submission(gate, NOT_READY);
    assert_eq!(action, GateAction::Failed(RenderError::BackendCallFailed(1)));
    assert_eq!(after.fence, FenceStatus::InFlight);
    let (_, action) = continue_submission(gate, ERROR_DEVICE_LOST);
    assert_eq!(action, GateAction::Failed(RenderError::BackendCallFailed(-4)));
}

#[test]
fn idle_gate_has_nothing_pending_and_busy_gate_repeats_itself() {
    let gate = new_gate(WAIT_FOREVER);
    assert_eq!(continue_submission(gate, SUCCESS), (gate, GateAction::NothingPending));
    let (resetting, _) = begin_submission(gate);
    assert_eq!(begin_submission(resetting), (resetting, GateAction::ResetFence));
    let (submitting, _) = continue_submission(resetting, SUCCESS);
    assert_eq!(begin_submission(submitting), (submitting, GateAction::Submit));
    let (waiting, _) = continue_submission(submitting, SUCCESS);
    assert_eq!(begin_submission(waiting), (waiting, GateAction::Wait(u64::MAX)));
}
