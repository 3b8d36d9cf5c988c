//! The goal-driven control loop, as a state machine over `AgentSession`.
//!
//! The surrounding program owns the boundaries (capture, model, actuation)
//! and drives the loop; every decision and every mutation of the session
//! happens here.  The gates are checked before any work: cancellation and
//! the global action budget abort the run, an exhausted per-goal attempt
//! budget fails the goal and with it the run.  Retryable failures only ever
//! increment the current goal's attempt counter; only budget exhaustion and
//! cancellation are fatal.

use vstd::prelude::*;

use crate::text::{dec_spec, fmt_u64};
use crate::types::{
    goal_wf, session_wf, ActionParams, ActionResult, AgentSession, AgentState, AtomicAction, Goal,
    GoalStatus, ScreenState,
};

verus! {

// ---------------------------------------------------------------------------
// Cancellation token
// ---------------------------------------------------------------------------

/// The cancellation token handed into a run.  The surrounding program may
/// share one across threads (behind an atomic) and sample it into the loop;
/// the core only ever reads the sampled value at its gates.
pub struct CancelFlag {
    pub cancelled: bool,
}

impl CancelFlag {
    pub fn new() -> (f: CancelFlag)
        ensures
            !f.cancelled,
    {
        CancelFlag { cancelled: false }
    }
}

/// Requests cancellation: the next gate the loop reaches becomes terminal.
pub fn cancel_agent(flag: &mut CancelFlag)
    ensures
        final(flag).cancelled,
{
    flag.cancelled = true;
}

pub fn reset_cancellation(flag: &mut CancelFlag)
    ensures
        !final(flag).cancelled,
{
    flag.cancelled = false;
}

pub fn is_cancelled(flag: &CancelFlag) -> (r: bool)
    ensures
        r == flag.cancelled,
{
    flag.cancelled
}

// ---------------------------------------------------------------------------
// Unchanged-field helpers
// ---------------------------------------------------------------------------

/// Everything but the lifecycle state and the error is the same.
pub open spec fn same_but_outcome(a: AgentSession, b: AgentSession) -> bool {
    &&& a.id == b.id
    &&& a.original_command == b.original_command
    &&& a.goals == b.goals
    &&& a.current_goal_index == b.current_goal_index
    &&& a.action_history == b.action_history
    &&& a.total_actions == b.total_actions
    &&& a.max_total_actions == b.max_total_actions
    &&& a.current_action == b.current_action
    &&& a.last_observation == b.last_observation
}

/// Everything but the goal list, the lifecycle state and the error is the
/// same.
pub open spec fn same_but_goals_and_outcome(a: AgentSession, b: AgentSession) -> bool {
    &&& a.id == b.id
    &&& a.original_command == b.original_command
    &&& a.current_goal_index == b.current_goal_index
    &&& a.action_history == b.action_history
    &&& a.total_actions == b.total_actions
    &&& a.max_total_actions == b.max_total_actions
    &&& a.current_action == b.current_action
    &&& a.last_observation == b.last_observation
}

/// Attempt counters never move backwards: each goal either keeps its
/// attempts or has seen them grow, and its budget is untouched.
pub open spec fn attempts_monotone(a: AgentSession, b: AgentSession) -> bool {
    &&& a.goals@.len() == b.goals@.len()
    &&& forall|i: int|
        0 <= i < a.goals@.len() ==> a.goals@[i].attempts <= #[trigger] b.goals@[i].attempts
            && a.goals@[i].max_attempts == b.goals@[i].max_attempts
}

// ---------------------------------------------------------------------------
// Lifecycle transitions
// ---------------------------------------------------------------------------

pub fn set_state(s: &mut AgentSession, st: AgentState)
    ensures
        final(s).state == st,
        final(s).error == old(s).error,
        same_but_outcome(*old(s), *final(s)),
        attempts_monotone(*old(s), *final(s)),
        session_wf(*old(s)) ==> session_wf(*final(s)),
{
    s.state = st;
}

/// Terminal failure: state `Error` with a message.  Every terminal error is
/// explicit; the loop never exits silently.
pub fn set_error(s: &mut AgentSession, message: &str)
    ensures
        final(s).state == AgentState::Error,
        final(s).error matches Some(m) && m@ == message@,
        same_but_outcome(*old(s), *final(s)),
        attempts_monotone(*old(s), *final(s)),
        session_wf(*old(s)) ==> session_wf(*final(s)),
{
    s.state = AgentState::Error;
    s.error = Some(String::from_str(message));
}

/// Terminal cancellation: distinct, explicit message.
pub fn mark_cancelled(s: &mut AgentSession)
    ensures
        final(s).state == AgentState::Error,
        final(s).error matches Some(m) && m@ == "Cancelled by user"@,
        same_but_outcome(*old(s), *final(s)),
        attempts_monotone(*old(s), *final(s)),
        session_wf(*old(s)) ==> session_wf(*final(s)),
{
    set_error(s, "Cancelled by user");
}

/// Terminal exhaustion of the global action budget.
pub fn mark_budget_exhausted(s: &mut AgentSession)
    ensures
        final(s).state == AgentState::Error,
        final(s).error matches Some(m) && m@ == "Maximum actions exceeded"@,
        same_but_outcome(*old(s), *final(s)),
        attempts_monotone(*old(s), *final(s)),
        session_wf(*old(s)) ==> session_wf(*final(s)),
{
    set_error(s, "Maximum actions exceeded");
}

pub fn finish_run(s: &mut AgentSession)
    ensures
        final(s).state == AgentState::Complete,
        final(s).error == old(s).error,
        same_but_outcome(*old(s), *final(s)),
        attempts_monotone(*old(s), *final(s)),
        session_wf(*old(s)) ==> session_wf(*final(s)),
{
    s.state = AgentState::Complete;
}

/// Accepts the decomposer's goals into the session.  Decomposition happens
/// exactly once, before any goal work.
pub fn accept_goals(s: &mut AgentSession, goals: Vec<Goal>)
    requires
        forall|i: int| 0 <= i < goals@.len() ==> goal_wf(#[trigger] goals@[i]),
    ensures
        final(s).goals == goals,
        final(s).state == old(s).state,
        final(s).error == old(s).error,
        same_but_goals_and_outcome(*old(s), *final(s)),
        session_wf(*final(s)),
{
    s.goals = goals;
}

// ---------------------------------------------------------------------------
// The run-level gate
// ---------------------------------------------------------------------------

#[derive(Clone, Copy, Debug, PartialEq, Eq, Structural)]
pub enum RunGate {
    /// Cancellation was requested: abort before any further boundary call.
    Cancelled,
    /// The global action budget is spent: abort.
    BudgetExhausted,
    /// Work on the goal at this index.
    Goal(usize),
    /// Every goal is done: the run completes.
    Finished,
}

/// The check at the top of every iteration of the outer loop, before any
/// work: cancellation first, then the global action budget, then the next
/// goal in strict order.
pub fn run_gate(s: &AgentSession, cancelled: bool) -> (g: RunGate)
    ensures
        g == (if cancelled {
            RunGate::Cancelled
        } else if s.total_actions >= s.max_total_actions {
            RunGate::BudgetExhausted
        } else if s.current_goal_index < s.goals@.len() {
            RunGate::Goal(s.current_goal_index)
        } else {
            RunGate::Finished
        }),
{
    if cancelled {
        RunGate::Cancelled
    } else if s.total_actions >= s.max_total_actions {
        RunGate::BudgetExhausted
    } else if s.current_goal_index < s.goals.len() {
        RunGate::Goal(s.current_goal_index)
    } else {
        RunGate::Finished
    }
}

// ---------------------------------------------------------------------------
// The per-goal gate and mutations
// ---------------------------------------------------------------------------

#[derive(Clone, Copy, Debug, PartialEq, Eq, Structural)]
pub enum GoalGate {
    /// Cancellation was requested inside the goal loop.
    Cancelled,
    /// The goal's attempt budget is spent: the goal fails, and the run with
    /// it.
    AttemptsExhausted,
    /// Another iteration of observe, decide, act, verify.
    Proceed,
}

/// The check at the top of every iteration of the per-goal loop.
pub fn goal_gate(s: &AgentSession, cancelled: bool) -> (g: GoalGate)
    requires
        s.current_goal_index < s.goals@.len(),
    ensures
        g == (if cancelled {
            GoalGate::Cancelled
        } else if s.goals@[s.current_goal_index as int].attempts
            >= s.goals@[s.current_goal_index as int].max_attempts {
            GoalGate::AttemptsExhausted
        } else {
            GoalGate::Proceed
        }),
{
    if cancelled {
        GoalGate::Cancelled
    } else {
        let g = &s.goals[s.current_goal_index];
        if g.attempts >= g.max_attempts {
            GoalGate::AttemptsExhausted
        } else {
            GoalGate::Proceed
        }
    }
}

fn replace_goal_status(s: &mut AgentSession, status: GoalStatus)
    requires
        old(s).current_goal_index < old(s).goals@.len(),
    ensures
        ({
            let i = old(s).current_goal_index as int;
            let g = old(s).goals@[i];
            &&& final(s).goals@ =~= old(s).goals@.update(
                i,
                Goal {
                    id: g.id,
                    description: g.description,
                    success_criteria: g.success_criteria,
                    status,
                    attempts: g.attempts,
                    max_attempts: g.max_attempts,
                },
            )
            &&& final(s).goals@[i].id@ == g.id@
        }),
        final(s).state == old(s).state,
        final(s).error == old(s).error,
        same_but_goals_and_outcome(*old(s), *final(s)),
        attempts_monotone(*old(s), *final(s)),
        session_wf(*old(s)) ==> session_wf(*final(s)),
{
    let i = s.current_goal_index;
    let g = &s.goals[i];
    let ng = Goal {
        id: g.id.clone(),
        description: g.description.clone(),
        success_criteria: g.success_criteria.clone(),
        status,
        attempts: g.attempts,
        max_attempts: g.max_attempts,
    };
    s.goals.set(i, ng);
}

/// Marks the current goal as being worked on.
pub fn start_goal(s: &mut AgentSession)
    requires
        old(s).current_goal_index < old(s).goals@.len(),
    ensures
        ({
            let i = old(s).current_goal_index as int;
            &&& final(s).goals@[i].status == GoalStatus::InProgress
            &&& final(s).goals@[i].description == old(s).goals@[i].description
            &&& final(s).goals@[i].attempts == old(s).goals@[i].attempts
            &&& final(s).goals@.len() == old(s).goals@.len()
            &&& forall|j: int|
                0 <= j < old(s).goals@.len() && j != i ==> final(s).goals@[j] == old(
                    s,
                ).goals@[j]
        }),
        final(s).state == old(s).state,
        final(s).error == old(s).error,
        same_but_goals_and_outcome(*old(s), *final(s)),
        attempts_monotone(*old(s), *final(s)),
        session_wf(*old(s)) ==> session_wf(*final(s)),
{
    replace_goal_status(s, GoalStatus::InProgress)
}

/// Fails the current goal for want of attempts, and the whole run with it:
/// no partial success, no skipping ahead.
pub fn fail_current_goal(s: &mut AgentSession)
    requires
        old(s).current_goal_index < old(s).goals@.len(),
    ensures
        ({
            let i = old(s).current_goal_index as int;
            let g = old(s).goals@[i];
            &&& final(s).goals@[i].status == GoalStatus::Failed
            &&& final(s).state == AgentState::Error
            &&& final(s).error matches Some(m) && m@ == "Goal failed after "@ + dec_spec(
                g.max_attempts as nat,
            ) + " attempts: "@ + g.description@
        }),
        same_but_goals_and_outcome(*old(s), *final(s)),
        attempts_monotone(*old(s), *final(s)),
        session_wf(*old(s)) ==> session_wf(*final(s)),
{
    replace_goal_status(s, GoalStatus::Failed);
    let i = s.current_goal_index;
    let g = &s.goals[i];
    let n = fmt_u64(g.max_attempts as u64);
    let msg = String::from_str("Goal failed after ").concat(n.as_str()).concat(
        " attempts: ",
    ).concat(g.description.as_str());
    let m2 = msg.clone();
    s.state = AgentState::Error;
    s.error = Some(m2);
}

/// Counts one failed attempt against the current goal.  Only called after
/// the goal gate said to proceed, so the budget holds afterwards too.
pub fn note_failed_attempt(s: &mut AgentSession)
    requires
        old(s).current_goal_index < old(s).goals@.len(),
        old(s).goals@[old(s).current_goal_index as int].attempts < old(s).goals@[old(
            s,
        ).current_goal_index as int].max_attempts,
    ensures
        ({
            let i = old(s).current_goal_index as int;
            &&& final(s).goals@[i].attempts == old(s).goals@[i].attempts + 1
            &&& final(s).goals@[i].status == old(s).goals@[i].status
            &&& final(s).goals@.len() == old(s).goals@.len()
            &&& forall|j: int|
                0 <= j < old(s).goals@.len() && j != i ==> final(s).goals@[j] == old(
                    s,
                ).goals@[j]
            &&& goal_wf(final(s).goals@[i])
        }),
        final(s).state == old(s).state,
        final(s).error == old(s).error,
        same_but_goals_and_outcome(*old(s), *final(s)),
        attempts_monotone(*old(s), *final(s)),
        session_wf(*old(s)) ==> session_wf(*final(s)),
{
    let i = s.current_goal_index;
    let g = &s.goals[i];
    let ng = Goal {
        id: g.id.clone(),
        description: g.description.clone(),
        success_criteria: g.success_criteria.clone(),
        status: g.status,
        attempts: g.attempts + 1,
        max_attempts: g.max_attempts,
    };
    s.goals.set(i, ng);
}

/// Marks the current goal achieved and moves to the next one.
pub fn complete_current_goal(s: &mut AgentSession)
    requires
        old(s).current_goal_index < old(s).goals@.len(),
    ensures
        ({
            let i = old(s).current_goal_index as int;
            &&& final(s).goals@[i].status == GoalStatus::Completed
            &&& final(s).current_goal_index == old(s).current_goal_index + 1
            &&& final(s).goals@.len() == old(s).goals@.len()
            &&& forall|j: int|
                0 <= j < old(s).goals@.len() && j != i ==> final(s).goals@[j] == old(
                    s,
                ).goals@[j]
        }),
        final(s).state == old(s).state,
        final(s).error == old(s).error,
        final(s).id == old(s).id,
        final(s).original_command == old(s).original_command,
        final(s).action_history == old(s).action_history,
        final(s).total_actions == old(s).total_actions,
        final(s).max_total_actions == old(s).max_total_actions,
        final(s).current_action == old(s).current_action,
        final(s).last_observation == old(s).last_observation,
        attempts_monotone(*old(s), *final(s)),
        session_wf(*old(s)) ==> session_wf(*final(s)),
{
    replace_goal_status(s, GoalStatus::Completed);
    let len = s.goals.len();
    proof {
        assert(s.current_goal_index < len);
    }
    s.current_goal_index = s.current_goal_index + 1;
}

// ---------------------------------------------------------------------------
// Observations, decisions, actions
// ---------------------------------------------------------------------------

pub fn set_observation(s: &mut AgentSession, obs: ScreenState)
    ensures
        final(s).last_observation == Some(obs),
        final(s).state == old(s).state,
        final(s).error == old(s).error,
        final(s).id == old(s).id,
        final(s).original_command == old(s).original_command,
        final(s).goals == old(s).goals,
        final(s).current_goal_index == old(s).current_goal_index,
        final(s).action_history == old(s).action_history,
        final(s).total_actions == old(s).total_actions,
        final(s).max_total_actions == old(s).max_total_actions,
        final(s).current_action == old(s).current_action,
        attempts_monotone(*old(s), *final(s)),
        session_wf(*old(s)) ==> session_wf(*final(s)),
{
    s.last_observation = Some(obs);
}

pub fn set_current_action(s: &mut AgentSession, a: AtomicAction)
    ensures
        final(s).current_action == Some(a),
        final(s).state == old(s).state,
        final(s).error == old(s).error,
        final(s).id == old(s).id,
        final(s).original_command == old(s).original_command,
        final(s).goals == old(s).goals,
        final(s).current_goal_index == old(s).current_goal_index,
        final(s).action_history == old(s).action_history,
        final(s).total_actions == old(s).total_actions,
        final(s).max_total_actions == old(s).max_total_actions,
        final(s).last_observation == old(s).last_observation,
        attempts_monotone(*old(s), *final(s)),
        session_wf(*old(s)) ==> session_wf(*final(s)),
{
    s.current_action = Some(a);
}

/// Books one executed action: the result joins the immutable history and the
/// global counter moves up by exactly one, whether or not the action
/// succeeded.
pub fn record_action_result(s: &mut AgentSession, result: ActionResult)
    requires
        old(s).total_actions < u32::MAX,
    ensures
        final(s).total_actions == old(s).total_actions + 1,
        final(s).action_history@ =~= old(s).action_history@.push(result),
        final(s).state == old(s).state,
        final(s).error == old(s).error,
        final(s).id == old(s).id,
        final(s).original_command == old(s).original_command,
        final(s).goals == old(s).goals,
        final(s).current_goal_index == old(s).current_goal_index,
        final(s).max_total_actions == old(s).max_total_actions,
        final(s).current_action == old(s).current_action,
        final(s).last_observation == old(s).last_observation,
        attempts_monotone(*old(s), *final(s)),
        session_wf(*old(s)) ==> session_wf(*final(s)),
{
    s.action_history.push(result);
    s.total_actions = s.total_actions + 1;
}

/// Builds the result record for one actuation outcome.  The screen is
/// assumed changed; verification refines that later.
pub fn action_result_of(action: &AtomicAction, outcome: Result<(), String>) -> (r: ActionResult)
    ensures
        r.action_id@ == action.id@,
        r.success == (outcome is Ok),
        match outcome {
            Ok(_) => r.error_message is None,
            Err(e) => r.error_message matches Some(m) && m == e,
        },
        r.screen_changed == true,
{
    match outcome {
        Ok(_) => ActionResult {
            action_id: action.id.clone(),
            success: true,
            error_message: None,
            screen_changed: true,
        },
        Err(e) => ActionResult {
            action_id: action.id.clone(),
            success: false,
            error_message: Some(e),
            screen_changed: true,
        },
    }
}

// ---------------------------------------------------------------------------
// Action classification
// ---------------------------------------------------------------------------

/// Whether an action's success is itself the observable outcome, so that
/// model-based verification is skipped.
pub open spec fn self_verifying(p: ActionParams) -> bool {
    match p {
        ActionParams::OpenApp { .. } => true,
        ActionParams::TypeText { .. } => true,
        ActionParams::PressKey { .. } => true,
        ActionParams::Wait { .. } => true,
        _ => false,
    }
}

pub fn is_self_verifying_action(action: &AtomicAction) -> (r: bool)
    ensures
        r == self_verifying(action.params),
{
    match &action.params {
        ActionParams::OpenApp { .. } => true,
        ActionParams::TypeText { .. } => true,
        ActionParams::PressKey { .. } => true,
        ActionParams::Wait { .. } => true,
        _ => false,
    }
}

/// Whether the decided action still needs screen coordinates: the composite
/// find-and-click requires a second decision pass over an observation.
pub fn needs_screen(action: &AtomicAction) -> (r: bool)
    ensures
        r == (action.params matches ActionParams::FindAndClick { .. }),
{
    match &action.params {
        ActionParams::FindAndClick { .. } => true,
        _ => false,
    }
}

/// The error an actuator reports for the composite action it cannot take:
/// find-and-click must be resolved to coordinates before acting.
pub fn find_and_click_error() -> (r: String)
    ensures
        r@ == "FindAndClick is not supported in agent mode"@,
{
    String::from_str("FindAndClick is not supported in agent mode")
}

} // verus!
