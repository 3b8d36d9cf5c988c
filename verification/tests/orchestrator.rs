use otto_agent::agent::orchestrator::{
    accept_goals, action_result_of, cancel_agent, complete_current_goal, fail_current_goal,
    find_and_click_error, goal_gate, is_cancelled, is_self_verifying_action, mark_cancelled,
    needs_screen, note_failed_attempt, record_action_result, reset_cancellation, run_gate,
    set_current_action, set_state, start_goal, CancelFlag, GoalGate, RunGate,
};
use otto_agent::types::{
    ActionParams, ActionType, AgentSession, AgentState, AtomicAction, Goal, GoalStatus,
};

fn session_with_goals(n: usize) -> AgentSession {
    let mut s = AgentSession::new(String::from("open safari"));
    let mut goals = Vec::new();
    for i in 0..n {
        goals.push(Goal::new(format!("goal {}", i), format!("criteria {}", i)));
    }
    accept_goals(&mut s, goals);
    s
}

#[test]
fn cancel_flag_round_trip() {
    let mut f = CancelFlag::new();
    assert!(!is_cancelled(&f));
    cancel_agent(&mut f);
    assert!(is_cancelled(&f));
    reset_cancellation(&mut f);
    assert!(!is_cancelled(&f));
}

#[test]
fn run_gate_orders_cancellation_before_budget() {
    let s = session_with_goals(1);
    assert_eq!(run_gate(&s, true), RunGate::Cancelled);
    assert_eq!(run_gate(&s, false), RunGate::Goal(0));
}

#[test]
fn run_gate_stops_at_action_budget() {
    let mut s = session_with_goals(1);
    for _ in 0..50 {
        let a = AtomicAction::new(
            ActionType::Wait,
            ActionParams::Wait { ms: 1 },
            String::from("settle"),
        );
        let r = action_result_of(&a, Ok(()));
        record_action_result(&mut s, r);
    }
    assert_eq!(s.total_actions, 50);
    assert_eq!(run_gate(&s, false), RunGate::BudgetExhausted);
}

#[test]
fn run_gate_finishes_after_last_goal() {
    let mut s = session_with_goals(1);
    start_goal(&mut s);
    complete_current_goal(&mut s);
    assert_eq!(run_gate(&s, false), RunGate::Finished);
}

#[test]
fn cancellation_is_loud_and_terminal() {
    let mut s = session_with_goals(1);
    mark_cancelled(&mut s);
    assert_eq!(s.state, AgentState::Error);
    let msg = s.error.clone().unwrap();
    assert!(msg.to_lowercase().contains("cancel"));
    // the next gate makes no further work: it reports cancellation first
    assert_eq!(run_gate(&s, true), RunGate::Cancelled);
}

#[test]
fn attempts_grow_by_one_and_stop_at_budget() {
    let mut s = session_with_goals(1);
    start_goal(&mut s);
    for expected in 1..=5u32 {
        assert_eq!(goal_gate(&s, false), GoalGate::Proceed);
        note_failed_attempt(&mut s);
        assert_eq!(s.goals[0].attempts, expected);
        assert!(s.goals[0].attempts <= s.goals[0].max_attempts);
    }
    assert_eq!(goal_gate(&s, false), GoalGate::AttemptsExhausted);
}

#[test]
fn failed_goal_aborts_run_with_message() {
    let mut s = session_with_goals(1);
    start_goal(&mut s);
    fail_current_goal(&mut s);
    assert_eq!(s.goals[0].status, GoalStatus::Failed);
    assert_eq!(s.state, AgentState::Error);
    assert_eq!(
        s.error.as_deref(),
        Some("Goal failed after 5 attempts: goal 0")
    );
}

#[test]
fn total_actions_counts_failures_too() {
    let mut s = session_with_goals(1);
    let a = AtomicAction::new(
        ActionType::OpenApp,
        ActionParams::OpenApp { app_name: String::from("Safari") },
        String::from("open it"),
    );
    let ok = action_result_of(&a, Ok(()));
    let bad = action_result_of(&a, Err(String::from("no such app")));
    record_action_result(&mut s, ok);
    assert_eq!(s.total_actions, 1);
    record_action_result(&mut s, bad);
    assert_eq!(s.total_actions, 2);
    assert_eq!(s.action_history.len(), 2);
    assert!(!s.action_history[1].success);
    assert_eq!(s.action_history[1].error_message.as_deref(), Some("no such app"));
}

#[test]
fn completing_a_goal_advances_in_order() {
    let mut s = session_with_goals(2);
    start_goal(&mut s);
    complete_current_goal(&mut s);
    assert_eq!(s.goals[0].status, GoalStatus::Completed);
    assert_eq!(s.current_goal_index, 1);
    assert_eq!(run_gate(&s, false), RunGate::Goal(1));
}

#[test]
fn self_verifying_action_kinds() {
    let mk = |t: ActionType, p: ActionParams| AtomicAction::new(t, p, String::from("r"));
    assert!(is_self_verifying_action(&mk(
        ActionType::OpenApp,
        ActionParams::OpenApp { app_name: String::from("Safari") }
    )));
    assert!(is_self_verifying_action(&mk(
        ActionType::TypeText,
        ActionParams::TypeText { text: String::from("hi") }
    )));
    assert!(is_self_verifying_action(&mk(
        ActionType::PressKey,
        ActionParams::PressKey { key: String::from("l"), modifiers: None }
    )));
    assert!(is_self_verifying_action(&mk(ActionType::Wait, ActionParams::Wait { ms: 5 })));
    assert!(!is_self_verifying_action(&mk(
        ActionType::MouseClick,
        ActionParams::MouseClick { x: 1, y: 2, button: None }
    )));
}

#[test]
fn find_and_click_needs_a_second_pass() {
    let a = AtomicAction::new(
        ActionType::FindAndClick,
        ActionParams::FindAndClick { element: String::from("submit") },
        String::from("r"),
    );
    assert!(needs_screen(&a));
    assert_eq!(find_and_click_error(), "FindAndClick is not supported in agent mode");
}

#[test]
fn state_transitions_keep_progress() {
    let mut s = session_with_goals(1);
    set_state(&mut s, AgentState::Decomposing);
    assert_eq!(s.state, AgentState::Decomposing);
    let a = AtomicAction::new(
        ActionType::Wait,
        ActionParams::Wait { ms: 1 },
        String::from("r"),
    );
    set_current_action(&mut s, a);
    assert!(s.current_action.is_some());
    assert_eq!(s.goals.len(), 1);
}
