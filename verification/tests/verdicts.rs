use otto_agent::agent::thinker::parse_action_blind;
use otto_agent::agent::verify::{extract_observation, parse_verification_response, Verifier};
use otto_agent::types::Goal;

fn goal() -> Goal {
    Goal::new(String::from("Move cursor"), String::from("cursor moved"))
}

fn action() -> otto_agent::types::AtomicAction {
    parse_action_blind("wait 1", &goal()).unwrap()
}

#[test]
fn not_achieved_no_progress_with_note() {
    let v = parse_verification_response(
        "NOT_ACHIEVED\nNO_PROGRESS\ncursor not moved",
        &goal(),
        &action(),
    )
    .unwrap();
    assert!(!v.goal_achieved);
    assert!(!v.progress_made);
    assert_eq!(v.observation, "cursor not moved");
}

#[test]
fn achieved_with_progress() {
    let v = parse_verification_response(
        "ACHIEVED\nPROGRESS\nwindow is frontmost",
        &goal(),
        &action(),
    )
    .unwrap();
    assert!(v.goal_achieved);
    assert!(v.progress_made);
    assert_eq!(v.observation, "window is frontmost");
}

#[test]
fn verdict_extraction_never_fails() {
    let v = parse_verification_response("", &goal(), &action()).unwrap();
    assert!(!v.goal_achieved);
    assert!(!v.progress_made);
    assert_eq!(v.observation, "No observation");
}

#[test]
fn verdict_links_goal_and_action_ids() {
    let g = goal();
    let a = action();
    let v = parse_verification_response("ACHIEVED\nPROGRESS\nok", &g, &a).unwrap();
    assert_eq!(v.goal_id, g.id);
    assert_eq!(v.action_id, a.id);
}

#[test]
fn observation_label_is_dropped() {
    assert_eq!(
        extract_observation("ACHIEVED\nObservation: the window moved"),
        "the window moved"
    );
}

#[test]
fn observation_takes_last_nonempty_line() {
    assert_eq!(extract_observation("a\nb\n\n  \n"), "b");
}

#[test]
fn quick_verify_compares_hashes() {
    let v = Verifier::new();
    assert!(v.quick_verify("abc", "abd"));
    assert!(!v.quick_verify("abc", "abc"));
}
