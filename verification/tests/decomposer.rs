use otto_agent::agent::decomposer::{
    decompose, decompose_from_response, parse_goals_from_response, try_pattern_match,
    DecomposeStart,
};
use otto_agent::types::GoalStatus;

#[test]
fn test_open_pattern() {
    let (goals, _name) = try_pattern_match("open safari").unwrap();
    assert_eq!(goals.len(), 1);
    assert!(goals[0].description.contains("Safari"));
}

#[test]
fn test_search_pattern() {
    let (goals, _name) = try_pattern_match("open chrome and search for rust").unwrap();
    assert_eq!(goals.len(), 4);
    assert!(goals[0].description.contains("Chrome"));
}

#[test]
fn test_click_pattern() {
    let (goals, _name) = try_pattern_match("click on the submit button").unwrap();
    assert_eq!(goals.len(), 1);
    assert!(goals[0].description.contains("submit button"));
}

#[test]
fn open_safari_is_one_fast_path_goal() {
    match decompose("open safari") {
        DecomposeStart::Ready(res) => {
            assert_eq!(res.goals.len(), 1);
            assert!(res.goals[0].description.contains("Safari"));
            assert_eq!(res.info.method, "pattern");
            assert_eq!(res.info.pattern_name.as_deref(), Some("open_app"));
        }
        DecomposeStart::NeedModel => panic!("fast path expected"),
    }
}

#[test]
fn open_and_search_is_four_fast_path_goals() {
    match decompose("open chrome and search for rust") {
        DecomposeStart::Ready(res) => {
            assert_eq!(res.goals.len(), 4);
            assert_eq!(res.goals[0].description, "Open Chrome");
            assert_eq!(res.goals[1].description, "Focus URL bar");
            assert_eq!(res.goals[2].description, "Type search query: rust");
            assert_eq!(res.goals[3].description, "Execute search");
            assert_eq!(res.info.method, "pattern");
            assert_eq!(res.info.pattern_name.as_deref(), Some("open_and_search"));
        }
        DecomposeStart::NeedModel => panic!("fast path expected"),
    }
}

#[test]
fn search_in_pattern_builds_search_goals() {
    let (goals, name) = try_pattern_match("search cats in safari").unwrap();
    assert_eq!(name, "search_in");
    assert_eq!(goals.len(), 4);
    assert_eq!(goals[0].description, "Open Safari");
    assert_eq!(goals[2].description, "Type search query: cats");
}

#[test]
fn type_pattern_keeps_text() {
    let (goals, name) = try_pattern_match("type hello there").unwrap();
    assert_eq!(name, "type");
    assert_eq!(goals[0].description, "Type: hello there");
    assert_eq!(goals[0].success_criteria, "\"hello there\" has been typed");
}

#[test]
fn unmatched_command_needs_model() {
    match decompose("reorganize my desktop somehow") {
        DecomposeStart::NeedModel => {}
        DecomposeStart::Ready(_) => panic!("no template should match"),
    }
}

#[test]
fn new_goals_start_pending_with_budget() {
    let (goals, _) = try_pattern_match("open safari").unwrap();
    assert_eq!(goals[0].status, GoalStatus::Pending);
    assert_eq!(goals[0].attempts, 0);
    assert_eq!(goals[0].max_attempts, 5);
}

#[test]
fn goal_list_pipe_tier() {
    let goals = parse_goals_from_response("1. Open Safari | Safari is visible\n2. Type hello | text appears").unwrap();
    assert_eq!(goals.len(), 2);
    assert_eq!(goals[0].description, "Open Safari");
    assert_eq!(goals[0].success_criteria, "Safari is visible");
    assert_eq!(goals[1].description, "Type hello");
}

#[test]
fn goal_list_dash_tier() {
    let goals = parse_goals_from_response("1. Open Safari - Safari is visible").unwrap();
    assert_eq!(goals.len(), 1);
    assert_eq!(goals[0].description, "Open Safari");
    assert_eq!(goals[0].success_criteria, "Safari is visible");
}

#[test]
fn goal_list_simple_tier_synthesizes_criteria() {
    let goals = parse_goals_from_response("1. Open Safari").unwrap();
    assert_eq!(goals.len(), 1);
    assert_eq!(goals[0].description, "Open Safari");
    assert_eq!(goals[0].success_criteria, "Open Safari is completed");
}

#[test]
fn goal_list_skips_meta_lines() {
    let r = parse_goals_from_response("1. no specific goals listed here");
    assert!(r.is_err());
}

#[test]
fn goal_list_empty_response_is_terminal_error() {
    let r = parse_goals_from_response("nothing useful");
    let e = r.err().unwrap();
    assert_eq!(e, "Could not parse goals from LLM response: nothing useful");
}

#[test]
fn decompose_from_response_uses_llm_method() {
    let res = decompose_from_response("do things", "1. First | done\n2. Second | done").unwrap();
    assert_eq!(res.goals.len(), 2);
    assert_eq!(res.info.method, "llm");
    assert!(res.info.pattern_name.is_none());
    assert_eq!(res.info.original_command, "do things");
}
