use otto_agent::executor::get_debug_info;
use otto_agent::llm::{
    build_prompt, extract_json, generate_plan, plan_from_response, try_parse_direct, PlanStart,
};
use otto_agent::types::{ActionParams, ActionType};

#[test]
fn direct_open_is_one_step() {
    let steps = try_parse_direct("open safari").unwrap();
    assert_eq!(steps.len(), 1);
    assert_eq!(steps[0].action_type, ActionType::OpenApp);
    assert_eq!(steps[0].description, "Open Safari");
}

#[test]
fn direct_search_is_six_steps() {
    let steps = try_parse_direct("search rust in safari").unwrap();
    assert_eq!(steps.len(), 6);
    assert_eq!(steps[0].description, "Open Safari");
    assert_eq!(steps[2].description, "Focus URL bar (Cmd+L)");
    match &steps[4].params {
        ActionParams::TypeText { text } => assert_eq!(text, "rust"),
        other => panic!("wrong params: {:?}", other),
    }
    match &steps[5].params {
        ActionParams::PressKey { key, modifiers } => {
            assert_eq!(key, "return");
            assert_eq!(modifiers.as_deref(), Some(&[][..]));
        }
        other => panic!("wrong params: {:?}", other),
    }
}

#[test]
fn direct_open_and_search_keeps_for_in_query() {
    let steps = try_parse_direct("open chrome and search for rust").unwrap();
    assert_eq!(steps.len(), 6);
    match &steps[4].params {
        ActionParams::TypeText { text } => assert_eq!(text, "for rust"),
        other => panic!("wrong params: {:?}", other),
    }
}

#[test]
fn direct_find_and_click() {
    let steps = try_parse_direct("find and click the red button").unwrap();
    assert_eq!(steps.len(), 1);
    assert_eq!(steps[0].action_type, ActionType::FindAndClick);
}

#[test]
fn generate_plan_is_offline_on_a_template() {
    match generate_plan("open safari") {
        PlanStart::Ready(p) => {
            assert_eq!(p.steps.len(), 1);
            assert_eq!(p.original_command, "open safari");
            assert!(!p.requires_confirmation);
        }
        PlanStart::NeedModel => panic!("fast path expected"),
    }
}

#[test]
fn generate_plan_defers_unmatched_commands() {
    match generate_plan("tidy up the photos from last week") {
        PlanStart::NeedModel => {}
        PlanStart::Ready(_) => panic!("no template should match"),
    }
}

#[test]
fn prompt_ends_with_the_command() {
    let p = build_prompt("open notes");
    assert!(p.ends_with("Command: open notes\nResponse: "));
}

#[test]
fn json_extraction_balances_brackets() {
    let text = "Sure: {\"steps\":[{\"a\":[1,2]}]} trailing";
    assert_eq!(extract_json(text).as_deref(), Some("{\"steps\":[{\"a\":[1,2]}]}"));
    assert_eq!(extract_json("no json here"), None);
    assert_eq!(extract_json("{\"steps\":[ never closed"), None);
}

#[test]
fn plan_from_response_reads_steps() {
    let resp = "{\"steps\":[{\"type\":\"open_app\",\"description\":\"Open Safari\",\"params\":{\"app_name\":\"Safari\"}},{\"type\":\"wait\",\"description\":\"Wait\",\"params\":{\"ms\":1000}}]}";
    let plan = plan_from_response("open safari", resp).unwrap();
    assert_eq!(plan.steps.len(), 2);
    assert_eq!(plan.steps[0].description, "Open Safari");
    match &plan.steps[1].params {
        ActionParams::Wait { ms } => assert_eq!(*ms, 1000),
        other => panic!("wrong params: {:?}", other),
    }
}

#[test]
fn plan_from_response_names_missing_params() {
    let resp = "{\"steps\":[{\"type\":\"open_app\",\"description\":\"Open\",\"params\":{}}]}";
    assert_eq!(plan_from_response("c", resp).err().unwrap(), "Missing app_name");
    let resp2 = "{\"steps\":[{\"type\":\"dance\",\"description\":\"d\",\"params\":{}}]}";
    assert_eq!(plan_from_response("c", resp2).err().unwrap(), "Unknown action type: dance");
}

#[test]
fn plan_from_response_rejects_missing_json() {
    let e = plan_from_response("c", "nope").err().unwrap();
    assert_eq!(e, "No valid JSON found in response: nope");
}

#[test]
fn debug_info_renders_each_kind() {
    assert_eq!(
        get_debug_info(&ActionParams::OpenApp { app_name: String::from("Safari") }),
        "open -a Safari"
    );
    assert_eq!(
        get_debug_info(&ActionParams::PressKey {
            key: String::from("l"),
            modifiers: Some(vec![String::from("cmd"), String::from("shift")])
        }),
        "key: cmd+shift+l"
    );
    assert_eq!(
        get_debug_info(&ActionParams::PressKey { key: String::from("return"), modifiers: None }),
        "key: return"
    );
    assert_eq!(
        get_debug_info(&ActionParams::MouseClick { x: 3, y: -4, button: None }),
        "click: (3, -4) None"
    );
    assert_eq!(get_debug_info(&ActionParams::Wait { ms: 100 }), "wait: 100ms");
}
