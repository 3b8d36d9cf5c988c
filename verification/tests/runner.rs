use otto_agent::agent::runner::{
    append_return_if_missing, attach_plan, count_tool_executed, extract_search_query, fail_runner,
    match_step_pattern, parse_plan, parse_tool_response, parse_tools_array, set_runner_state,
    tool_name, format_output,
};
use otto_agent::agent::tools::{
    AgentSession, AgentState, Plan, ScrollDirection, StepStatus, Tool, ToolOutput, UIElement,
};

#[test]
fn tool_array_reads_known_tools() {
    let r = "Sure! [{\"tool\": \"open_app\", \"params\": {\"name\": \"Safari\"}}, {\"tool\": \"wait\", \"params\": {\"ms\": 500}}] done";
    let tools = parse_tools_array(r).unwrap();
    assert_eq!(tools.len(), 2);
    assert_eq!(tools[0], Tool::OpenApp { name: String::from("Safari") });
    assert_eq!(tools[1], Tool::Wait { ms: 500 });
}

#[test]
fn tool_array_drops_unknown_names() {
    let r = "[{\"tool\": \"dance\"}, {\"tool\": \"key\", \"params\": {\"key\": \"l\", \"modifiers\": [\"cmd\"]}}]";
    let tools = parse_tools_array(r).unwrap();
    assert_eq!(tools.len(), 1);
    assert_eq!(
        tools[0],
        Tool::Key { key: String::from("l"), modifiers: Some(vec![String::from("cmd")]) }
    );
}

#[test]
fn tool_array_defaults_missing_params() {
    let tools = parse_tools_array("[{\"tool\": \"open_app\"}, {\"tool\": \"key\"}]").unwrap();
    assert_eq!(tools[0], Tool::OpenApp { name: String::from("Safari") });
    assert_eq!(tools[1], Tool::Key { key: String::from("return"), modifiers: None });
}

#[test]
fn tool_array_errors_name_what_failed() {
    assert_eq!(parse_tools_array("no brackets").err().unwrap(), "No JSON array found");
    assert_eq!(parse_tools_array("[ no end").err().unwrap(), "No closing bracket found");
    assert_eq!(parse_tools_array("[}]").err().unwrap(), "Failed to parse JSON array");
    assert_eq!(
        parse_tools_array("[{\"tool\": \"dance\"}]").err().unwrap(),
        "No valid tools found in array"
    );
}

#[test]
fn single_tool_parses_with_coordinates() {
    let t = parse_tool_response("{\"tool\": \"click\", \"params\": {\"x\": 10, \"y\": 20}}").unwrap();
    assert_eq!(t, Tool::Click { x: 10, y: 20 });
}

#[test]
fn single_tool_requires_coordinates() {
    let e = parse_tool_response("{\"tool\": \"click\", \"params\": {\"y\": 20}}").err().unwrap();
    assert_eq!(e, "click requires x coordinate");
}

#[test]
fn single_tool_control_values() {
    assert_eq!(parse_tool_response("{\"tool\": \"step_done\"}").unwrap(), Tool::StepDone);
    assert_eq!(
        parse_tool_response("{\"tool\": \"done\"}").unwrap(),
        Tool::Done { summary: String::from("Task completed") }
    );
    assert_eq!(
        parse_tool_response("{\"tool\": \"fail\", \"params\": {\"reason\": \"stuck\"}}").unwrap(),
        Tool::Fail { reason: String::from("stuck") }
    );
}

#[test]
fn single_tool_scroll_defaults() {
    let t = parse_tool_response("{\"tool\": \"scroll\", \"params\": {\"direction\": \"up\"}}").unwrap();
    assert_eq!(t, Tool::Scroll { direction: ScrollDirection::Up, amount: 3 });
}

#[test]
fn single_tool_unknown_name_is_an_error() {
    let e = parse_tool_response("{\"tool\": \"dance\"}").err().unwrap();
    assert_eq!(e, "Unknown tool: dance");
}

#[test]
fn single_tool_garbage_embeds_response() {
    let e = parse_tool_response("  garbage  ").err().unwrap();
    assert_eq!(e, "Failed to parse tool from response: garbage");
}

#[test]
fn step_pattern_open() {
    let tools = match_step_pattern("open safari", "Open Safari").unwrap();
    assert_eq!(tools.len(), 2);
    assert_eq!(tools[0], Tool::OpenApp { name: String::from("Safari") });
    assert_eq!(tools[1], Tool::Wait { ms: 500 });
}

#[test]
fn step_pattern_url_bar() {
    let tools = match_step_pattern("open safari and search rust", "Focus URL bar (Cmd+L)").unwrap();
    assert_eq!(
        tools,
        vec![Tool::Key { key: String::from("l"), modifiers: Some(vec![String::from("cmd")]) }]
    );
}

#[test]
fn step_pattern_type_and_search_takes_query_from_task() {
    let tools = match_step_pattern("open safari and search for rust", "Type query and search").unwrap();
    assert_eq!(tools.len(), 2);
    assert_eq!(tools[0], Tool::Type { text: String::from("rust") });
    assert_eq!(tools[1], Tool::Key { key: String::from("return"), modifiers: None });
}

#[test]
fn search_query_extraction() {
    assert_eq!(extract_search_query("open safari and search for rust").as_deref(), Some("rust"));
    assert_eq!(extract_search_query("search cats in safari").as_deref(), Some("cats"));
    assert_eq!(extract_search_query("open notes").as_deref(), None);
}

#[test]
fn search_steps_get_a_trailing_return() {
    let tools = vec![Tool::Type { text: String::from("rust") }];
    let out = append_return_if_missing("Type query and search", tools);
    assert_eq!(out.len(), 2);
    assert_eq!(out[1], Tool::Key { key: String::from("return"), modifiers: None });
}

#[test]
fn trailing_return_is_not_duplicated() {
    let tools = vec![
        Tool::Type { text: String::from("rust") },
        Tool::Key { key: String::from("return"), modifiers: None },
    ];
    let out = append_return_if_missing("Type query and search", tools.clone());
    assert_eq!(out, tools);
}

#[test]
fn trailing_return_only_for_submit_steps() {
    let tools = vec![Tool::Type { text: String::from("rust") }];
    let out = append_return_if_missing("Type a note", tools.clone());
    assert_eq!(out, tools);
}

#[test]
fn plan_parses_numbered_lines() {
    let p = parse_plan("task", "1. Open Safari\n2. Focus URL bar\n3. Type query").unwrap();
    assert_eq!(p.steps.len(), 3);
    assert_eq!(p.steps[0].description, "Open Safari");
    assert_eq!(p.steps[0].status, StepStatus::InProgress);
    assert_eq!(p.steps[1].status, StepStatus::Pending);
    assert_eq!(p.current_step, 0);
}

#[test]
fn plan_falls_back_to_plain_lines() {
    let p = parse_plan("task", "Open Safari\n# a comment\nType query").unwrap();
    assert_eq!(p.steps.len(), 2);
    assert_eq!(p.steps[1].description, "Type query");
}

#[test]
fn empty_plan_is_an_error() {
    let e = parse_plan("task", "\n#only a comment\n").err().unwrap();
    assert_eq!(e, "Could not parse plan from response");
}

#[test]
fn plan_advances_one_step_at_a_time() {
    let mut p = Plan::new(
        String::from("task"),
        vec![String::from("a"), String::from("b")],
    );
    assert_eq!(p.current_step_desc(), Some("a"));
    assert!(p.advance());
    assert_eq!(p.steps[0].status, StepStatus::Done);
    assert_eq!(p.steps[1].status, StepStatus::InProgress);
    assert_eq!(p.current_step_desc(), Some("b"));
    assert!(!p.advance());
    assert!(p.is_complete());
    assert!(!p.advance());
}

#[test]
fn plan_formats_as_checklist() {
    let mut p = Plan::new(
        String::from("task"),
        vec![String::from("a"), String::from("b")],
    );
    p.advance();
    assert_eq!(p.format(), "[x] 1. a\n[>] 2. b");
}

#[test]
fn runner_session_counts_every_tool() {
    let mut s = AgentSession::new(String::from("task"));
    assert_eq!(s.state, AgentState::Idle);
    set_runner_state(&mut s, AgentState::Executing);
    count_tool_executed(&mut s);
    count_tool_executed(&mut s);
    assert_eq!(s.step_count, 2);
    fail_runner(&mut s, "Cancelled by user");
    assert_eq!(s.state, AgentState::Failed);
    assert_eq!(s.error.as_deref(), Some("Cancelled by user"));
}

#[test]
fn runner_session_accepts_a_plan() {
    let mut s = AgentSession::new(String::from("task"));
    let p = Plan::new(String::from("task"), vec![String::from("a")]);
    attach_plan(&mut s, p);
    assert!(s.plan.is_some());
}

#[test]
fn tool_names() {
    assert_eq!(tool_name(&Tool::Screenshot), "screenshot");
    assert_eq!(tool_name(&Tool::StepDone), "step_done");
    assert_eq!(tool_name(&Tool::OpenApp { name: String::from("x") }), "open_app");
}

#[test]
fn output_formatting() {
    assert_eq!(format_output(&ToolOutput::Ack), "OK");
    let o = ToolOutput::Screenshot {
        elements: vec![UIElement {
            label: String::from("Submit"),
            element_type: String::from("button"),
            x: 450,
            y: 320,
        }],
        active_app: Some(String::from("Safari")),
    };
    assert_eq!(
        format_output(&o),
        "Active app: Safari\nUI Elements (1):\n  - button 'Submit' at (450, 320)\n"
    );
}

#[test]
fn repeated_json_keys_take_the_latest_value() {
    let t = parse_tool_response("{\"tool\": \"wait\", \"tool\": \"step_done\"}").unwrap();
    assert_eq!(t, Tool::StepDone);
}

#[test]
fn string_escapes_are_decoded() {
    let t = parse_tool_response(
        "{\"tool\": \"type\", \"params\": {\"text\": \"a\\nb\\\"c\\\\d\"}}",
    )
    .unwrap();
    assert_eq!(t, Tool::Type { text: String::from("a\nb\"c\\d") });
}
