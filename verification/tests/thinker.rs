use otto_agent::agent::thinker::{
    normalize_app_name, parse_action, parse_action_blind, parse_click_action, parse_key_combo,
    format_recent_actions,
};
use otto_agent::types::{ActionParams, ActionResult, ActionType, Goal};

fn goal() -> Goal {
    Goal::new(String::from("Open Safari"), String::from("Safari is visible"))
}

#[test]
fn test_parse_key_combo() {
    let (key, mods) = parse_key_combo("CMD+L");
    assert_eq!(key, "l");
    assert_eq!(mods, Some(vec!["cmd".to_string()]));

    let (key, mods) = parse_key_combo("return");
    assert_eq!(key, "return");
    assert_eq!(mods, None);

    let (key, mods) = parse_key_combo("CMD+SHIFT+N");
    assert_eq!(key, "n");
    assert_eq!(mods, Some(vec!["cmd".to_string(), "shift".to_string()]));
}

#[test]
fn key_line_parses_to_press_key() {
    let a = parse_action_blind("key CMD+L", &goal()).unwrap();
    assert_eq!(a.action_type, ActionType::PressKey);
    match a.params {
        ActionParams::PressKey { key, modifiers } => {
            assert_eq!(key, "l");
            assert_eq!(modifiers, Some(vec!["cmd".to_string()]));
        }
        other => panic!("wrong params: {:?}", other),
    }
}

#[test]
fn unquoted_type_preserves_case() {
    let a = parse_action_blind("type Hello World", &goal()).unwrap();
    match a.params {
        ActionParams::TypeText { text } => assert_eq!(text, "Hello World"),
        other => panic!("wrong params: {:?}", other),
    }
}

#[test]
fn quoted_type_takes_inner_text() {
    let a = parse_action_blind("type \"hello\"", &goal()).unwrap();
    match a.params {
        ActionParams::TypeText { text } => assert_eq!(text, "hello"),
        other => panic!("wrong params: {:?}", other),
    }
}

#[test]
fn blind_click_with_words_becomes_find_and_click() {
    let a = parse_action_blind("click submit button", &goal()).unwrap();
    assert_eq!(a.action_type, ActionType::FindAndClick);
    match a.params {
        ActionParams::FindAndClick { element } => assert_eq!(element, "submit button"),
        other => panic!("wrong params: {:?}", other),
    }
}

#[test]
fn blind_click_with_digits_becomes_mouse_click() {
    let a = parse_action_blind("click 450 320", &goal()).unwrap();
    assert_eq!(a.action_type, ActionType::MouseClick);
    match a.params {
        ActionParams::MouseClick { x, y, button } => {
            assert_eq!((x, y), (450, 320));
            assert!(button.is_none());
        }
        other => panic!("wrong params: {:?}", other),
    }
}

#[test]
fn open_line_normalizes_app_name() {
    let a = parse_action_blind("open chrome browser", &goal()).unwrap();
    match a.params {
        ActionParams::OpenApp { app_name } => assert_eq!(app_name, "Google Chrome"),
        other => panic!("wrong params: {:?}", other),
    }
}

#[test]
fn wait_line_parses_milliseconds() {
    let a = parse_action_blind("wait 750", &goal()).unwrap();
    match a.params {
        ActionParams::Wait { ms } => assert_eq!(ms, 750),
        other => panic!("wrong params: {:?}", other),
    }
}

#[test]
fn only_first_line_is_read() {
    let a = parse_action_blind("open safari\nclick 1 2", &goal()).unwrap();
    assert_eq!(a.action_type, ActionType::OpenApp);
}

#[test]
fn unparseable_line_names_the_grammar() {
    let e = parse_action_blind("shrug", &goal()).err().unwrap();
    assert_eq!(
        e,
        "Could not parse blind action from response: 'shrug'. Expected: open APP, click ELEMENT, type \"text\", key KEY, or wait MS"
    );
}

#[test]
fn reparsing_same_text_gives_same_content() {
    let a = parse_action_blind("type Hello World", &goal()).unwrap();
    let b = parse_action_blind("type Hello World", &goal()).unwrap();
    assert_eq!(a.action_type, b.action_type);
    assert_eq!(a.params, b.params);
    assert_eq!(a.rationale, b.rationale);
}

#[test]
fn click_resolution_accepts_coordinates() {
    let a = parse_click_action("click 100 200", &goal(), "submit").unwrap();
    match a.params {
        ActionParams::MouseClick { x, y, .. } => assert_eq!((x, y), (100, 200)),
        other => panic!("wrong params: {:?}", other),
    }
}

#[test]
fn click_resolution_reports_not_found() {
    let e = parse_click_action("not_found", &goal(), "submit").err().unwrap();
    assert_eq!(e, "Could not find 'submit' on screen");
}

#[test]
fn legacy_parser_requires_coordinates_for_click() {
    let e = parse_action("click submit button", &goal()).err().unwrap();
    assert!(e.starts_with("Could not parse action from response:"));
}

#[test]
fn normalize_strips_suffixes_and_capitalizes() {
    assert_eq!(normalize_app_name("safari"), "Safari");
    assert_eq!(normalize_app_name("notes app"), "Notes");
    assert_eq!(normalize_app_name("vs code"), "Visual Studio Code");
}

#[test]
fn recent_actions_show_newest_first_capped_at_three() {
    let r = |id: &str, ok: bool| ActionResult {
        action_id: id.to_string(),
        success: ok,
        error_message: if ok { None } else { Some("boom".to_string()) },
        screen_changed: true,
    };
    let h = vec![r("a", true), r("b", false), r("c", true), r("d", true)];
    assert_eq!(format_recent_actions(&h), "OK: d, OK: c, FAIL: b - boom");
    let empty: Vec<ActionResult> = vec![];
    assert_eq!(format_recent_actions(&empty), "None");
}

#[test]
fn combo_parts_are_trimmed() {
    let (key, mods) = parse_key_combo("CMD + L");
    assert_eq!(key, "l");
    assert_eq!(mods, Some(vec!["cmd".to_string()]));
}

#[test]
fn oversized_wait_falls_back() {
    let a = parse_action_blind("wait 99999999999999999999", &goal()).unwrap();
    match a.params {
        ActionParams::Wait { ms } => assert_eq!(ms, 500),
        other => panic!("wrong params: {:?}", other),
    }
}

#[test]
fn oversized_click_coordinate_falls_back_to_zero() {
    let a = parse_action_blind("click 99999999999 5", &goal()).unwrap();
    match a.params {
        ActionParams::MouseClick { x, y, .. } => assert_eq!((x, y), (0, 5)),
        other => panic!("wrong params: {:?}", other),
    }
}

#[test]
fn typed_text_keeps_every_character() {
    let a = parse_action_blind("type caf\u{e9} w\u{f6}rter", &goal()).unwrap();
    match a.params {
        ActionParams::TypeText { text } => assert_eq!(text, "caf\u{e9} w\u{f6}rter"),
        other => panic!("wrong params: {:?}", other),
    }
}
