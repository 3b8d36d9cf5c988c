use otto_agent::agent::observer::{
    build_screen_state, hash_bytes, scale_coord, scale_element, Observer,
};
use otto_agent::agent::thinker::parse_action_blind;
use otto_agent::computer::{char_to_keycode, key_to_keycode, special_key_code};
use otto_agent::types::{ActionParams, Goal, ScreenState, UIElement};
use otto_agent::screenshot::{find_otto_window_id, WindowInfo};
use otto_agent::vision::{parse_coordinates, parse_ui_elements};

#[test]
fn coordinates_adjacent_numbers() {
    let el = parse_coordinates("640, 360", "search box").unwrap();
    assert_eq!((el.x, el.y), (640, 360));
    assert_eq!(el.description, "search box");
}

#[test]
fn coordinates_with_labels() {
    let el = parse_coordinates("The point is at x = 120 and then y = 45", "icon").unwrap();
    assert_eq!((el.x, el.y), (120, 45));
}

#[test]
fn coordinates_parenthesised() {
    // tier one refuses a lone number pair only when no adjacent digits exist;
    // a parenthesised pair is also adjacent digits, so build a case where
    // only the third tier can fire: letters between the digits.
    let el = parse_coordinates("(77, 88)", "icon").unwrap();
    assert_eq!((el.x, el.y), (77, 88));
}

#[test]
fn coordinates_failure_names_input() {
    let e = parse_coordinates("  nothing here  ", "icon").err().unwrap();
    assert_eq!(e, "Could not parse coordinates from: 'nothing here'");
}

#[test]
fn ui_elements_bounding_box_lines() {
    let resp = "button | Submit | 400, 300, 500, 340\ntext_field | Search box | 200, 40, 400, 60";
    let els = parse_ui_elements(resp);
    assert_eq!(els.len(), 2);
    assert_eq!(els[0].element_type, "button");
    assert_eq!(els[0].label, "Submit");
    assert_eq!((els[0].x1, els[0].y1, els[0].x2, els[0].y2), (400, 300, 500, 340));
}

#[test]
fn ui_elements_center_fallback() {
    let els = parse_ui_elements("icon | Settings | 760, 20");
    assert_eq!(els.len(), 1);
    assert_eq!((els[0].x1, els[0].y1, els[0].x2, els[0].y2), (735, 5, 785, 35));
}

#[test]
fn ui_elements_skip_garbage_lines() {
    let els = parse_ui_elements("hello world\nbutton | Go | 1, 2, 3, 4\n");
    assert_eq!(els.len(), 1);
    assert_eq!(els[0].label, "Go");
}

#[test]
fn hashes_are_deterministic_and_content_sensitive() {
    let a = hash_bytes(&vec![1, 2, 3]);
    let b = hash_bytes(&vec![1, 2, 3]);
    let c = hash_bytes(&vec![1, 2, 4]);
    assert_eq!(a, b);
    assert_ne!(a, c);
}

#[test]
fn screen_change_detection() {
    let o = Observer::new();
    assert!(o.screen_changed("aa", "bb"));
    assert!(!o.screen_changed("aa", "aa"));
}

#[test]
fn scaling_inverts_the_downscale_ratio() {
    // captured at 2560 wide, sent to the model at 1280: a model x of 320
    // lands at 640 in original screen space.
    assert_eq!(scale_coord(320, 2560, 1280), 640);
    assert_eq!(scale_coord(0, 2560, 1280), 0);
}

#[test]
fn observation_coordinates_round_trip_into_actions() {
    // an element scaled back to original space, assembled into an
    // observation; the click decided from its centre needs no more scaling
    let e = scale_element(
        String::from("Submit"),
        String::from("button"),
        200,
        150,
        240,
        170,
        2560,
        1280,
        1440,
        720,
    );
    assert_eq!((e.x1, e.y1, e.x2, e.y2), (400, 300, 480, 340));
    let obs = build_screen_state(7, vec![e], Some(String::from("Safari")), String::from("h"));
    assert_eq!(obs.description, "Found 1 UI elements");
    let (cx, cy) = obs.ui_elements[0].center();
    assert_eq!((cx, cy), (440, 320));
    let goal = Goal::new(String::from("click submit"), String::from("clicked"));
    let line = format!("click {} {}", cx, cy);
    let a = parse_action_blind(&line, &goal).unwrap();
    match a.params {
        ActionParams::MouseClick { x, y, .. } => assert_eq!((x, y), (cx, cy)),
        other => panic!("wrong params: {:?}", other),
    }
}

#[test]
fn screen_state_formats_elements() {
    let mut s = ScreenState::new(String::from("d"));
    assert_eq!(s.format_ui_elements(), "No UI elements detected");
    s.ui_elements.push(UIElement {
        label: String::from("Submit"),
        element_type: String::from("button"),
        x1: 400,
        y1: 300,
        x2: 500,
        y2: 340,
    });
    assert_eq!(
        s.format_ui_elements(),
        "- button 'Submit' at (400, 300) to (500, 340) [center: 450, 320]"
    );
}

#[test]
fn element_center_and_size() {
    let e = UIElement {
        label: String::new(),
        element_type: String::new(),
        x1: 10,
        y1: 20,
        x2: 31,
        y2: 40,
    };
    assert_eq!(e.center(), (20, 30));
    assert_eq!(e.size(), (21, 20));
}

#[test]
fn keycode_tables() {
    assert_eq!(char_to_keycode('a'), Some(0x00));
    assert_eq!(char_to_keycode('A'), Some(0x00));
    assert_eq!(char_to_keycode('!'), Some(0x12));
    assert_eq!(char_to_keycode('\u{263a}'), None);
    assert_eq!(key_to_keycode("return"), Some(0x24));
    assert_eq!(key_to_keycode("ENTER"), Some(0x24));
    assert_eq!(key_to_keycode("pageup"), Some(0x74));
    assert_eq!(key_to_keycode("nosuchkey"), None);
    assert_eq!(special_key_code("return"), Some(36));
    assert_eq!(special_key_code("Esc"), Some(53));
    assert_eq!(special_key_code("l"), None);
}

#[test]
fn fresh_sessions_get_distinct_ids() {
    let a = Goal::new(String::from("x"), String::from("y"));
    let b = Goal::new(String::from("x"), String::from("y"));
    assert_eq!(a.id.len(), 36);
    assert_ne!(a.id, b.id);
}

#[test]
fn overlay_window_is_found_by_owner_or_title() {
    let w = |id: u32, name: &str, owner: &str| WindowInfo {
        id,
        name: name.to_string(),
        owner: owner.to_string(),
        layer: 0,
    };
    let windows = vec![w(1, "Safari", "Safari"), w(2, "Otto", "WebKit"), w(3, "x", "Otto")];
    assert_eq!(find_otto_window_id(&windows), Some(2));
    assert_eq!(find_otto_window_id(&vec![w(1, "Safari", "Safari")]), None);
}

#[test]
fn center_rounds_toward_zero_for_negative_sums() {
    let e = UIElement {
        label: String::new(),
        element_type: String::new(),
        x1: -5,
        y1: -1,
        x2: -2,
        y2: 2,
    };
    assert_eq!(e.center(), (-3, 0));
}
