//! The one-shot plan path: a command becomes a full list of action steps,
//! either through the direct command templates or through one model call
//! whose JSON reply is read here.  The model transport itself is a boundary
//! of the surrounding program.

use vstd::prelude::*;

use crate::agent::decomposer::{
    click_caps, click_match, open_caps, open_match, search_in_caps, search_in_match, type_caps,
    type_match,
};
use crate::agent::thinker::mods_match;
use crate::ext::fresh_id;
use crate::json::{
    json_rel, m_as_str, m_obj_get, parse_json_text, sp_document, Json, JsonModel,
};
use crate::text::{
    capitalize_spec, capitalize_vec, chars_of, line_end, lit_at, lower_seq, occurs_at,
    seq_find, skip_line, skip_ws, skip_word, string_of, sub_vec, to_lower_vec, trim_spec, trim_vec,
    word_end, ws_end,
};
use crate::types::{ActionParams, ActionPlan, ActionStep, ActionType};

verus! {

// ---------------------------------------------------------------------------
// Step shapes
// ---------------------------------------------------------------------------

/// The spec-level shape of one pre-planned action step.
pub enum StepShape {
    Open { app: Seq<char> },
    Wait { ms: int },
    KeyPress { key: Seq<char>, mods: Option<Seq<Seq<char>>> },
    TypeText { text: Seq<char> },
    ClickAt { x: int, y: int, button: Option<Seq<char>> },
    MoveTo { x: int, y: int },
    Find { element: Seq<char> },
}

pub open spec fn step_type_of(sh: StepShape) -> ActionType {
    match sh {
        StepShape::Open { .. } => ActionType::OpenApp,
        StepShape::Wait { .. } => ActionType::Wait,
        StepShape::KeyPress { .. } => ActionType::PressKey,
        StepShape::TypeText { .. } => ActionType::TypeText,
        StepShape::ClickAt { .. } => ActionType::MouseClick,
        StepShape::MoveTo { .. } => ActionType::MouseMove,
        StepShape::Find { .. } => ActionType::FindAndClick,
    }
}

pub open spec fn params_match_step(p: ActionParams, sh: StepShape) -> bool {
    match sh {
        StepShape::Open { app } => p matches ActionParams::OpenApp { app_name } && app_name@
            == app,
        StepShape::Wait { ms } => p matches ActionParams::Wait { ms: m } && m as int == ms,
        StepShape::KeyPress { key, mods } => p matches ActionParams::PressKey {
            key: k,
            modifiers,
        } && k@ == key && mods_match(modifiers, mods),
        StepShape::TypeText { text } => p matches ActionParams::TypeText { text: t } && t@
            == text,
        StepShape::ClickAt { x, y, button } => p matches ActionParams::MouseClick {
            x: xx,
            y: yy,
            button: b,
        } && xx as int == x && yy as int == y && (match b {
            Some(bs) => button matches Some(bt) && bs@ == bt,
            None => button is None,
        }),
        StepShape::MoveTo { x, y } => p matches ActionParams::MouseMove { x: xx, y: yy }
            && xx as int == x && yy as int == y,
        StepShape::Find { element } => p matches ActionParams::FindAndClick { element: el }
            && el@ == element,
    }
}

pub open spec fn step_matches(s: ActionStep, sh: StepShape, desc: Seq<char>) -> bool {
    &&& s.action_type == step_type_of(sh)
    &&& params_match_step(s.params, sh)
    &&& s.description@ == desc
}

pub open spec fn steps_match(ss: Seq<ActionStep>, shs: Seq<(StepShape, Seq<char>)>) -> bool {
    ss.len() == shs.len() && forall|i: int|
        0 <= i < shs.len() ==> step_matches(ss[i], (#[trigger] shs[i]).0, shs[i].1)
}

// ---------------------------------------------------------------------------
// The direct templates
// ---------------------------------------------------------------------------

/// The six steps of a pre-planned search workflow.
pub open spec fn search_step_texts(app: Seq<char>, query: Seq<char>) -> Seq<
    (StepShape, Seq<char>),
> {
    let cap = capitalize_spec(app);
    seq![
        (StepShape::Open { app: cap }, "Open "@ + cap),
        (StepShape::Wait { ms: 1000 }, "Wait for app"@),
        (
            StepShape::KeyPress { key: "l"@, mods: Some(seq!["cmd"@]) },
            "Focus URL bar (Cmd+L)"@,
        ),
        (StepShape::Wait { ms: 200 }, "Wait"@),
        (StepShape::TypeText { text: query }, "Type: "@ + query),
        (
            StepShape::KeyPress { key: "return"@, mods: Some(Seq::empty()) },
            "Search"@,
        ),
    ]
}

/// Builds the six search-workflow steps from the raw app word and query.
pub fn build_search_steps(app: &str, query: &str) -> (steps: Vec<ActionStep>)
    ensures
        steps_match(steps@, search_step_texts(app@, query@)),
{
    let cap = crate::text::capitalize(app);
    let cap2 = cap.clone();
    let mut steps: Vec<ActionStep> = Vec::new();
    steps.push(
        ActionStep {
            id: fresh_id(),
            action_type: ActionType::OpenApp,
            description: String::from_str("Open ").concat(cap.as_str()),
            params: ActionParams::OpenApp { app_name: cap2 },
        },
    );
    steps.push(
        ActionStep {
            id: fresh_id(),
            action_type: ActionType::Wait,
            description: String::from_str("Wait for app"),
            params: ActionParams::Wait { ms: 1000 },
        },
    );
    let mut mods: Vec<String> = Vec::new();
    mods.push(String::from_str("cmd"));
    steps.push(
        ActionStep {
            id: fresh_id(),
            action_type: ActionType::PressKey,
            description: String::from_str("Focus URL bar (Cmd+L)"),
            params: ActionParams::PressKey { key: String::from_str("l"), modifiers: Some(mods) },
        },
    );
    steps.push(
        ActionStep {
            id: fresh_id(),
            action_type: ActionType::Wait,
            description: String::from_str("Wait"),
            params: ActionParams::Wait { ms: 200 },
        },
    );
    steps.push(
        ActionStep {
            id: fresh_id(),
            action_type: ActionType::TypeText,
            description: String::from_str("Type: ").concat(query),
            params: ActionParams::TypeText { text: String::from_str(query) },
        },
    );
    let empty_mods: Vec<String> = Vec::new();
    steps.push(
        ActionStep {
            id: fresh_id(),
            action_type: ActionType::PressKey,
            description: String::from_str("Search"),
            params: ActionParams::PressKey {
                key: String::from_str("return"),
                modifiers: Some(empty_mods),
            },
        },
    );
    steps
}

/// The open-and-search template of this path: like the decomposer's, but
/// without the optional `for`, so the query keeps it.
pub open spec fn plain_open_search_at(s: Seq<char>, k: int) -> Option<(Seq<char>, Seq<char>)>
    recommends
        0 <= k <= s.len(),
{
    if !occurs_at(s, "open"@, k) {
        None
    } else {
        let b = ws_end(s, k + 4);
        if b == k + 4 {
            None
        } else {
            let c = word_end(s, b);
            if c == b {
                None
            } else {
                let d = ws_end(s, c);
                if d == c {
                    None
                } else if !occurs_at(s, "and"@, d) {
                    None
                } else {
                    let e = ws_end(s, d + 3);
                    if e == d + 3 {
                        None
                    } else if !occurs_at(s, "search"@, e) {
                        None
                    } else {
                        let f = ws_end(s, e + 6);
                        if f == e + 6 {
                            None
                        } else {
                            let q = trim_spec(s.subrange(f, line_end(s, f)));
                            if q.len() == 0 {
                                None
                            } else {
                                Some((s.subrange(b, c), q))
                            }
                        }
                    }
                }
            }
        }
    }
}

pub open spec fn plain_open_search_from(s: Seq<char>, k: int) -> Option<(Seq<char>, Seq<char>)>
    recommends
        0 <= k <= s.len(),
    decreases s.len() - k,
{
    match plain_open_search_at(s, k) {
        Some(r) => Some(r),
        None => if k >= s.len() {
            None
        } else {
            plain_open_search_from(s, k + 1)
        },
    }
}

pub open spec fn plain_open_search_caps(s: Seq<char>) -> Option<(Seq<char>, Seq<char>)> {
    plain_open_search_from(s, 0)
}

fn plain_open_search_match_at(v: &Vec<char>, k: usize) -> (r: Option<(Vec<char>, Vec<char>)>)
    requires
        k <= v.len(),
    ensures
        match r {
            Some(p) => plain_open_search_at(v@, k as int) == Some((p.0@, p.1@)),
            None => plain_open_search_at(v@, k as int) is None,
        },
{
    if !lit_at(v, "open", k) {
        return None;
    }
    proof {
        reveal_strlit("open");
    }
    let b = skip_ws(v, k + 4);
    if b == k + 4 {
        return None;
    }
    let c = skip_word(v, b);
    if c == b {
        return None;
    }
    let d = skip_ws(v, c);
    if d == c {
        return None;
    }
    if !lit_at(v, "and", d) {
        return None;
    }
    proof {
        reveal_strlit("and");
    }
    let e = skip_ws(v, d + 3);
    if e == d + 3 {
        return None;
    }
    if !lit_at(v, "search", e) {
        return None;
    }
    proof {
        reveal_strlit("search");
    }
    let f = skip_ws(v, e + 6);
    if f == e + 6 {
        return None;
    }
    let h = skip_line(v, f);
    let qraw = sub_vec(v, f, h);
    let q = trim_vec(&qraw);
    if q.len() == 0 {
        return None;
    }
    let app = sub_vec(v, b, c);
    Some((app, q))
}

fn plain_open_search_match(v: &Vec<char>) -> (r: Option<(Vec<char>, Vec<char>)>)
    ensures
        match r {
            Some(p) => plain_open_search_caps(v@) == Some((p.0@, p.1@)),
            None => plain_open_search_caps(v@) is None,
        },
{
    let mut k: usize = 0;
    loop
        invariant
            k <= v@.len(),
            plain_open_search_from(v@, 0) == plain_open_search_from(v@, k as int),
        decreases v@.len() - k,
    {
        let m = plain_open_search_match_at(v, k);
        if m.is_some() {
            return m;
        }
        if k == v.len() {
            return None;
        }
        k += 1;
    }
}

/// The find-and-click template: `find and click <element>`.
pub open spec fn fac_at(s: Seq<char>, k: int) -> Option<Seq<char>>
    recommends
        0 <= k <= s.len(),
{
    if !occurs_at(s, "find"@, k) {
        None
    } else {
        let b = ws_end(s, k + 4);
        if b == k + 4 {
            None
        } else if !occurs_at(s, "and"@, b) {
            None
        } else {
            let c = ws_end(s, b + 3);
            if c == b + 3 {
                None
            } else if !occurs_at(s, "click"@, c) {
                None
            } else {
                let d = ws_end(s, c + 5);
                if d == c + 5 {
                    None
                } else {
                    let el = trim_spec(s.subrange(d, line_end(s, d)));
                    if el.len() == 0 {
                        None
                    } else {
                        Some(el)
                    }
                }
            }
        }
    }
}

pub open spec fn fac_from(s: Seq<char>, k: int) -> Option<Seq<char>>
    recommends
        0 <= k <= s.len(),
    decreases s.len() - k,
{
    match fac_at(s, k) {
        Some(r) => Some(r),
        None => if k >= s.len() {
            None
        } else {
            fac_from(s, k + 1)
        },
    }
}

pub open spec fn fac_caps(s: Seq<char>) -> Option<Seq<char>> {
    fac_from(s, 0)
}

fn fac_match_at(v: &Vec<char>, k: usize) -> (r: Option<Vec<char>>)
    requires
        k <= v.len(),
    ensures
        match r {
            Some(p) => fac_at(v@, k as int) == Some(p@),
            None => fac_at(v@, k as int) is None,
        },
{
    if !lit_at(v, "find", k) {
        return None;
    }
    proof {
        reveal_strlit("find");
    }
    let b = skip_ws(v, k + 4);
    if b == k + 4 {
        return None;
    }
    if !lit_at(v, "and", b) {
        return None;
    }
    proof {
        reveal_strlit("and");
    }
    let c = skip_ws(v, b + 3);
    if c == b + 3 {
        return None;
    }
    if !lit_at(v, "click", c) {
        return None;
    }
    proof {
        reveal_strlit("click");
    }
    let d = skip_ws(v, c + 5);
    if d == c + 5 {
        return None;
    }
    let h = skip_line(v, d);
    let raw = sub_vec(v, d, h);
    let el = trim_vec(&raw);
    if el.len() == 0 {
        return None;
    }
    Some(el)
}

fn fac_match(v: &Vec<char>) -> (r: Option<Vec<char>>)
    ensures
        match r {
            Some(p) => fac_caps(v@) == Some(p@),
            None => fac_caps(v@) is None,
        },
{
    let mut k: usize = 0;
    loop
        invariant
            k <= v@.len(),
            fac_from(v@, 0) == fac_from(v@, k as int),
        decreases v@.len() - k,
    {
        let m = fac_match_at(v, k);
        if m.is_some() {
            return m;
        }
        if k == v.len() {
            return None;
        }
        k += 1;
    }
}

/// What the direct templates make of a lower-cased command, in their order:
/// search-in, open-and-search, open, click, find-and-click, type.
pub open spec fn direct_steps_spec(cmd: Seq<char>) -> Option<Seq<(StepShape, Seq<char>)>> {
    match search_in_caps(cmd) {
        Some((q, app)) => Some(search_step_texts(app, q)),
        None => match plain_open_search_caps(cmd) {
            Some((app, q)) => Some(search_step_texts(app, q)),
            None => match open_caps(cmd) {
                Some(app) => {
                    let cap = capitalize_spec(app);
                    Some(seq![(StepShape::Open { app: cap }, "Open "@ + cap)])
                },
                None => match click_caps(cmd) {
                    Some(el) => Some(
                        seq![(StepShape::Find { element: el }, "Find and click: "@ + el)],
                    ),
                    None => match fac_caps(cmd) {
                        Some(el) => Some(
                            seq![
                                (StepShape::Find { element: el }, "Find and click: "@ + el),
                            ],
                        ),
                        None => match type_caps(cmd) {
                            Some(t) => Some(
                                seq![(StepShape::TypeText { text: t }, "Type: "@ + t)],
                            ),
                            None => None,
                        },
                    },
                },
            },
        },
    }
}

/// Tries the direct command templates, with no model involved.
pub fn try_parse_direct(command: &str) -> (r: Option<Vec<ActionStep>>)
    ensures
        match r {
            Some(ss) => direct_steps_spec(lower_seq(command@)) matches Some(shs) && steps_match(
                ss@,
                shs,
            ),
            None => direct_steps_spec(lower_seq(command@)) is None,
        },
{
    let cv = chars_of(command);
    let cmd = to_lower_vec(&cv);
    if let Some((q, app)) = search_in_match(&cmd) {
        let app_s = string_of(&app);
        let q_s = string_of(&q);
        return Some(build_search_steps(app_s.as_str(), q_s.as_str()));
    }
    if let Some((app, q)) = plain_open_search_match(&cmd) {
        let app_s = string_of(&app);
        let q_s = string_of(&q);
        return Some(build_search_steps(app_s.as_str(), q_s.as_str()));
    }
    if let Some(app) = open_match(&cmd) {
        let cap = capitalize_vec(&app);
        let cap_s = string_of(&cap);
        let cap_s2 = cap_s.clone();
        let mut out: Vec<ActionStep> = Vec::new();
        out.push(
            ActionStep {
                id: fresh_id(),
                action_type: ActionType::OpenApp,
                description: String::from_str("Open ").concat(cap_s.as_str()),
                params: ActionParams::OpenApp { app_name: cap_s2 },
            },
        );
        return Some(out);
    }
    if let Some(el) = click_match(&cmd) {
        let el_s = string_of(&el);
        let el_s2 = el_s.clone();
        let mut out: Vec<ActionStep> = Vec::new();
        out.push(
            ActionStep {
                id: fresh_id(),
                action_type: ActionType::FindAndClick,
                description: String::from_str("Find and click: ").concat(el_s.as_str()),
                params: ActionParams::FindAndClick { element: el_s2 },
            },
        );
        return Some(out);
    }
    if let Some(el) = fac_match(&cmd) {
        let el_s = string_of(&el);
        let el_s2 = el_s.clone();
        let mut out: Vec<ActionStep> = Vec::new();
        out.push(
            ActionStep {
                id: fresh_id(),
                action_type: ActionType::FindAndClick,
                description: String::from_str("Find and click: ").concat(el_s.as_str()),
                params: ActionParams::FindAndClick { element: el_s2 },
            },
        );
        return Some(out);
    }
    if let Some(t) = type_match(&cmd) {
        let t_s = string_of(&t);
        let t_s2 = t_s.clone();
        let mut out: Vec<ActionStep> = Vec::new();
        out.push(
            ActionStep {
                id: fresh_id(),
                action_type: ActionType::TypeText,
                description: String::from_str("Type: ").concat(t_s.as_str()),
                params: ActionParams::TypeText { text: t_s2 },
            },
        );
        return Some(out);
    }
    None
}

} // verus!

verus! {

// ---------------------------------------------------------------------------
// The model prompt and its reply
// ---------------------------------------------------------------------------

/// The few-shot prompt asking for a `{"steps":[...]}` reply.
pub fn build_prompt(command: &str) -> (r: String)
    ensures
        r@ == "Convert the command to JSON steps. Available actions: open_app, type_text, press_key, wait.\nFor browser search: open app, wait, press Cmd+L, type query, press return.\n\nCommand: open safari\nResponse: {\"steps\":[{\"type\":\"open_app\",\"description\":\"Open Safari\",\"params\":{\"app_name\":\"Safari\"}}]}\n\nCommand: open safari and search hello\nResponse: {\"steps\":[{\"type\":\"open_app\",\"description\":\"Open Safari\",\"params\":{\"app_name\":\"Safari\"}},{\"type\":\"wait\",\"description\":\"Wait\",\"params\":{\"ms\":1000}},{\"type\":\"press_key\",\"description\":\"Focus URL bar\",\"params\":{\"key\":\"l\",\"modifiers\":[\"cmd\"]}},{\"type\":\"wait\",\"description\":\"Wait\",\"params\":{\"ms\":200}},{\"type\":\"type_text\",\"description\":\"Type query\",\"params\":{\"text\":\"hello\"}},{\"type\":\"press_key\",\"description\":\"Search\",\"params\":{\"key\":\"return\",\"modifiers\":[]}}]}\n\nCommand: "@
            + command@ + "\nResponse: "@,
{
    String::from_str(
        "Convert the command to JSON steps. Available actions: open_app, type_text, press_key, wait.\nFor browser search: open app, wait, press Cmd+L, type query, press return.\n\nCommand: open safari\nResponse: {\"steps\":[{\"type\":\"open_app\",\"description\":\"Open Safari\",\"params\":{\"app_name\":\"Safari\"}}]}\n\nCommand: open safari and search hello\nResponse: {\"steps\":[{\"type\":\"open_app\",\"description\":\"Open Safari\",\"params\":{\"app_name\":\"Safari\"}},{\"type\":\"wait\",\"description\":\"Wait\",\"params\":{\"ms\":1000}},{\"type\":\"press_key\",\"description\":\"Focus URL bar\",\"params\":{\"key\":\"l\",\"modifiers\":[\"cmd\"]}},{\"type\":\"wait\",\"description\":\"Wait\",\"params\":{\"ms\":200}},{\"type\":\"type_text\",\"description\":\"Type query\",\"params\":{\"text\":\"hello\"}},{\"type\":\"press_key\",\"description\":\"Search\",\"params\":{\"key\":\"return\",\"modifiers\":[]}}]}\n\nCommand: ",
    ).concat(command).concat("\nResponse: ")
}

/// The first position at or after `i` where the nesting depth sinks to
/// zero, or -1.  Opening brackets and braces deepen, closing ones rise.
pub open spec fn depth_scan(s: Seq<char>, i: int, depth: int) -> int
    recommends
        0 <= i <= s.len(),
        depth >= 1,
    decreases s.len() - i,
{
    if i < 0 || i >= s.len() {
        -1
    } else if s[i] == '[' || s[i] == '{' {
        depth_scan(s, i + 1, depth + 1)
    } else if s[i] == ']' || s[i] == '}' {
        if depth == 1 {
            i
        } else {
            depth_scan(s, i + 1, depth - 1)
        }
    } else {
        depth_scan(s, i + 1, depth)
    }
}

/// The `{"steps":[...]}` object embedded in a reply, if one is there: from
/// the literal opener to the bracket that balances it, re-wrapped.  The
/// steps must be non-empty.
pub open spec fn extract_json_spec(text: Seq<char>) -> Option<Seq<char>> {
    let t = trim_spec(text);
    let i = seq_find(t, "{\"steps\":["@);
    if i < 0 {
        None
    } else {
        let after = t.subrange(i + 10, t.len() as int);
        let e = depth_scan(after, 0, 1);
        if e > 0 {
            Some("{\"steps\":["@ + after.subrange(0, e) + "]}"@)
        } else {
            None
        }
    }
}

/// Extracts the first `{"steps":[...]}` object from a reply.
pub fn extract_json(text: &str) -> (r: Option<String>)
    ensures
        match r {
            Some(s) => extract_json_spec(text@) == Some(s@),
            None => extract_json_spec(text@) is None,
        },
{
    let tv = trim_vec(&chars_of(text));
    let i = match crate::text::find_first_str(&tv, "{\"steps\":[") {
        Some(i) => i,
        None => {
            return None;
        },
    };
    let tlen = tv.len();
    proof {
        reveal_strlit("{\"steps\":[");
        assert(i + 10 <= tlen);
    }
    let after = sub_vec(&tv, i + 10, tv.len());
    let mut p: usize = 0;
    let mut depth: usize = 1;
    loop
        invariant
            tv@ == trim_spec(text@),
            seq_find(tv@, "{\"steps\":["@) == i as int,
            i + 10 <= tv@.len(),
            tv@.len() <= usize::MAX,
            after@ == tv@.subrange(i + 10, tv@.len() as int),
            p <= after@.len(),
            1 <= depth <= p + 1,
            depth_scan(after@, 0, 1) == depth_scan(after@, p as int, depth as int),
        decreases after@.len() - p,
    {
        if p >= after.len() {
            return None;
        }
        let c = after[p];
        if c == '[' || c == '{' {
            depth += 1;
        } else if c == ']' || c == '}' {
            if depth == 1 {
                if p == 0 {
                    return None;
                }
                let content = sub_vec(&after, 0, p);
                let s = String::from_str("{\"steps\":[").concat(string_of(&content).as_str()).concat(
                    "]}",
                );
                return Some(s);
            }
            depth -= 1;
        }
        p += 1;
    }
}

// ---------------------------------------------------------------------------
// Reading steps out of the reply
// ---------------------------------------------------------------------------

/// What one step object resolves to, given its action type, description and
/// parameters: the typed step, or the error naming what is missing.
pub open spec fn member_step(ty: Seq<char>, desc: Seq<char>, params: JsonModel) -> Result<
    (StepShape, Seq<char>),
    Seq<char>,
> {
    if ty == "open_app"@ {
        match m_as_str_of(m_obj_get(params, "app_name"@)) {
            Some(a) => Ok((StepShape::Open { app: a }, desc)),
            None => Err("Missing app_name"@),
        }
    } else if ty == "type_text"@ {
        match m_as_str_of(m_obj_get(params, "text"@)) {
            Some(t) => Ok((StepShape::TypeText { text: t }, desc)),
            None => Err("Missing text"@),
        }
    } else if ty == "press_key"@ {
        match m_as_str_of(m_obj_get(params, "key"@)) {
            Some(k) => Ok(
                (
                    StepShape::KeyPress {
                        key: k,
                        mods: match m_obj_get(params, "modifiers"@) {
                            Some(JsonModel::Arr(ms)) => Some(crate::agent::runner::strs_of(ms)),
                            _ => None,
                        },
                    },
                    desc,
                ),
            ),
            None => Err("Missing key"@),
        }
    } else if ty == "mouse_click"@ {
        match m_as_i64_of(m_obj_get(params, "x"@)) {
            None => Err("Missing x"@),
            Some(x) => match m_as_i64_of(m_obj_get(params, "y"@)) {
                None => Err("Missing y"@),
                Some(y) => Ok(
                    (
                        StepShape::ClickAt {
                            x: crate::agent::runner::wrap_i32(x),
                            y: crate::agent::runner::wrap_i32(y),
                            button: m_as_str_of(m_obj_get(params, "button"@)),
                        },
                        desc,
                    ),
                ),
            },
        }
    } else if ty == "mouse_move"@ {
        match m_as_i64_of(m_obj_get(params, "x"@)) {
            None => Err("Missing x"@),
            Some(x) => match m_as_i64_of(m_obj_get(params, "y"@)) {
                None => Err("Missing y"@),
                Some(y) => Ok(
                    (
                        StepShape::MoveTo {
                            x: crate::agent::runner::wrap_i32(x),
                            y: crate::agent::runner::wrap_i32(y),
                        },
                        desc,
                    ),
                ),
            },
        }
    } else if ty == "wait"@ {
        match m_as_u64_of(m_obj_get(params, "ms"@)) {
            Some(ms) => Ok((StepShape::Wait { ms: ms as int }, desc)),
            None => Err("Missing ms"@),
        }
    } else if ty == "find_and_click"@ {
        match m_as_str_of(m_obj_get(params, "element"@)) {
            Some(el) => Ok((StepShape::Find { element: el }, desc)),
            None => Err("Missing element"@),
        }
    } else {
        Err("Unknown action type: "@ + ty)
    }
}

pub open spec fn m_as_str_of(v: Option<JsonModel>) -> Option<Seq<char>> {
    match v {
        Some(m) => m_as_str(m),
        None => None,
    }
}

pub open spec fn m_as_i64_of(v: Option<JsonModel>) -> Option<int> {
    match v {
        Some(m) => crate::json::m_as_i64(m),
        None => None,
    }
}

pub open spec fn m_as_u64_of(v: Option<JsonModel>) -> Option<nat> {
    match v {
        Some(m) => crate::json::m_as_u64(m),
        None => None,
    }
}

/// What one member of the steps array resolves to; a member without the
/// three fields fails the whole reply, as a deserializer would.
pub open spec fn member_result(m: JsonModel, js: Seq<char>) -> Result<
    (StepShape, Seq<char>),
    Seq<char>,
> {
    match m_as_str_of(m_obj_get(m, "type"@)) {
        None => Err("Failed to parse LLM response. Response was: "@ + js),
        Some(ty) => match m_as_str_of(m_obj_get(m, "description"@)) {
            None => Err("Failed to parse LLM response. Response was: "@ + js),
            Some(desc) => match m_obj_get(m, "params"@) {
                None => Err("Failed to parse LLM response. Response was: "@ + js),
                Some(params) => member_step(ty, desc, params),
            },
        },
    }
}

pub open spec fn steps_results(ms: Seq<JsonModel>, js: Seq<char>) -> Result<
    Seq<(StepShape, Seq<char>)>,
    Seq<char>,
>
    decreases ms.len(),
{
    if ms.len() == 0 {
        Ok(Seq::empty())
    } else {
        match steps_results(ms.drop_last(), js) {
            Err(e) => Err(e),
            Ok(prev) => match member_result(ms.last(), js) {
                Err(e) => Err(e),
                Ok(p) => Ok(prev + seq![p]),
            },
        }
    }
}

proof fn lemma_steps_results_err(ms: Seq<JsonModel>, js: Seq<char>, k: int)
    requires
        0 <= k <= ms.len(),
        steps_results(ms.subrange(0, k), js) is Err,
    ensures
        steps_results(ms, js) == steps_results(ms.subrange(0, k), js),
    decreases ms.len() - k,
{
    if k == ms.len() {
        assert(ms.subrange(0, k) =~= ms);
    } else {
        let pre2 = ms.subrange(0, k + 1);
        assert(pre2.drop_last() =~= ms.subrange(0, k));
        lemma_steps_results_err(ms, js, k + 1);
    }
}

/// What a raw model reply comes to as a plan: the step shapes, or the error
/// shown to the caller.
pub open spec fn plan_outcome(resp: Seq<char>) -> Result<Seq<(StepShape, Seq<char>)>, Seq<char>> {
    match extract_json_spec(resp) {
        None => Err("No valid JSON found in response: "@ + resp),
        Some(js) => match sp_document(js) {
            Ok(m) => match m_obj_get(m, "steps"@) {
                Some(JsonModel::Arr(ms)) => steps_results(ms, js),
                _ => Err("Failed to parse LLM response. Response was: "@ + js),
            },
            Err(_) => Err("Failed to parse LLM response. Response was: "@ + js),
        },
    }
}

fn exec_member_step(j: &Json, Ghost(m): Ghost<JsonModel>, js: &str) -> (r: Result<
    ActionStep,
    String,
>)
    requires
        json_rel(*j, m),
    ensures
        match r {
            Ok(s) => member_result(m, js@) matches Ok(p) && step_matches(s, p.0, p.1),
            Err(e) => member_result(m, js@) matches Err(em) && e@ == em,
        },
{
    let ty = match crate::json::obj_get(j, "type", Ghost(m)) {
        Some(tv) => {
            match crate::json::as_str(tv, Ghost(m_obj_get(m, "type"@)->Some_0)) {
                Some(s) => s.clone(),
                None => {
                    return Err(
                        String::from_str("Failed to parse LLM response. Response was: ").concat(js),
                    );
                },
            }
        },
        None => {
            return Err(
                String::from_str("Failed to parse LLM response. Response was: ").concat(js),
            );
        },
    };
    let desc = match crate::json::obj_get(j, "description", Ghost(m)) {
        Some(dv) => {
            match crate::json::as_str(dv, Ghost(m_obj_get(m, "description"@)->Some_0)) {
                Some(s) => s.clone(),
                None => {
                    return Err(
                        String::from_str("Failed to parse LLM response. Response was: ").concat(js),
                    );
                },
            }
        },
        None => {
            return Err(
                String::from_str("Failed to parse LLM response. Response was: ").concat(js),
            );
        },
    };
    let params = match crate::json::obj_get(j, "params", Ghost(m)) {
        Some(p) => p,
        None => {
            return Err(
                String::from_str("Failed to parse LLM response. Response was: ").concat(js),
            );
        },
    };
    let ghost pm = m_obj_get(m, "params"@)->Some_0;
    let tv = chars_of(ty.as_str());
    if crate::text::eq_str(&tv, "open_app") {
        match crate::json::obj_get(params, "app_name", Ghost(pm)) {
            Some(av) => {
                match crate::json::as_str(av, Ghost(m_obj_get(pm, "app_name"@)->Some_0)) {
                    Some(a) => {
                        let app = a.clone();
                        Ok(
                            ActionStep {
                                id: fresh_id(),
                                action_type: ActionType::OpenApp,
                                description: desc,
                                params: ActionParams::OpenApp { app_name: app },
                            },
                        )
                    },
                    None => Err(String::from_str("Missing app_name")),
                }
            },
            None => Err(String::from_str("Missing app_name")),
        }
    } else if crate::text::eq_str(&tv, "type_text") {
        match crate::json::obj_get(params, "text", Ghost(pm)) {
            Some(av) => {
                match crate::json::as_str(av, Ghost(m_obj_get(pm, "text"@)->Some_0)) {
                    Some(t) => Ok(
                        ActionStep {
                            id: fresh_id(),
                            action_type: ActionType::TypeText,
                            description: desc,
                            params: ActionParams::TypeText { text: t.clone() },
                        },
                    ),
                    None => Err(String::from_str("Missing text")),
                }
            },
            None => Err(String::from_str("Missing text")),
        }
    } else if crate::text::eq_str(&tv, "press_key") {
        match crate::json::obj_get(params, "key", Ghost(pm)) {
            Some(kv) => {
                match crate::json::as_str(kv, Ghost(m_obj_get(pm, "key"@)->Some_0)) {
                    Some(k) => {
                        let key = k.clone();
                        let modifiers = crate::agent::runner::get_mods(
                            Some(params),
                            Ghost(Some(pm)),
                        );
                        Ok(
                            ActionStep {
                                id: fresh_id(),
                                action_type: ActionType::PressKey,
                                description: desc,
                                params: ActionParams::PressKey { key, modifiers },
                            },
                        )
                    },
                    None => Err(String::from_str("Missing key")),
                }
            },
            None => Err(String::from_str("Missing key")),
        }
    } else if crate::text::eq_str(&tv, "mouse_click") {
        let x64 = match crate::json::obj_get(params, "x", Ghost(pm)) {
            Some(xv) => {
                match crate::json::as_i64(xv, Ghost(m_obj_get(pm, "x"@)->Some_0)) {
                    Some(n) => n,
                    None => {
                        return Err(String::from_str("Missing x"));
                    },
                }
            },
            None => {
                return Err(String::from_str("Missing x"));
            },
        };
        let y64 = match crate::json::obj_get(params, "y", Ghost(pm)) {
            Some(yv) => {
                match crate::json::as_i64(yv, Ghost(m_obj_get(pm, "y"@)->Some_0)) {
                    Some(n) => n,
                    None => {
                        return Err(String::from_str("Missing y"));
                    },
                }
            },
            None => {
                return Err(String::from_str("Missing y"));
            },
        };
        let button: Option<String> = match crate::json::obj_get(params, "button", Ghost(pm)) {
            Some(bv) => {
                match crate::json::as_str(bv, Ghost(m_obj_get(pm, "button"@)->Some_0)) {
                    Some(b) => Some(b.clone()),
                    None => None,
                }
            },
            None => None,
        };
        Ok(
            ActionStep {
                id: fresh_id(),
                action_type: ActionType::MouseClick,
                description: desc,
                params: ActionParams::MouseClick {
                    x: #[verifier::truncate] (x64 as i32),
                    y: #[verifier::truncate] (y64 as i32),
                    button,
                },
            },
        )
    } else if crate::text::eq_str(&tv, "mouse_move") {
        let x64 = match crate::json::obj_get(params, "x", Ghost(pm)) {
            Some(xv) => {
                match crate::json::as_i64(xv, Ghost(m_obj_get(pm, "x"@)->Some_0)) {
                    Some(n) => n,
                    None => {
                        return Err(String::from_str("Missing x"));
                    },
                }
            },
            None => {
                return Err(String::from_str("Missing x"));
            },
        };
        let y64 = match crate::json::obj_get(params, "y", Ghost(pm)) {
            Some(yv) => {
                match crate::json::as_i64(yv, Ghost(m_obj_get(pm, "y"@)->Some_0)) {
                    Some(n) => n,
                    None => {
                        return Err(String::from_str("Missing y"));
                    },
                }
            },
            None => {
                return Err(String::from_str("Missing y"));
            },
        };
        Ok(
            ActionStep {
                id: fresh_id(),
                action_type: ActionType::MouseMove,
                description: desc,
                params: ActionParams::MouseMove {
                    x: #[verifier::truncate] (x64 as i32),
                    y: #[verifier::truncate] (y64 as i32),
                },
            },
        )
    } else if crate::text::eq_str(&tv, "wait") {
        match crate::json::obj_get(params, "ms", Ghost(pm)) {
            Some(mv) => {
                match crate::json::as_u64(mv, Ghost(m_obj_get(pm, "ms"@)->Some_0)) {
                    Some(ms) => Ok(
                        ActionStep {
                            id: fresh_id(),
                            action_type: ActionType::Wait,
                            description: desc,
                            params: ActionParams::Wait { ms },
                        },
                    ),
                    None => Err(String::from_str("Missing ms")),
                }
            },
            None => Err(String::from_str("Missing ms")),
        }
    } else if crate::text::eq_str(&tv, "find_and_click") {
        match crate::json::obj_get(params, "element", Ghost(pm)) {
            Some(ev) => {
                match crate::json::as_str(ev, Ghost(m_obj_get(pm, "element"@)->Some_0)) {
                    Some(el) => Ok(
                        ActionStep {
                            id: fresh_id(),
                            action_type: ActionType::FindAndClick,
                            description: desc,
                            params: ActionParams::FindAndClick { element: el.clone() },
                        },
                    ),
                    None => Err(String::from_str("Missing element")),
                }
            },
            None => Err(String::from_str("Missing element")),
        }
    } else {
        Err(String::from_str("Unknown action type: ").concat(ty.as_str()))
    }
}

/// What starting a one-shot plan comes to before any boundary is touched.
pub enum PlanStart {
    Ready(ActionPlan),
    NeedModel,
}

/// Plans a command as far as the core can alone: exactly when a direct
/// template matches, the plan is ready with no model involved.
pub fn generate_plan(command: &str) -> (r: PlanStart)
    ensures
        ({
            let m = direct_steps_spec(lower_seq(command@));
            match r {
                PlanStart::Ready(p) => {
                    &&& m is Some
                    &&& steps_match(p.steps@, m->Some_0)
                    &&& p.original_command@ == command@
                    &&& p.requires_confirmation == false
                },
                PlanStart::NeedModel => m is None,
            }
        }),
{
    match try_parse_direct(command) {
        Some(steps) => PlanStart::Ready(
            ActionPlan {
                id: fresh_id(),
                original_command: String::from_str(command),
                steps,
                requires_confirmation: false,
            },
        ),
        None => PlanStart::NeedModel,
    }
}

/// Finishes the one-shot plan from the model's reply.
pub fn plan_from_response(command: &str, response: &str) -> (r: Result<ActionPlan, String>)
    ensures
        ({
            match r {
                Ok(p) => {
                    &&& plan_outcome(response@) matches Ok(shs)
                    &&& steps_match(p.steps@, shs)
                    &&& p.original_command@ == command@
                    &&& p.requires_confirmation == false
                },
                Err(e) => plan_outcome(response@) matches Err(em) && e@ == em,
            }
        }),
{
    let js = match extract_json(response) {
        Some(js) => js,
        None => {
            return Err(
                String::from_str("No valid JSON found in response: ").concat(response),
            );
        },
    };
    let jv = chars_of(js.as_str());
    let doc = match parse_json_text(&jv) {
        Ok(doc) => doc,
        Err(_) => {
            return Err(
                String::from_str("Failed to parse LLM response. Response was: ").concat(
                    js.as_str(),
                ),
            );
        },
    };
    let ghost dm = sp_document(jv@)->Ok_0;
    let arr = match crate::json::obj_get(&doc, "steps", Ghost(dm)) {
        Some(av) => av,
        None => {
            return Err(
                String::from_str("Failed to parse LLM response. Response was: ").concat(
                    js.as_str(),
                ),
            );
        },
    };
    let ghost am = m_obj_get(dm, "steps"@)->Some_0;
    match arr {
        Json::Arr(elems) => {
            let ghost ms = am->Arr_0;
            let mut steps: Vec<ActionStep> = Vec::new();
            let mut k: usize = 0;
            while k < elems.len()
                invariant
                    extract_json_spec(response@) == Some(js@),
                    jv@ == js@,
                    sp_document(js@) matches Ok(d) && d == dm,
                    m_obj_get(dm, "steps"@) == Some(am),
                    am matches JsonModel::Arr(a2) && a2 == ms,
                    k <= elems@.len(),
                    elems@.len() == ms.len(),
                    forall|q: int| 0 <= q < ms.len() ==> json_rel(elems@[q], #[trigger] ms[q]),
                    steps_results(ms.subrange(0, k as int), js@) matches Ok(shs) && steps_match(
                        steps@,
                        shs,
                    ),
                decreases elems.len() - k,
            {
                let ghost pre = ms.subrange(0, k as int);
                let ghost pre2 = ms.subrange(0, k + 1);
                proof {
                    assert(pre2.drop_last() =~= pre);
                    assert(pre2.last() == ms[k as int]);
                }
                match exec_member_step(&elems[k], Ghost(ms[k as int]), js.as_str()) {
                    Ok(s) => {
                        steps.push(s);
                    },
                    Err(e) => {
                        proof {
                            lemma_steps_results_err(ms, js@, k + 1);
                        }
                        return Err(e);
                    },
                }
                k += 1;
            }
            proof {
                assert(ms.subrange(0, ms.len() as int) =~= ms);
            }
            Ok(
                ActionPlan {
                    id: fresh_id(),
                    original_command: String::from_str(command),
                    steps,
                    requires_confirmation: false,
                },
            )
        },
        _ => Err(
            String::from_str("Failed to parse LLM response. Response was: ").concat(js.as_str()),
        ),
    }
}

} // verus!
