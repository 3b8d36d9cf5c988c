//! The coarse plan-then-execute loop: plan parsing, per-step tool
//! resolution, the tool-batch grammar, and the session bookkeeping.
//!
//! Per step, a small set of deterministic step patterns is tried first; only
//! when none matches is the model asked for a JSON array of tool calls.  A
//! step that reads like a search gets a trailing return key appended when
//! the model forgot it.  Tool failures within a batch are recorded but do
//! not abort the batch, and steps advance unconditionally after their batch:
//! the coarse loop trades precision for throughput, by design.

use vstd::prelude::*;

use crate::agent::thinker::mods_match;
use crate::agent::tools::{AgentSession, AgentState, Plan, ScrollDirection, Tool, ToolOutput,
    UIElement};
use crate::json::{
    as_i64, as_str, as_u64, json_rel, m_as_i64, m_as_str, m_as_u64, m_obj_get, obj_get,
    parse_json_text, sp_document, Json, JsonModel,
};
use crate::text::{
    chars_of, contains_seq_spec, contains_str, dec_spec, find_char_from, first_idx, fmt_u64,
    line_split, lower_seq, rfind_char, split_lines, starts_with_spec, string_of,
    sub_vec, to_lower_vec, trim_spec, trim_vec,
};

verus! {

// ---------------------------------------------------------------------------
// Tool shapes: what extracted tools must look like
// ---------------------------------------------------------------------------

/// The spec-level shape of one tool call.
pub enum ToolShape {
    Screenshot,
    Click { x: int, y: int },
    DoubleClick { x: int, y: int },
    Type { text: Seq<char> },
    Key { key: Seq<char>, modifiers: Option<Seq<Seq<char>>> },
    Wait { ms: int },
    OpenApp { name: Seq<char> },
    Scroll { direction: ScrollDirection, amount: int },
    StepDone,
    Done { summary: Seq<char> },
    Fail { reason: Seq<char> },
}

pub open spec fn tool_matches(t: Tool, sh: ToolShape) -> bool {
    match sh {
        ToolShape::Screenshot => t == Tool::Screenshot,
        ToolShape::Click { x, y } => t matches Tool::Click { x: xx, y: yy } && xx as int == x
            && yy as int == y,
        ToolShape::DoubleClick { x, y } => t matches Tool::DoubleClick { x: xx, y: yy }
            && xx as int == x && yy as int == y,
        ToolShape::Type { text } => t matches Tool::Type { text: tt } && tt@ == text,
        ToolShape::Key { key, modifiers } => t matches Tool::Key { key: kk, modifiers: mm } && kk@
            == key && mods_match(mm, modifiers),
        ToolShape::Wait { ms } => t matches Tool::Wait { ms: m } && m as int == ms,
        ToolShape::OpenApp { name } => t matches Tool::OpenApp { name: nn } && nn@ == name,
        ToolShape::Scroll { direction, amount } => t matches Tool::Scroll {
            direction: d,
            amount: a,
        } && d == direction && a as int == amount,
        ToolShape::StepDone => t == Tool::StepDone,
        ToolShape::Done { summary } => t matches Tool::Done { summary: ss } && ss@ == summary,
        ToolShape::Fail { reason } => t matches Tool::Fail { reason: rr } && rr@ == reason,
    }
}

pub open spec fn tools_match(ts: Seq<Tool>, shs: Seq<ToolShape>) -> bool {
    ts.len() == shs.len() && forall|i: int|
        0 <= i < shs.len() ==> tool_matches(ts[i], #[trigger] shs[i])
}

// ---------------------------------------------------------------------------
// Reading tool parameters out of JSON
// ---------------------------------------------------------------------------

pub open spec fn p_get(params: Option<JsonModel>, key: Seq<char>) -> Option<JsonModel> {
    match params {
        Some(p) => m_obj_get(p, key),
        None => None,
    }
}

pub open spec fn p_str(params: Option<JsonModel>, key: Seq<char>) -> Option<Seq<char>> {
    match p_get(params, key) {
        Some(v) => m_as_str(v),
        None => None,
    }
}

pub open spec fn p_u64(params: Option<JsonModel>, key: Seq<char>) -> Option<nat> {
    match p_get(params, key) {
        Some(v) => m_as_u64(v),
        None => None,
    }
}

pub open spec fn p_i64(params: Option<JsonModel>, key: Seq<char>) -> Option<int> {
    match p_get(params, key) {
        Some(v) => m_as_i64(v),
        None => None,
    }
}

/// The string elements of an array, in order, everything else filtered out.
pub open spec fn strs_of(ms: Seq<JsonModel>) -> Seq<Seq<char>>
    decreases ms.len(),
{
    if ms.len() == 0 {
        Seq::empty()
    } else {
        strs_of(ms.drop_last()) + (match ms.last() {
            JsonModel::Str(s) => seq![s],
            _ => Seq::<Seq<char>>::empty(),
        })
    }
}

pub open spec fn p_mods(params: Option<JsonModel>, key: Seq<char>) -> Option<Seq<Seq<char>>> {
    match p_get(params, key) {
        Some(JsonModel::Arr(ms)) => Some(strs_of(ms)),
        _ => None,
    }
}

/// An `i64` squeezed into `i32` range the way a plain cast does it.
pub open spec fn wrap_i32(v: int) -> int {
    (v as i32) as int
}

/// What one member of a tool array contributes: a tool when it is an object
/// with a known `tool` name, nothing otherwise (unknown names are silently
/// dropped).
pub open spec fn member_tool(m: JsonModel) -> Option<ToolShape> {
    match m_obj_get(m, "tool"@) {
        None => None,
        Some(tv) => match m_as_str(tv) {
            None => None,
            Some(name) => {
                let params = m_obj_get(m, "params"@);
                if name == "open_app"@ {
                    Some(
                        ToolShape::OpenApp {
                            name: match p_str(params, "name"@) {
                                Some(s) => s,
                                None => "Safari"@,
                            },
                        },
                    )
                } else if name == "key"@ {
                    Some(
                        ToolShape::Key {
                            key: match p_str(params, "key"@) {
                                Some(s) => s,
                                None => "return"@,
                            },
                            modifiers: p_mods(params, "modifiers"@),
                        },
                    )
                } else if name == "type"@ {
                    Some(
                        ToolShape::Type {
                            text: match p_str(params, "text"@) {
                                Some(s) => s,
                                None => ""@,
                            },
                        },
                    )
                } else if name == "wait"@ {
                    Some(
                        ToolShape::Wait {
                            ms: match p_u64(params, "ms"@) {
                                Some(n) => n as int,
                                None => 500,
                            },
                        },
                    )
                } else if name == "click"@ {
                    Some(
                        ToolShape::Click {
                            x: wrap_i32(
                                match p_i64(params, "x"@) {
                                    Some(n) => n,
                                    None => 0,
                                },
                            ),
                            y: wrap_i32(
                                match p_i64(params, "y"@) {
                                    Some(n) => n,
                                    None => 0,
                                },
                            ),
                        },
                    )
                } else {
                    None
                }
            },
        },
    }
}

pub open spec fn tools_of_members(ms: Seq<JsonModel>) -> Seq<ToolShape>
    decreases ms.len(),
{
    if ms.len() == 0 {
        Seq::empty()
    } else {
        tools_of_members(ms.drop_last()) + (match member_tool(ms.last()) {
            Some(t) => seq![t],
            None => Seq::<ToolShape>::empty(),
        })
    }
}

} // verus!

verus! {

// ---------------------------------------------------------------------------
// Reading tool parameters, exec side
// ---------------------------------------------------------------------------

fn get_str_or(params: Option<&Json>, Ghost(pm): Ghost<Option<JsonModel>>, key: &str, default: &str)
    -> (r: String)
    requires
        match params {
            Some(p) => pm matches Some(mm) && json_rel(*p, mm),
            None => pm is None,
        },
    ensures
        r@ == match p_str(pm, key@) {
            Some(s) => s,
            None => default@,
        },
{
    match params {
        Some(p) => {
            match obj_get(p, key, Ghost(pm->Some_0)) {
                Some(v) => {
                    match as_str(v, Ghost(m_obj_get(pm->Some_0, key@)->Some_0)) {
                        Some(s) => s.clone(),
                        None => String::from_str(default),
                    }
                },
                None => String::from_str(default),
            }
        },
        None => String::from_str(default),
    }
}

fn get_str_req(params: Option<&Json>, Ghost(pm): Ghost<Option<JsonModel>>, key: &str) -> (r:
    Option<String>)
    requires
        match params {
            Some(p) => pm matches Some(mm) && json_rel(*p, mm),
            None => pm is None,
        },
    ensures
        match r {
            Some(s) => p_str(pm, key@) == Some(s@),
            None => p_str(pm, key@) is None,
        },
{
    match params {
        Some(p) => {
            match obj_get(p, key, Ghost(pm->Some_0)) {
                Some(v) => {
                    match as_str(v, Ghost(m_obj_get(pm->Some_0, key@)->Some_0)) {
                        Some(s) => Some(s.clone()),
                        None => None,
                    }
                },
                None => None,
            }
        },
        None => None,
    }
}

fn get_u64_or(params: Option<&Json>, Ghost(pm): Ghost<Option<JsonModel>>, key: &str, default: u64)
    -> (r: u64)
    requires
        match params {
            Some(p) => pm matches Some(mm) && json_rel(*p, mm),
            None => pm is None,
        },
    ensures
        r as nat == match p_u64(pm, key@) {
            Some(n) => n,
            None => default as nat,
        },
{
    match params {
        Some(p) => {
            match obj_get(p, key, Ghost(pm->Some_0)) {
                Some(v) => {
                    match as_u64(v, Ghost(m_obj_get(pm->Some_0, key@)->Some_0)) {
                        Some(n) => n,
                        None => default,
                    }
                },
                None => default,
            }
        },
        None => default,
    }
}

fn get_i64_req(params: Option<&Json>, Ghost(pm): Ghost<Option<JsonModel>>, key: &str) -> (r:
    Option<i64>)
    requires
        match params {
            Some(p) => pm matches Some(mm) && json_rel(*p, mm),
            None => pm is None,
        },
    ensures
        match r {
            Some(n) => p_i64(pm, key@) == Some(n as int),
            None => p_i64(pm, key@) is None,
        },
{
    match params {
        Some(p) => {
            match obj_get(p, key, Ghost(pm->Some_0)) {
                Some(v) => as_i64(v, Ghost(m_obj_get(pm->Some_0, key@)->Some_0)),
                None => None,
            }
        },
        None => None,
    }
}

pub(crate) fn get_mods(params: Option<&Json>, Ghost(pm): Ghost<Option<JsonModel>>) -> (r: Option<Vec<String>>)
    requires
        match params {
            Some(p) => pm matches Some(mm) && json_rel(*p, mm),
            None => pm is None,
        },
    ensures
        mods_match(r, p_mods(pm, "modifiers"@)),
{
    match params {
        Some(p) => {
            match obj_get(p, "modifiers", Ghost(pm->Some_0)) {
                Some(v) => {
                    let ghost vm = m_obj_get(pm->Some_0, "modifiers"@)->Some_0;
                    match v {
                        Json::Arr(elems) => {
                            let ghost ms = vm->Arr_0;
                            let mut out: Vec<String> = Vec::new();
                            let mut i: usize = 0;
                            while i < elems.len()
                                invariant
                                    i <= elems@.len(),
                                    elems@.len() == ms.len(),
                                    forall|q: int|
                                        0 <= q < ms.len() ==> json_rel(
                                            elems@[q],
                                            #[trigger] ms[q],
                                        ),
                                    out@.len() == strs_of(ms.subrange(0, i as int)).len(),
                                    forall|q: int|
                                        0 <= q < out@.len() ==> out@[q]@ == #[trigger] strs_of(
                                            ms.subrange(0, i as int),
                                        )[q],
                                decreases elems.len() - i,
                            {
                                let ghost pre = ms.subrange(0, i as int);
                                let ghost pre2 = ms.subrange(0, i + 1);
                                proof {
                                    assert(pre2.drop_last() =~= pre);
                                    assert(pre2.last() == ms[i as int]);
                                }
                                match &elems[i] {
                                    Json::Str(s) => {
                                        out.push(s.clone());
                                    },
                                    _ => {},
                                }
                                i += 1;
                            }
                            proof {
                                assert(ms.subrange(0, ms.len() as int) =~= ms);
                            }
                            Some(out)
                        },
                        _ => None,
                    }
                },
                None => None,
            }
        },
        None => None,
    }
}

/// One member of a tool array, read into a tool if its name is known.
fn extract_member_tool(j: &Json, Ghost(m): Ghost<JsonModel>) -> (r: Option<Tool>)
    requires
        json_rel(*j, m),
    ensures
        match r {
            Some(t) => member_tool(m) matches Some(sh) && tool_matches(t, sh),
            None => member_tool(m) is None,
        },
{
    let tv = match obj_get(j, "tool", Ghost(m)) {
        Some(tv) => tv,
        None => {
            return None;
        },
    };
    let name = match as_str(tv, Ghost(m_obj_get(m, "tool"@)->Some_0)) {
        Some(s) => s,
        None => {
            return None;
        },
    };
    let params = obj_get(j, "params", Ghost(m));
    let ghost pm = m_obj_get(m, "params"@);
    let nv = crate::text::chars_of(name.as_str());
    if crate::text::eq_str(&nv, "open_app") {
        let app = get_str_or(params, Ghost(pm), "name", "Safari");
        Some(Tool::OpenApp { name: app })
    } else if crate::text::eq_str(&nv, "key") {
        let key = get_str_or(params, Ghost(pm), "key", "return");
        let modifiers = get_mods(params, Ghost(pm));
        Some(Tool::Key { key, modifiers })
    } else if crate::text::eq_str(&nv, "type") {
        let text = get_str_or(params, Ghost(pm), "text", "");
        Some(Tool::Type { text })
    } else if crate::text::eq_str(&nv, "wait") {
        let ms = get_u64_or(params, Ghost(pm), "ms", 500);
        Some(Tool::Wait { ms })
    } else if crate::text::eq_str(&nv, "click") {
        let x64 = match get_i64_req(params, Ghost(pm), "x") {
            Some(n) => n,
            None => 0,
        };
        let y64 = match get_i64_req(params, Ghost(pm), "y") {
            Some(n) => n,
            None => 0,
        };
        let x = #[verifier::truncate] (x64 as i32);
        let y = #[verifier::truncate] (y64 as i32);
        proof {
            assert(x as int == wrap_i32(x64 as int));
            assert(y as int == wrap_i32(y64 as int));
        }
        Some(Tool::Click { x, y })
    } else {
        None
    }
}

// ---------------------------------------------------------------------------
// The tool-array grammar
// ---------------------------------------------------------------------------

/// What the tool-array grammar makes of a raw response.
pub open spec fn tools_array_outcome(resp: Seq<char>) -> Result<Seq<ToolShape>, Seq<char>> {
    let t = trim_spec(resp);
    let i = first_idx(t, '[');
    if i < 0 {
        Err("No JSON array found"@)
    } else {
        let j = crate::text::last_idx(t, ']');
        if j < i {
            Err("No closing bracket found"@)
        } else {
            match sp_document(t.subrange(i, j + 1)) {
                Ok(JsonModel::Arr(ms)) => {
                    let shs = tools_of_members(ms);
                    if shs.len() == 0 {
                        Err("No valid tools found in array"@)
                    } else {
                        Ok(shs)
                    }
                },
                _ => Err("Failed to parse JSON array"@),
            }
        }
    }
}

/// Reads a batch of tools out of a model response: the text between the
/// first `[` and the last `]` as a JSON array of tool calls, unknown names
/// silently dropped.
pub fn parse_tools_array(response: &str) -> (r: Result<Vec<Tool>, String>)
    ensures
        ({
            match r {
                Ok(ts) => tools_array_outcome(response@) matches Ok(shs) && tools_match(
                    ts@,
                    shs,
                ),
                Err(e) => tools_array_outcome(response@) matches Err(em) && e@ == em,
            }
        }),
{
    let t = trim_vec(&chars_of(response));
    let i = match find_char_from(&t, '[', 0) {
        Some(i) => {
            proof {
                crate::text::lemma_first_idx_at(t@, '[', i as int);
            }
            i
        },
        None => {
            proof {
                crate::text::lemma_first_idx_none(t@, '[');
            }
            return Err(String::from_str("No JSON array found"));
        },
    };
    let j = match rfind_char(&t, ']') {
        Some(j) => {
            proof {
                crate::text::lemma_last_idx_at(t@, ']', j as int);
            }
            j
        },
        None => {
            proof {
                crate::text::lemma_last_idx_none(t@, ']');
            }
            return Err(String::from_str("No closing bracket found"));
        },
    };
    if j < i {
        return Err(String::from_str("No closing bracket found"));
    }
    let slice = sub_vec(&t, i, j + 1);
    match parse_json_text(&slice) {
        Err(_) => Err(String::from_str("Failed to parse JSON array")),
        Ok(doc) => {
            match doc {
                Json::Arr(elems) => {
                    let ghost ms = sp_document(slice@)->Ok_0->Arr_0;
                    let mut out: Vec<Tool> = Vec::new();
                    let mut k: usize = 0;
                    while k < elems.len()
                        invariant
                            k <= elems@.len(),
                            elems@.len() == ms.len(),
                            forall|q: int|
                                0 <= q < ms.len() ==> json_rel(elems@[q], #[trigger] ms[q]),
                            tools_match(out@, tools_of_members(ms.subrange(0, k as int))),
                        decreases elems.len() - k,
                    {
                        let ghost pre = ms.subrange(0, k as int);
                        let ghost pre2 = ms.subrange(0, k + 1);
                        proof {
                            assert(pre2.drop_last() =~= pre);
                            assert(pre2.last() == ms[k as int]);
                        }
                        if let Some(tool) = extract_member_tool(&elems[k], Ghost(ms[k as int])) {
                            out.push(tool);
                        }
                        k += 1;
                    }
                    proof {
                        assert(ms.subrange(0, ms.len() as int) =~= ms);
                    }
                    if out.len() == 0 {
                        Err(String::from_str("No valid tools found in array"))
                    } else {
                        Ok(out)
                    }
                },
                _ => Err(String::from_str("Failed to parse JSON array")),
            }
        },
    }
}

} // verus!

verus! {

// ---------------------------------------------------------------------------
// The single-tool grammar
// ---------------------------------------------------------------------------

pub open spec fn scroll_dir_of(s: Seq<char>) -> ScrollDirection {
    if s == "up"@ {
        ScrollDirection::Up
    } else if s == "down"@ {
        ScrollDirection::Down
    } else if s == "left"@ {
        ScrollDirection::Left
    } else if s == "right"@ {
        ScrollDirection::Right
    } else {
        ScrollDirection::Down
    }
}

/// What a known tool name with its parameters resolves to, or the error
/// naming the missing parameter.
pub open spec fn single_tool(name: Seq<char>, params: Option<JsonModel>) -> Result<
    ToolShape,
    Seq<char>,
> {
    if name == "screenshot"@ {
        Ok(ToolShape::Screenshot)
    } else if name == "click"@ {
        match p_i64(params, "x"@) {
            None => Err("click requires x coordinate"@),
            Some(x) => match p_i64(params, "y"@) {
                None => Err("click requires y coordinate"@),
                Some(y) => Ok(ToolShape::Click { x: wrap_i32(x), y: wrap_i32(y) }),
            },
        }
    } else if name == "double_click"@ {
        match p_i64(params, "x"@) {
            None => Err("double_click requires x coordinate"@),
            Some(x) => match p_i64(params, "y"@) {
                None => Err("double_click requires y coordinate"@),
                Some(y) => Ok(ToolShape::DoubleClick { x: wrap_i32(x), y: wrap_i32(y) }),
            },
        }
    } else if name == "type"@ {
        match p_str(params, "text"@) {
            None => Err("type requires text"@),
            Some(t) => Ok(ToolShape::Type { text: t }),
        }
    } else if name == "key"@ {
        match p_str(params, "key"@) {
            None => Err("key requires key name"@),
            Some(k) => Ok(ToolShape::Key { key: k, modifiers: p_mods(params, "modifiers"@) }),
        }
    } else if name == "wait"@ {
        Ok(
            ToolShape::Wait {
                ms: match p_u64(params, "ms"@) {
                    Some(n) => n as int,
                    None => 500,
                },
            },
        )
    } else if name == "open_app"@ {
        match p_str(params, "name"@) {
            None => Err("open_app requires name"@),
            Some(n) => Ok(ToolShape::OpenApp { name: n }),
        }
    } else if name == "scroll"@ {
        Ok(
            ToolShape::Scroll {
                direction: match p_str(params, "direction"@) {
                    Some(d) => scroll_dir_of(d),
                    None => ScrollDirection::Down,
                },
                amount: wrap_i32(
                    match p_i64(params, "amount"@) {
                        Some(a) => a,
                        None => 3,
                    },
                ),
            },
        )
    } else if name == "step_done"@ {
        Ok(ToolShape::StepDone)
    } else if name == "done"@ {
        Ok(
            ToolShape::Done {
                summary: match p_str(params, "summary"@) {
                    Some(s) => s,
                    None => "Task completed"@,
                },
            },
        )
    } else if name == "fail"@ {
        Ok(
            ToolShape::Fail {
                reason: match p_str(params, "reason"@) {
                    Some(s) => s,
                    None => "Unknown error"@,
                },
            },
        )
    } else {
        Err("Unknown tool: "@ + name)
    }
}

/// What the single-tool grammar makes of a raw response: the text between
/// the first `{` and the last `}` (or the whole trimmed response) as a JSON
/// object with a `tool` discriminator.
pub open spec fn tool_response_outcome(resp: Seq<char>) -> Result<ToolShape, Seq<char>> {
    let t = trim_spec(resp);
    let i = first_idx(t, '{');
    let j = crate::text::last_idx(t, '}');
    let slice = if 0 <= i && i <= j {
        t.subrange(i, j + 1)
    } else {
        t
    };
    match sp_document(slice) {
        Ok(m) => match m_obj_get(m, "tool"@) {
            Some(tv) => match m_as_str(tv) {
                Some(name) => single_tool(name, m_obj_get(m, "params"@)),
                None => Err("Failed to parse tool from response: "@ + t),
            },
            None => Err("Failed to parse tool from response: "@ + t),
        },
        Err(_) => Err("Failed to parse tool from response: "@ + t),
    }
}

/// Reads one tool call out of a model response.
#[verifier::rlimit(100)]
pub fn parse_tool_response(response: &str) -> (r: Result<Tool, String>)
    ensures
        ({
            match r {
                Ok(t) => tool_response_outcome(response@) matches Ok(sh) && tool_matches(t, sh),
                Err(e) => tool_response_outcome(response@) matches Err(em) && e@ == em,
            }
        }),
{
    let t = trim_vec(&chars_of(response));
    let i_opt = find_char_from(&t, '{', 0);
    proof {
        match i_opt {
            Some(i) => crate::text::lemma_first_idx_at(t@, '{', i as int),
            None => crate::text::lemma_first_idx_none(t@, '{'),
        }
    }
    let j_opt = rfind_char(&t, '}');
    proof {
        match j_opt {
            Some(j) => crate::text::lemma_last_idx_at(t@, '}', j as int),
            None => crate::text::lemma_last_idx_none(t@, '}'),
        }
    }
    let slice: Vec<char> = match (i_opt, j_opt) {
        (Some(i), Some(j)) if i <= j => sub_vec(&t, i, j + 1),
        _ => sub_vec(&t, 0, t.len()),
    };
    proof {
        assert(t@.subrange(0, t@.len() as int) =~= t@);
    }
    let parsed = parse_json_text(&slice);
    let m_doc = match parsed {
        Ok(doc) => doc,
        Err(_) => {
            let msg = String::from_str("Failed to parse tool from response: ").concat(
                string_of(&t).as_str(),
            );
            return Err(msg);
        },
    };
    let ghost dm = sp_document(slice@)->Ok_0;
    let tv = match obj_get(&m_doc, "tool", Ghost(dm)) {
        Some(tv) => tv,
        None => {
            let msg = String::from_str("Failed to parse tool from response: ").concat(
                string_of(&t).as_str(),
            );
            return Err(msg);
        },
    };
    let name = match as_str(tv, Ghost(m_obj_get(dm, "tool"@)->Some_0)) {
        Some(s) => s,
        None => {
            let msg = String::from_str("Failed to parse tool from response: ").concat(
                string_of(&t).as_str(),
            );
            return Err(msg);
        },
    };
    let params = obj_get(&m_doc, "params", Ghost(dm));
    let ghost pm = m_obj_get(dm, "params"@);
    let nv = crate::text::chars_of(name.as_str());
    if crate::text::eq_str(&nv, "screenshot") {
        Ok(Tool::Screenshot)
    } else if crate::text::eq_str(&nv, "click") {
        let x64 = match get_i64_req(params, Ghost(pm), "x") {
            Some(n) => n,
            None => {
                return Err(String::from_str("click requires x coordinate"));
            },
        };
        let y64 = match get_i64_req(params, Ghost(pm), "y") {
            Some(n) => n,
            None => {
                return Err(String::from_str("click requires y coordinate"));
            },
        };
        Ok(Tool::Click { x: #[verifier::truncate] (x64 as i32), y: #[verifier::truncate] (y64 as i32) })
    } else if crate::text::eq_str(&nv, "double_click") {
        let x64 = match get_i64_req(params, Ghost(pm), "x") {
            Some(n) => n,
            None => {
                return Err(String::from_str("double_click requires x coordinate"));
            },
        };
        let y64 = match get_i64_req(params, Ghost(pm), "y") {
            Some(n) => n,
            None => {
                return Err(String::from_str("double_click requires y coordinate"));
            },
        };
        Ok(Tool::DoubleClick { x: #[verifier::truncate] (x64 as i32), y: #[verifier::truncate] (y64 as i32) })
    } else if crate::text::eq_str(&nv, "type") {
        match get_str_req(params, Ghost(pm), "text") {
            Some(text) => Ok(Tool::Type { text }),
            None => Err(String::from_str("type requires text")),
        }
    } else if crate::text::eq_str(&nv, "key") {
        match get_str_req(params, Ghost(pm), "key") {
            Some(key) => {
                let modifiers = get_mods(params, Ghost(pm));
                Ok(Tool::Key { key, modifiers })
            },
            None => Err(String::from_str("key requires key name")),
        }
    } else if crate::text::eq_str(&nv, "wait") {
        let ms = get_u64_or(params, Ghost(pm), "ms", 500);
        Ok(Tool::Wait { ms })
    } else if crate::text::eq_str(&nv, "open_app") {
        match get_str_req(params, Ghost(pm), "name") {
            Some(n) => Ok(Tool::OpenApp { name: n }),
            None => Err(String::from_str("open_app requires name")),
        }
    } else if crate::text::eq_str(&nv, "scroll") {
        let direction = match get_str_req(params, Ghost(pm), "direction") {
            Some(d) => {
                let dv = crate::text::chars_of(d.as_str());
                if crate::text::eq_str(&dv, "up") {
                    ScrollDirection::Up
                } else if crate::text::eq_str(&dv, "down") {
                    ScrollDirection::Down
                } else if crate::text::eq_str(&dv, "left") {
                    ScrollDirection::Left
                } else if crate::text::eq_str(&dv, "right") {
                    ScrollDirection::Right
                } else {
                    ScrollDirection::Down
                }
            },
            None => ScrollDirection::Down,
        };
        let a64 = match get_i64_req(params, Ghost(pm), "amount") {
            Some(a) => a,
            None => 3,
        };
        Ok(Tool::Scroll { direction, amount: #[verifier::truncate] (a64 as i32) })
    } else if crate::text::eq_str(&nv, "step_done") {
        Ok(Tool::StepDone)
    } else if crate::text::eq_str(&nv, "done") {
        let summary = get_str_or(params, Ghost(pm), "summary", "Task completed");
        Ok(Tool::Done { summary })
    } else if crate::text::eq_str(&nv, "fail") {
        let reason = get_str_or(params, Ghost(pm), "reason", "Unknown error");
        Ok(Tool::Fail { reason })
    } else {
        let msg = String::from_str("Unknown tool: ").concat(name.as_str());
        Err(msg)
    }
}

} // verus!

verus! {

// ---------------------------------------------------------------------------
// Names and outputs
// ---------------------------------------------------------------------------

pub open spec fn tool_name_spec(t: Tool) -> Seq<char> {
    match t {
        Tool::Screenshot => "screenshot"@,
        Tool::Click { .. } => "click"@,
        Tool::DoubleClick { .. } => "double_click"@,
        Tool::Type { .. } => "type"@,
        Tool::Key { .. } => "key"@,
        Tool::Wait { .. } => "wait"@,
        Tool::OpenApp { .. } => "open_app"@,
        Tool::Scroll { .. } => "scroll"@,
        Tool::StepDone => "step_done"@,
        Tool::Done { .. } => "done"@,
        Tool::Fail { .. } => "fail"@,
    }
}

pub fn tool_name(tool: &Tool) -> (r: String)
    ensures
        r@ == tool_name_spec(*tool),
{
    match tool {
        Tool::Screenshot => String::from_str("screenshot"),
        Tool::Click { .. } => String::from_str("click"),
        Tool::DoubleClick { .. } => String::from_str("double_click"),
        Tool::Type { .. } => String::from_str("type"),
        Tool::Key { .. } => String::from_str("key"),
        Tool::Wait { .. } => String::from_str("wait"),
        Tool::OpenApp { .. } => String::from_str("open_app"),
        Tool::Scroll { .. } => String::from_str("scroll"),
        Tool::StepDone => String::from_str("step_done"),
        Tool::Done { .. } => String::from_str("done"),
        Tool::Fail { .. } => String::from_str("fail"),
    }
}

pub open spec fn element_line(e: UIElement) -> Seq<char> {
    "  - "@ + e.element_type@ + " '"@ + e.label@ + "' at ("@ + crate::text::dec_int_spec(
        e.x as int,
    ) + ", "@ + crate::text::dec_int_spec(e.y as int) + ")\n"@
}

/// The first `n` element lines, in order.
pub open spec fn element_lines(es: Seq<UIElement>, n: int) -> Seq<char>
    decreases n,
{
    if n <= 0 {
        Seq::empty()
    } else {
        element_lines(es, n - 1) + element_line(es[n - 1])
    }
}

/// The text a tool's output contributes to the model-facing history: a
/// screenshot lists at most twenty elements.
pub open spec fn format_output_spec(o: ToolOutput) -> Seq<char> {
    match o {
        ToolOutput::Ack => "OK"@,
        ToolOutput::Screenshot { elements, active_app } => {
            let head = match active_app {
                Some(a) => "Active app: "@ + a@ + "\n"@,
                None => Seq::empty(),
            };
            let shown: int = if elements@.len() > 20 {
                20
            } else {
                elements@.len() as int
            };
            let tail: Seq<char> = if elements@.len() > 20 {
                "  ... and "@ + dec_spec((elements@.len() - 20) as nat) + " more\n"@
            } else {
                Seq::empty()
            };
            head + "UI Elements ("@ + dec_spec(elements@.len()) + "):\n"@ + element_lines(
                elements@,
                shown,
            ) + tail
        },
    }
}

pub fn format_output(output: &ToolOutput) -> (r: String)
    ensures
        r@ == format_output_spec(*output),
{
    match output {
        ToolOutput::Ack => String::from_str("OK"),
        ToolOutput::Screenshot { elements, active_app } => {
            let mut s = String::new();
            match active_app {
                Some(a) => {
                    s = String::from_str("Active app: ").concat(a.as_str()).concat("\n");
                },
                None => {},
            }
            let n = elements.len();
            let ns = fmt_u64(n as u64);
            s = s.concat("UI Elements (").concat(ns.as_str()).concat("):\n");
            let shown = if n > 20 {
                20
            } else {
                n
            };
            let mut i: usize = 0;
            while i < shown
                invariant
                    shown <= elements@.len(),
                    i <= shown,
                    s@ == format_output_head(*output) + element_lines(elements@, i as int),
                    *output matches ToolOutput::Screenshot { elements: e2, .. } && e2@
                        == elements@,
                decreases shown - i,
            {
                let e = &elements[i];
                let xs = crate::text::fmt_i32(e.x);
                let ys = crate::text::fmt_i32(e.y);
                let line = String::from_str("  - ").concat(e.element_type.as_str()).concat(
                    " '",
                ).concat(e.label.as_str()).concat("' at (").concat(xs.as_str()).concat(
                    ", ",
                ).concat(ys.as_str()).concat(")\n");
                s = s.concat(line.as_str());
                i += 1;
            }
            if n > 20 {
                let more = fmt_u64((n - 20) as u64);
                s = s.concat("  ... and ").concat(more.as_str()).concat(" more\n");
            }
            s
        },
    }
}

/// The part of a screenshot's output before the element lines.
pub open spec fn format_output_head(o: ToolOutput) -> Seq<char> {
    match o {
        ToolOutput::Ack => "OK"@,
        ToolOutput::Screenshot { elements, active_app } => {
            let head = match active_app {
                Some(a) => "Active app: "@ + a@ + "\n"@,
                None => Seq::empty(),
            };
            head + "UI Elements ("@ + dec_spec(elements@.len()) + "):\n"@
        },
    }
}

// ---------------------------------------------------------------------------
// Step patterns
// ---------------------------------------------------------------------------

/// The query a search-like task implies: the text after the first
/// `search `, without a leading `for `, cut before ` in `, trimmed.
pub open spec fn search_query_spec(task: Seq<char>) -> Option<Seq<char>> {
    let t = lower_seq(task);
    let i = crate::text::seq_find(t, "search "@);
    if i < 0 {
        None
    } else {
        let after = t.subrange(i + 7, t.len() as int);
        let q1 = if starts_with_spec(after, "for "@) {
            after.subrange(4, after.len() as int)
        } else {
            after
        };
        let j = crate::text::seq_find(q1, " in "@);
        let q2 = if j < 0 {
            q1
        } else {
            q1.subrange(0, j)
        };
        let q = trim_spec(q2);
        if q.len() == 0 {
            None
        } else {
            Some(q)
        }
    }
}

/// Extracts the implied search query from a task.
pub fn extract_search_query(task: &str) -> (r: Option<String>)
    ensures
        match r {
            Some(q) => search_query_spec(task@) == Some(q@),
            None => search_query_spec(task@) is None,
        },
{
    let tv = chars_of(task);
    let t = to_lower_vec(&tv);
    let i = match crate::text::find_first_str(&t, "search ") {
        Some(i) => i,
        None => {
            return None;
        },
    };
    let tlen = t.len();
    proof {
        reveal_strlit("search ");
        assert(i + 7 <= tlen);
    }
    let after = sub_vec(&t, i + 7, t.len());
    let fv = chars_of("for ");
    let q1: Vec<char> = if crate::text::starts_with(&after, &fv) {
        proof {
            reveal_strlit("for ");
        }
        let s = sub_vec(&after, 4, after.len());
        s
    } else {
        after
    };
    let q2: Vec<char> = match crate::text::find_first_str(&q1, " in ") {
        Some(j) => sub_vec(&q1, 0, j),
        None => sub_vec(&q1, 0, q1.len()),
    };
    proof {
        assert(q1@.subrange(0, q1@.len() as int) =~= q1@);
    }
    let q = trim_vec(&q2);
    if q.len() == 0 {
        return None;
    }
    Some(string_of(&q))
}

/// The tools a step description resolves to without asking the model, when
/// it matches one of the fixed step patterns.
pub open spec fn step_pattern_spec(task: Seq<char>, step: Seq<char>) -> Option<Seq<ToolShape>> {
    let sl = lower_seq(step);
    if starts_with_spec(sl, "open "@) {
        let app = crate::text::capitalize_spec(trim_spec(step.subrange(5, step.len() as int)));
        Some(seq![ToolShape::OpenApp { name: app }, ToolShape::Wait { ms: 500 }])
    } else if contains_seq_spec(sl, "url bar"@) || contains_seq_spec(sl, "address bar"@) || (
    contains_seq_spec(sl, "focus"@) && contains_seq_spec(sl, "cmd+l"@)) {
        Some(seq![ToolShape::Key { key: "l"@, modifiers: Some(seq!["cmd"@]) }])
    } else if contains_seq_spec(sl, "type"@) && (contains_seq_spec(sl, "search"@)
        || contains_seq_spec(sl, "enter"@)) {
        let q = match search_query_spec(lower_seq(task)) {
            Some(q) => q,
            None => "search"@,
        };
        Some(
            seq![
                ToolShape::Type { text: q },
                ToolShape::Key { key: "return"@, modifiers: None },
            ],
        )
    } else {
        None
    }
}

/// Resolves a step against the fixed patterns: open an app, focus the URL
/// bar, or type the task's search query and submit it.
pub fn match_step_pattern(task: &str, step_desc: &str) -> (r: Option<Vec<Tool>>)
    ensures
        match r {
            Some(ts) => step_pattern_spec(task@, step_desc@) matches Some(shs) && tools_match(
                ts@,
                shs,
            ),
            None => step_pattern_spec(task@, step_desc@) is None,
        },
{
    let sv = chars_of(step_desc);
    let sl = to_lower_vec(&sv);
    let ov = chars_of("open ");
    if crate::text::starts_with(&sl, &ov) {
        proof {
            reveal_strlit("open ");
        }
        let tail = sub_vec(&sv, 5, sv.len());
        let trimmed = trim_vec(&tail);
        let app = crate::text::capitalize_vec(&trimmed);
        let mut out: Vec<Tool> = Vec::new();
        out.push(Tool::OpenApp { name: string_of(&app) });
        out.push(Tool::Wait { ms: 500 });
        return Some(out);
    }
    if contains_str(&sl, "url bar") || contains_str(&sl, "address bar") || (contains_str(
        &sl,
        "focus",
    ) && contains_str(&sl, "cmd+l")) {
        let mut mods: Vec<String> = Vec::new();
        mods.push(String::from_str("cmd"));
        let mut out: Vec<Tool> = Vec::new();
        out.push(Tool::Key { key: String::from_str("l"), modifiers: Some(mods) });
        return Some(out);
    }
    if contains_str(&sl, "type") && (contains_str(&sl, "search") || contains_str(&sl, "enter")) {
        let tl = to_lower_vec(&chars_of(task));
        let tls = string_of(&tl);
        let q = match extract_search_query(tls.as_str()) {
            Some(q) => q,
            None => String::from_str("search"),
        };
        let mut out: Vec<Tool> = Vec::new();
        out.push(Tool::Type { text: q });
        out.push(Tool::Key { key: String::from_str("return"), modifiers: None });
        return Some(out);
    }
    None
}

// ---------------------------------------------------------------------------
// The trailing-return patch
// ---------------------------------------------------------------------------

pub open spec fn has_type_tool(ts: Seq<Tool>) -> bool {
    exists|i: int| 0 <= i < ts.len() && (#[trigger] ts[i]) matches Tool::Type { .. }
}

pub open spec fn has_return_key(ts: Seq<Tool>) -> bool {
    exists|i: int|
        0 <= i < ts.len() && ((#[trigger] ts[i]) matches Tool::Key { key, .. } && key@
            == "return"@)
}

pub open spec fn step_implies_submit(step: Seq<char>) -> bool {
    let sl = lower_seq(step);
    contains_seq_spec(sl, "search"@) || contains_seq_spec(sl, "submit"@) || contains_seq_spec(
        sl,
        "enter"@,
    )
}

/// The correctness patch for a known model omission, scoped to exactly this
/// condition: a step that implies a search or submit, whose batch types text
/// but never presses return, gets a trailing return key appended.
pub fn append_return_if_missing(step_desc: &str, tools: Vec<Tool>) -> (r: Vec<Tool>)
    ensures
        ({
            let need = step_implies_submit(step_desc@) && has_type_tool(tools@) && !has_return_key(
                tools@,
            );
            if need {
                &&& r@.len() == tools@.len() + 1
                &&& r@.subrange(0, tools@.len() as int) == tools@
                &&& (r@.last() matches Tool::Key { key, modifiers } && key@ == "return"@
                    && modifiers is None)
            } else {
                r@ == tools@
            }
        }),
{
    let sv = chars_of(step_desc);
    let sl = to_lower_vec(&sv);
    if !(contains_str(&sl, "search") || contains_str(&sl, "submit") || contains_str(&sl, "enter")) {
        return tools;
    }
    let mut has_type = false;
    let mut has_return = false;
    let mut i: usize = 0;
    while i < tools.len()
        invariant
            i <= tools@.len(),
            has_type == exists|q: int|
                0 <= q < i && (#[trigger] tools@[q]) matches Tool::Type { .. },
            has_return == exists|q: int|
                0 <= q < i && ((#[trigger] tools@[q]) matches Tool::Key { key, .. } && key@
                    == "return"@),
        decreases tools.len() - i,
    {
        match &tools[i] {
            Tool::Type { .. } => {
                has_type = true;
            },
            Tool::Key { key, .. } => {
                let kv = chars_of(key.as_str());
                if crate::text::eq_str(&kv, "return") {
                    has_return = true;
                }
            },
            _ => {},
        }
        i += 1;
    }
    if has_type && !has_return {
        let mut out = tools;
        out.push(Tool::Key { key: String::from_str("return"), modifiers: None });
        out
    } else {
        tools
    }
}

} // verus!

verus! {

// ---------------------------------------------------------------------------
// Plan parsing
// ---------------------------------------------------------------------------

/// What a (trimmed) line contributes as a numbered step: the text after the
/// first dot, when everything before the dot is digits.
pub open spec fn numbered_step(line: Seq<char>) -> Option<Seq<char>> {
    let i = first_idx(line, '.');
    if i < 0 {
        None
    } else {
        let num = trim_spec(line.subrange(0, i));
        if crate::text::all_digits(num) {
            let d = trim_spec(line.subrange(i + 1, line.len() as int));
            if d.len() == 0 {
                None
            } else {
                Some(d)
            }
        } else {
            None
        }
    }
}

pub open spec fn numbered_steps(lines: Seq<Seq<char>>) -> Seq<Seq<char>>
    decreases lines.len(),
{
    if lines.len() == 0 {
        Seq::empty()
    } else {
        numbered_steps(lines.drop_last()) + (match numbered_step(trim_spec(lines.last())) {
            Some(d) => seq![d],
            None => Seq::<Seq<char>>::empty(),
        })
    }
}

/// The looser fallback: every non-empty line that is not a comment is a
/// step.  Plan steps are coarse by design, so this is more forgiving than
/// the goal-list grammar.
pub open spec fn fallback_steps(lines: Seq<Seq<char>>) -> Seq<Seq<char>>
    decreases lines.len(),
{
    if lines.len() == 0 {
        Seq::empty()
    } else {
        fallback_steps(lines.drop_last()) + ({
            let t = trim_spec(lines.last());
            if t.len() > 0 && t[0] != '#' {
                seq![t]
            } else {
                Seq::<Seq<char>>::empty()
            }
        })
    }
}

pub open spec fn plan_steps_spec(resp: Seq<char>) -> Seq<Seq<char>> {
    let ls = line_split(resp);
    let ns = numbered_steps(ls);
    if ns.len() > 0 {
        ns
    } else {
        fallback_steps(ls)
    }
}

fn numbered_step_match(line: &Vec<char>) -> (r: Option<Vec<char>>)
    ensures
        match r {
            Some(d) => numbered_step(line@) == Some(d@),
            None => numbered_step(line@) is None,
        },
{
    let i = match find_char_from(line, '.', 0) {
        Some(i) => {
            proof {
                crate::text::lemma_first_idx_at(line@, '.', i as int);
            }
            i
        },
        None => {
            proof {
                crate::text::lemma_first_idx_none(line@, '.');
            }
            return None;
        },
    };
    let llen = line.len();
    proof {
        assert(i < llen);
    }
    let numraw = sub_vec(line, 0, i);
    let num = trim_vec(&numraw);
    let mut k: usize = 0;
    while k < num.len()
        invariant
            first_idx(line@, '.') == i as int,
            i < line@.len(),
            num@ == trim_spec(line@.subrange(0, i as int)),
            k <= num@.len(),
            forall|q: int| 0 <= q < k ==> crate::text::is_digit_char(num@[q]),
        decreases num.len() - k,
    {
        if !crate::text::is_digit(num[k]) {
            return None;
        }
        k += 1;
    }
    let draw = sub_vec(line, i + 1, line.len());
    let d = trim_vec(&draw);
    if d.len() == 0 {
        return None;
    }
    Some(d)
}

/// Reads a plan out of a model response: numbered lines become steps; when
/// no line is numbered, every non-comment line does.  Fails only when
/// nothing at all reads as a step.
pub fn parse_plan(task: &str, response: &str) -> (r: Result<Plan, String>)
    ensures
        ({
            let ss = plan_steps_spec(response@);
            match r {
                Ok(p) => {
                    &&& ss.len() > 0
                    &&& p.task@ == task@
                    &&& p.current_step == 0
                    &&& p.steps@.len() == ss.len()
                    &&& forall|i: int|
                        0 <= i < ss.len() ==> (#[trigger] p.steps@[i]).description@ == ss[i]
                    &&& crate::agent::tools::plan_wf(p)
                },
                Err(e) => ss.len() == 0 && e@ == "Could not parse plan from response"@,
            }
        }),
{
    let rv = chars_of(response);
    let lines = split_lines(&rv);
    let ghost all = line_split(rv@);
    let mut steps: Vec<String> = Vec::new();
    let mut i: usize = 0;
    while i < lines.len()
        invariant
            i <= lines@.len(),
            lines@.len() == all.len(),
            all == line_split(rv@),
            rv@ == response@,
            forall|k: int| 0 <= k < lines@.len() ==> lines@[k]@ == all[k],
            steps@.len() == numbered_steps(all.subrange(0, i as int)).len(),
            forall|k: int|
                0 <= k < steps@.len() ==> steps@[k]@ == #[trigger] numbered_steps(
                    all.subrange(0, i as int),
                )[k],
        decreases lines.len() - i,
    {
        let ghost pre = all.subrange(0, i as int);
        let ghost pre2 = all.subrange(0, i + 1);
        proof {
            assert(pre2.drop_last() =~= pre);
            assert(pre2.last() == all[i as int]);
        }
        let t = trim_vec(&lines[i]);
        if let Some(d) = numbered_step_match(&t) {
            steps.push(string_of(&d));
        }
        i += 1;
    }
    proof {
        assert(all.subrange(0, all.len() as int) =~= all);
    }
    if steps.len() == 0 {
        let mut j: usize = 0;
        while j < lines.len()
            invariant
                j <= lines@.len(),
                lines@.len() == all.len(),
                all == line_split(rv@),
                rv@ == response@,
                forall|k: int| 0 <= k < lines@.len() ==> lines@[k]@ == all[k],
                steps@.len() == fallback_steps(all.subrange(0, j as int)).len(),
                forall|k: int|
                    0 <= k < steps@.len() ==> steps@[k]@ == #[trigger] fallback_steps(
                        all.subrange(0, j as int),
                    )[k],
            decreases lines.len() - j,
        {
            let ghost pre = all.subrange(0, j as int);
            let ghost pre2 = all.subrange(0, j + 1);
            proof {
                assert(pre2.drop_last() =~= pre);
                assert(pre2.last() == all[j as int]);
            }
            let t = trim_vec(&lines[j]);
            if t.len() > 0 && t[0] != '#' {
                steps.push(string_of(&t));
            }
            j += 1;
        }
        proof {
            assert(all.subrange(0, all.len() as int) =~= all);
        }
    }
    if steps.len() == 0 {
        return Err(String::from_str("Could not parse plan from response"));
    }
    Ok(Plan::new(String::from_str(task), steps))
}

// ---------------------------------------------------------------------------
// Session bookkeeping of the coarse loop
// ---------------------------------------------------------------------------

/// Requests cancellation of the coarse loop.
pub fn cancel(flag: &mut crate::agent::orchestrator::CancelFlag)
    ensures
        final(flag).cancelled,
{
    crate::agent::orchestrator::cancel_agent(flag)
}

pub open spec fn runner_same_but_outcome(a: AgentSession, b: AgentSession) -> bool {
    &&& a.id == b.id
    &&& a.task == b.task
    &&& a.plan == b.plan
    &&& a.step_count == b.step_count
}

pub fn set_runner_state(s: &mut AgentSession, st: AgentState)
    ensures
        final(s).state == st,
        final(s).error == old(s).error,
        runner_same_but_outcome(*old(s), *final(s)),
{
    s.state = st;
}

/// Terminal failure of the coarse loop: explicit state and message.
pub fn fail_runner(s: &mut AgentSession, message: &str)
    ensures
        final(s).state == AgentState::Failed,
        final(s).error matches Some(m) && m@ == message@,
        runner_same_but_outcome(*old(s), *final(s)),
{
    s.state = AgentState::Failed;
    s.error = Some(String::from_str(message));
}

pub fn attach_plan(s: &mut AgentSession, plan: Plan)
    ensures
        final(s).plan == Some(plan),
        final(s).state == old(s).state,
        final(s).error == old(s).error,
        final(s).id == old(s).id,
        final(s).task == old(s).task,
        final(s).step_count == old(s).step_count,
{
    s.plan = Some(plan);
}

/// Books one executed tool: the counter moves up by exactly one, whether or
/// not the tool succeeded.
pub fn count_tool_executed(s: &mut AgentSession)
    requires
        old(s).step_count < usize::MAX,
    ensures
        final(s).step_count == old(s).step_count + 1,
        final(s).state == old(s).state,
        final(s).error == old(s).error,
        final(s).id == old(s).id,
        final(s).task == old(s).task,
        final(s).plan == old(s).plan,
{
    s.step_count = s.step_count + 1;
}

} // verus!
