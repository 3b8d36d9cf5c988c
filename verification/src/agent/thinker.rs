//! Deciding one action per iteration: the prompts sent to the reasoning
//! boundary, and the single-action grammar its free-text replies are read
//! with.
//!
//! Only the first line of a reply is considered.  The grammar tries, in
//! order: `open <app>`, `click <coordinates or element>`, `type "<text>"`,
//! `type <text>` (unquoted, case preserved from the raw line), `key <combo>`
//! and `wait <ms>`.  No match is a parse error naming the expected grammar,
//! which callers treat as a retryable condition.

use vstd::prelude::*;

use crate::text::{
    all_digits, capitalize, capitalize_spec, chars_of, dec_int_spec, dec_spec, digit_end,
    digits_val, eq_str, find_char_from, first_idx, fmt_i32, fmt_u64, lemma_digit_end_all_digits,
    lemma_first_idx_at, lemma_first_idx_none, line_end, lit_at, lower_seq, occurs_at,
    parse_u64_digits, skip_digits, skip_line, skip_ws, split_char, split_spec, starts_with_at,
    string_of, sub_vec, to_lower_vec, trim_spec, trim_vec, ws_end,
};
use crate::types::{ActionParams, ActionResult, ActionType, AtomicAction, Goal};

verus! {

// ---------------------------------------------------------------------------
// App-name normalisation
// ---------------------------------------------------------------------------

/// `s` with every repetition of the suffix removed.
pub open spec fn strip_suffix_all(s: Seq<char>, suf: Seq<char>) -> Seq<char>
    decreases s.len(),
{
    if suf.len() > 0 && s.len() >= suf.len() && s.subrange(s.len() - suf.len(), s.len() as int)
        == suf {
        strip_suffix_all(s.subrange(0, s.len() - suf.len()), suf)
    } else {
        s
    }
}

/// The lower-cased app name with common suffixes removed.
pub open spec fn cleaned_app(raw: Seq<char>) -> Seq<char> {
    trim_spec(
        strip_suffix_all(
            strip_suffix_all(strip_suffix_all(lower_seq(raw), " browser"@), " app"@),
            " application"@,
        ),
    )
}

/// The installed-app name a cleaned query maps to.  A handful of well-known
/// apps get their canonical names; anything else is capitalised as-is.
/// (Looking the name up among actually installed apps is an OS boundary the
/// surrounding program may apply on top.)
pub open spec fn normalize_spec(raw: Seq<char>) -> Seq<char> {
    let c = cleaned_app(raw);
    if c == "safari"@ {
        "Safari"@
    } else if c == "chrome"@ || c == "google chrome"@ {
        "Google Chrome"@
    } else if c == "firefox"@ || c == "mozilla firefox"@ {
        "Firefox"@
    } else if c == "finder"@ {
        "Finder"@
    } else if c == "terminal"@ {
        "Terminal"@
    } else if c == "vscode"@ || c == "vs code"@ || c == "visual studio code"@ {
        "Visual Studio Code"@
    } else if c == "kakao"@ || c == "kakaotalk"@ {
        "KakaoTalk"@
    } else {
        capitalize_spec(c)
    }
}

fn strip_all(v: Vec<char>, suf: &str) -> (out: Vec<char>)
    ensures
        out@ == strip_suffix_all(v@, suf@),
    decreases v.len(),
{
    let sv = chars_of(suf);
    if sv.len() == 0 || v.len() < sv.len() {
        return v;
    }
    let at = v.len() - sv.len();
    if starts_with_at(&v, &sv, at) {
        proof {
            assert(v@.subrange(at as int, at + sv@.len()) =~= v@.subrange(
                v@.len() - suf@.len(),
                v@.len() as int,
            ));
        }
        let prefix = sub_vec(&v, 0, at);
        strip_all(prefix, suf)
    } else {
        proof {
            assert(v@.subrange(v@.len() - suf@.len(), v@.len() as int) =~= v@.subrange(
                at as int,
                at + sv@.len(),
            ));
        }
        v
    }
}

/// Maps a raw app query to the name to open, removing suffixes like
/// `" browser"` and canonicalising well-known apps.
pub fn normalize_app_name(raw: &str) -> (r: String)
    ensures
        r@ == normalize_spec(raw@),
{
    let rv = chars_of(raw);
    let low = to_lower_vec(&rv);
    let s1 = strip_all(low, " browser");
    let s2 = strip_all(s1, " app");
    let s3 = strip_all(s2, " application");
    let c = trim_vec(&s3);
    if eq_str(&c, "safari") {
        String::from_str("Safari")
    } else if eq_str(&c, "chrome") || eq_str(&c, "google chrome") {
        String::from_str("Google Chrome")
    } else if eq_str(&c, "firefox") || eq_str(&c, "mozilla firefox") {
        String::from_str("Firefox")
    } else if eq_str(&c, "finder") {
        String::from_str("Finder")
    } else if eq_str(&c, "terminal") {
        String::from_str("Terminal")
    } else if eq_str(&c, "vscode") || eq_str(&c, "vs code") || eq_str(&c, "visual studio code") {
        String::from_str("Visual Studio Code")
    } else if eq_str(&c, "kakao") || eq_str(&c, "kakaotalk") {
        String::from_str("KakaoTalk")
    } else {
        let s = string_of(&c);
        capitalize(s.as_str())
    }
}

// ---------------------------------------------------------------------------
// The single-action grammar, tier by tier
// ---------------------------------------------------------------------------

/// The first line of a response.
pub open spec fn first_line_of(resp: Seq<char>) -> Seq<char> {
    resp.subrange(0, line_end(resp, 0))
}

/// `<keyword> ws rest`: the whole line, with the trimmed rest captured.
pub open spec fn kw_rest(line: Seq<char>, kw: Seq<char>) -> Option<Seq<char>> {
    if !occurs_at(line, kw, 0) {
        None
    } else {
        let b = ws_end(line, kw.len() as int);
        if b == kw.len() || b >= line.len() {
            None
        } else {
            Some(trim_spec(line.subrange(b, line.len() as int)))
        }
    }
}

fn kw_rest_match(line: &Vec<char>, kw: &str) -> (r: Option<Vec<char>>)
    ensures
        match r {
            Some(p) => kw_rest(line@, kw@) == Some(p@),
            None => kw_rest(line@, kw@) is None,
        },
{
    let kv = chars_of(kw);
    if !starts_with_at(line, &kv, 0) {
        proof {
            if occurs_at(line@, kw@, 0) {
                assert(false);
            }
        }
        return None;
    }
    let b = skip_ws(line, kv.len());
    if b == kv.len() || b >= line.len() {
        return None;
    }
    let raw = sub_vec(line, b, line.len());
    Some(trim_vec(&raw))
}

/// A coordinate as `str::parse::<i32>` delivers it to the grammar: the
/// denoted number when it fits, otherwise the fallback 0.
pub open spec fn coord_val(s: Seq<char>) -> int {
    if digits_val(s) <= 0x7fffffff {
        digits_val(s) as int
    } else {
        0
    }
}

/// `digits ws digits`, the whole capture: click coordinates rather than an
/// element description.
pub open spec fn two_coords(el: Seq<char>) -> Option<(int, int)> {
    let d1 = digit_end(el, 0);
    if d1 == 0 {
        None
    } else {
        let w = ws_end(el, d1);
        if w == d1 {
            None
        } else {
            let d2 = digit_end(el, w);
            if d2 == w || d2 != el.len() {
                None
            } else {
                Some((coord_val(el.subrange(0, d1)), coord_val(el.subrange(w, d2))))
            }
        }
    }
}

fn coord_of_digits(el: &Vec<char>, from: usize, to: usize) -> (r: i32)
    requires
        from < to <= el.len(),
        all_digits(el@.subrange(from as int, to as int)),
    ensures
        r as int == coord_val(el@.subrange(from as int, to as int)),
{
    match parse_u64_digits(el, from, to) {
        Some(n) => if n <= 0x7fffffff {
            n as i32
        } else {
            0
        },
        None => 0,
    }
}

fn two_coords_match(el: &Vec<char>) -> (r: Option<(i32, i32)>)
    ensures
        match r {
            Some(p) => two_coords(el@) == Some((p.0 as int, p.1 as int)),
            None => two_coords(el@) is None,
        },
{
    let d1 = skip_digits(el, 0);
    if d1 == 0 {
        return None;
    }
    let w = skip_ws(el, d1);
    if w == d1 {
        return None;
    }
    let d2 = skip_digits(el, w);
    if d2 == w || d2 != el.len() {
        return None;
    }
    proof {
        lemma_digit_end_all_digits(el@, 0);
        lemma_digit_end_all_digits(el@, w as int);
    }
    let x = coord_of_digits(el, 0, d1);
    let y = coord_of_digits(el, w, d2);
    Some((x, y))
}

/// `type "text"`: the quoted tier.  The closing quote must end the line and
/// the quotes must hold at least one character.
pub open spec fn quoted_text(line: Seq<char>) -> Option<Seq<char>> {
    if !occurs_at(line, "type"@, 0) {
        None
    } else {
        let b = ws_end(line, 4);
        if b == 4 || b >= line.len() || line[b] != '"' {
            None
        } else {
            let rest = line.subrange(b + 1, line.len() as int);
            let i = first_idx(rest, '"');
            if i <= 0 || b + 1 + i != line.len() - 1 {
                None
            } else {
                Some(rest.subrange(0, i))
            }
        }
    }
}

fn quoted_text_match(line: &Vec<char>) -> (r: Option<Vec<char>>)
    ensures
        match r {
            Some(p) => quoted_text(line@) == Some(p@),
            None => quoted_text(line@) is None,
        },
{
    if !lit_at(line, "type", 0) {
        return None;
    }
    proof {
        reveal_strlit("type");
    }
    let b = skip_ws(line, 4);
    if b == 4 || b >= line.len() || line[b] != '"' {
        return None;
    }
    let ghost rest = line@.subrange(b + 1, line@.len() as int);
    match find_char_from(line, '"', b + 1) {
        None => {
            proof {
                assert(forall|j: int| 0 <= j < rest.len() ==> rest[j] != '"');
                lemma_first_idx_none(rest, '"');
            }
            None
        },
        Some(q) => {
            proof {
                assert(rest[q - (b + 1)] == '"');
                assert(forall|j: int| 0 <= j < q - (b + 1) ==> rest[j] != '"');
                lemma_first_idx_at(rest, '"', q - (b + 1));
            }
            if q == b + 1 {
                return None;
            }
            if q != line.len() - 1 {
                return None;
            }
            let t = sub_vec(line, b + 1, q);
            proof {
                assert(t@ =~= rest.subrange(0, q - (b + 1)));
            }
            Some(t)
        },
    }
}

/// `wait <ms>`: digits to the end of the line; a number too large for `u64`
/// falls back to 500.
pub open spec fn wait_ms(line: Seq<char>) -> Option<int> {
    if !occurs_at(line, "wait"@, 0) {
        None
    } else {
        let b = ws_end(line, 4);
        if b == 4 || b >= line.len() || digit_end(line, b) != line.len() {
            None
        } else {
            let s = line.subrange(b, line.len() as int);
            if digits_val(s) <= u64::MAX {
                Some(digits_val(s) as int)
            } else {
                Some(500)
            }
        }
    }
}

fn wait_ms_match(line: &Vec<char>) -> (r: Option<u64>)
    ensures
        match r {
            Some(ms) => wait_ms(line@) == Some(ms as int),
            None => wait_ms(line@) is None,
        },
{
    if !lit_at(line, "wait", 0) {
        return None;
    }
    proof {
        reveal_strlit("wait");
    }
    let b = skip_ws(line, 4);
    if b == 4 || b >= line.len() {
        return None;
    }
    let d = skip_digits(line, b);
    if d != line.len() {
        return None;
    }
    proof {
        lemma_digit_end_all_digits(line@, b as int);
    }
    match parse_u64_digits(line, b, line.len()) {
        Some(n) => Some(n),
        None => Some(500),
    }
}

// ---------------------------------------------------------------------------
// Key combinations
// ---------------------------------------------------------------------------

/// The `+`-separated, individually trimmed parts of a key combination.
pub open spec fn combo_parts(s: Seq<char>) -> Seq<Seq<char>> {
    split_spec(s, '+').map_values(|p: Seq<char>| trim_spec(p))
}

/// The key of a combination: its last part, lower-cased.
pub open spec fn combo_key(s: Seq<char>) -> Seq<char> {
    let parts = combo_parts(s);
    if parts.len() <= 1 {
        lower_seq(parts[0])
    } else {
        lower_seq(parts.last())
    }
}

/// The modifiers of a combination: every part but the last, lower-cased;
/// none when the combination is a bare key.
pub open spec fn combo_modifiers(s: Seq<char>) -> Option<Seq<Seq<char>>> {
    let parts = combo_parts(s);
    if parts.len() <= 1 {
        None
    } else {
        Some(parts.drop_last().map_values(|p: Seq<char>| lower_seq(p)))
    }
}

/// Splits a combination like `CMD+SHIFT+N` into the key (`"n"`) and its
/// modifiers (`["cmd", "shift"]`), all lower-cased.
pub fn parse_key_combo(combo: &str) -> (r: (String, Option<Vec<String>>))
    ensures
        r.0@ == combo_key(combo@),
        mods_match(r.1, combo_modifiers(combo@)),
{
    let cv = chars_of(combo);
    let parts = split_char(&cv, '+');
    let ghost sparts = combo_parts(cv@);
    let mut trimmed: Vec<Vec<char>> = Vec::new();
    let mut i: usize = 0;
    while i < parts.len()
        invariant
            i <= parts@.len(),
            parts@.len() == split_spec(cv@, '+').len(),
            forall|k: int| 0 <= k < parts@.len() ==> parts@[k]@ == split_spec(cv@, '+')[k],
            sparts == combo_parts(cv@),
            trimmed@.len() == i,
            forall|k: int| 0 <= k < i ==> trimmed@[k]@ == #[trigger] sparts[k],
        decreases parts.len() - i,
    {
        let t = trim_vec(&parts[i]);
        trimmed.push(t);
        i += 1;
    }
    proof {
        assert(sparts.len() == split_spec(cv@, '+').len());
        assert(sparts.len() >= 1);
    }
    if trimmed.len() == 1 {
        let low = to_lower_vec(&trimmed[0]);
        (string_of(&low), None)
    } else {
        let n = trimmed.len();
        let low = to_lower_vec(&trimmed[n - 1]);
        let key = string_of(&low);
        let mut mods: Vec<String> = Vec::new();
        let mut j: usize = 0;
        while j < n - 1
            invariant
                n == trimmed@.len(),
                n == sparts.len(),
                n >= 2,
                forall|k: int| 0 <= k < n ==> trimmed@[k]@ == #[trigger] sparts[k],
                j <= n - 1,
                mods@.len() == j,
                forall|k: int|
                    0 <= k < j ==> mods@[k]@ == lower_seq(#[trigger] sparts.drop_last()[k]),
            decreases n - j,
        {
            let lm = to_lower_vec(&trimmed[j]);
            mods.push(string_of(&lm));
            j += 1;
        }
        proof {
            let sm = combo_modifiers(cv@)->Some_0;
            assert(sm.len() == n - 1);
            assert(forall|k: int| 0 <= k < n - 1 ==> sm[k] == lower_seq(sparts.drop_last()[k]));
        }
        (key, Some(mods))
    }
}

// ---------------------------------------------------------------------------
// What a parsed line denotes
// ---------------------------------------------------------------------------

/// The typed content a response line denotes, before an action instance is
/// minted from it.
pub enum ActionShape {
    Open { app: Seq<char> },
    ClickAt { x: int, y: int },
    Find { element: Seq<char> },
    Type { text: Seq<char> },
    Key { combo: Seq<char> },
    Wait { ms: int },
    NoMatch,
}

/// Which text the unquoted type tier keeps: the raw line with its case when
/// it starts with `type` and a plain space, else the lower-cased capture.
pub open spec fn type_text_choice(cap: Seq<char>, orig: Seq<char>) -> Seq<char> {
    if orig.len() >= 5 && lower_seq(orig.subrange(0, 5)) == "type "@ {
        trim_spec(orig.subrange(5, orig.len() as int))
    } else {
        cap
    }
}

/// The blind decision grammar over the lower-cased first line, with the
/// original-case line at hand for the unquoted type tier.
pub open spec fn blind_shape(line: Seq<char>, orig: Seq<char>) -> ActionShape {
    match kw_rest(line, "open"@) {
        Some(raw) => ActionShape::Open { app: normalize_spec(raw) },
        None => match kw_rest(line, "click"@) {
            Some(el) => match two_coords(el) {
                Some((x, y)) => ActionShape::ClickAt { x, y },
                None => ActionShape::Find { element: el },
            },
            None => match quoted_text(line) {
                Some(t) => ActionShape::Type { text: t },
                None => match kw_rest(line, "type"@) {
                    Some(cap) => ActionShape::Type { text: type_text_choice(cap, orig) },
                    None => match kw_rest(line, "key"@) {
                        Some(ks) => ActionShape::Key { combo: ks },
                        None => match wait_ms(line) {
                            Some(ms) => ActionShape::Wait { ms },
                            None => ActionShape::NoMatch,
                        },
                    },
                },
            },
        },
    }
}

/// How modifier lists relate across the exec/spec boundary.
pub open spec fn mods_match(m: Option<Vec<String>>, sm: Option<Seq<Seq<char>>>) -> bool {
    match m {
        None => sm is None,
        Some(v) => sm matches Some(ms) && v@.len() == ms.len() && forall|i: int|
            0 <= i < ms.len() ==> v@[i]@ == #[trigger] ms[i],
    }
}

/// The action instance an achieved shape must carry: its type, its
/// parameters and its stated rationale.
pub open spec fn action_matches_shape(a: AtomicAction, sh: ActionShape, goal_desc: Seq<char>) -> bool {
    match sh {
        ActionShape::Open { app } => {
            &&& a.action_type == ActionType::OpenApp
            &&& a.params matches ActionParams::OpenApp { app_name } && app_name@ == app
            &&& a.rationale@ == "Opening "@ + app + " for: "@ + goal_desc
        },
        ActionShape::ClickAt { x, y } => {
            &&& a.action_type == ActionType::MouseClick
            &&& a.params matches ActionParams::MouseClick { x: xx, y: yy, button } && xx as int
                == x && yy as int == y && button is None
            &&& a.rationale@ == "Clicking at ("@ + dec_int_spec(x) + ", "@ + dec_int_spec(y)
                + ") for: "@ + goal_desc
        },
        ActionShape::Find { element } => {
            &&& a.action_type == ActionType::FindAndClick
            &&& a.params matches ActionParams::FindAndClick { element: el } && el@ == element
            &&& a.rationale@ == "Finding and clicking '"@ + element + "' for: "@ + goal_desc
        },
        ActionShape::Type { text } => {
            &&& a.action_type == ActionType::TypeText
            &&& a.params matches ActionParams::TypeText { text: t } && t@ == text
            &&& a.rationale@ == "Typing '"@ + text + "' for: "@ + goal_desc
        },
        ActionShape::Key { combo } => {
            &&& a.action_type == ActionType::PressKey
            &&& a.params matches ActionParams::PressKey { key, modifiers } && key@ == combo_key(
                combo,
            ) && mods_match(modifiers, combo_modifiers(combo))
            &&& a.rationale@ == "Pressing "@ + combo + " for: "@ + goal_desc
        },
        ActionShape::Wait { ms } => {
            &&& a.action_type == ActionType::Wait
            &&& a.params matches ActionParams::Wait { ms: m } && m as int == ms
            &&& a.rationale@ == "Waiting "@ + dec_spec(ms as nat) + "ms for: "@ + goal_desc
        },
        ActionShape::NoMatch => false,
    }
}

// ---------------------------------------------------------------------------
// The parsers
// ---------------------------------------------------------------------------

/// Reads one action out of a blind decision: no screen was seen, so a click
/// names an element to find rather than coordinates.
pub fn parse_action_blind(response: &str, goal: &Goal) -> (r: Result<AtomicAction, String>)
    ensures
        ({
            let orig = trim_spec(first_line_of(response@));
            let line = lower_seq(orig);
            let sh = blind_shape(line, orig);
            match r {
                Ok(a) => !(sh is NoMatch) && action_matches_shape(a, sh, goal.description@),
                Err(e) => sh is NoMatch && e@ == "Could not parse blind action from response: '"@
                    + line
                    + "'. Expected: open APP, click ELEMENT, type \"text\", key KEY, or wait MS"@,
            }
        }),
{
    let rv = chars_of(response);
    let fl_end = skip_line(&rv, 0);
    let first = sub_vec(&rv, 0, fl_end);
    let orig = trim_vec(&first);
    let line = to_lower_vec(&orig);
    if let Some(raw) = kw_rest_match(&line, "open") {
        let app = normalize_app_name(string_of(&raw).as_str());
        let app2 = app.clone();
        let rationale = String::from_str("Opening ").concat(app.as_str()).concat(
            " for: ",
        ).concat(goal.description.as_str());
        return Ok(
            AtomicAction::new(
                ActionType::OpenApp,
                ActionParams::OpenApp { app_name: app2 },
                rationale,
            ),
        );
    }
    if let Some(el) = kw_rest_match(&line, "click") {
        if let Some((x, y)) = two_coords_match(&el) {
            let xs = fmt_i32(x);
            let ys = fmt_i32(y);
            let rationale = String::from_str("Clicking at (").concat(xs.as_str()).concat(
                ", ",
            ).concat(ys.as_str()).concat(") for: ").concat(goal.description.as_str());
            return Ok(
                AtomicAction::new(
                    ActionType::MouseClick,
                    ActionParams::MouseClick { x, y, button: None },
                    rationale,
                ),
            );
        }
        let el_s = string_of(&el);
        let el_s2 = el_s.clone();
        let rationale = String::from_str("Finding and clicking '").concat(el_s.as_str()).concat(
            "' for: ",
        ).concat(goal.description.as_str());
        return Ok(
            AtomicAction::new(
                ActionType::FindAndClick,
                ActionParams::FindAndClick { element: el_s2 },
                rationale,
            ),
        );
    }
    if let Some(t) = quoted_text_match(&line) {
        let t_s = string_of(&t);
        let t_s2 = t_s.clone();
        let rationale = String::from_str("Typing '").concat(t_s.as_str()).concat("' for: ").concat(
            goal.description.as_str(),
        );
        return Ok(
            AtomicAction::new(ActionType::TypeText, ActionParams::TypeText { text: t_s2 }, rationale),
        );
    }
    if let Some(cap) = kw_rest_match(&line, "type") {
        let text: Vec<char> = if orig.len() >= 5 {
            let head = sub_vec(&orig, 0, 5);
            let head_low = to_lower_vec(&head);
            if eq_str(&head_low, "type ") {
                let tail = sub_vec(&orig, 5, orig.len());
                trim_vec(&tail)
            } else {
                cap
            }
        } else {
            cap
        };
        let t_s = string_of(&text);
        let t_s2 = t_s.clone();
        let rationale = String::from_str("Typing '").concat(t_s.as_str()).concat("' for: ").concat(
            goal.description.as_str(),
        );
        return Ok(
            AtomicAction::new(ActionType::TypeText, ActionParams::TypeText { text: t_s2 }, rationale),
        );
    }
    if let Some(ks) = kw_rest_match(&line, "key") {
        let ks_s = string_of(&ks);
        let (key, modifiers) = parse_key_combo(ks_s.as_str());
        let rationale = String::from_str("Pressing ").concat(ks_s.as_str()).concat(
            " for: ",
        ).concat(goal.description.as_str());
        return Ok(
            AtomicAction::new(
                ActionType::PressKey,
                ActionParams::PressKey { key, modifiers },
                rationale,
            ),
        );
    }
    if let Some(ms) = wait_ms_match(&line) {
        let ms_s = fmt_u64(ms);
        let rationale = String::from_str("Waiting ").concat(ms_s.as_str()).concat(
            "ms for: ",
        ).concat(goal.description.as_str());
        return Ok(AtomicAction::new(ActionType::Wait, ActionParams::Wait { ms }, rationale));
    }
    let line_s = string_of(&line);
    let msg = String::from_str("Could not parse blind action from response: '").concat(
        line_s.as_str(),
    ).concat("'. Expected: open APP, click ELEMENT, type \"text\", key KEY, or wait MS");
    Err(msg)
}

pub struct Thinker;

impl Thinker {
    pub fn new() -> Thinker {
        Thinker
    }
}

} // verus!

verus! {

// ---------------------------------------------------------------------------
// Click resolution and the legacy full parser
// ---------------------------------------------------------------------------

/// `click <x> <y>`, the whole line: the coordinate-only click grammar used
/// once the screen has been seen.
pub open spec fn click_xy(line: Seq<char>) -> Option<(int, int)> {
    if !occurs_at(line, "click"@, 0) {
        None
    } else {
        let b = ws_end(line, 5);
        if b == 5 || b >= line.len() {
            None
        } else {
            two_coords(line.subrange(b, line.len() as int))
        }
    }
}

fn click_xy_match(line: &Vec<char>) -> (r: Option<(i32, i32)>)
    ensures
        match r {
            Some(p) => click_xy(line@) == Some((p.0 as int, p.1 as int)),
            None => click_xy(line@) is None,
        },
{
    if !lit_at(line, "click", 0) {
        return None;
    }
    proof {
        reveal_strlit("click");
    }
    let b = skip_ws(line, 5);
    if b == 5 || b >= line.len() {
        return None;
    }
    let el = sub_vec(line, b, line.len());
    two_coords_match(&el)
}

/// Whether the model said it found nothing.
pub open spec fn says_not_found(line: Seq<char>) -> bool {
    crate::text::contains_seq_spec(line, "not_found"@) || crate::text::contains_seq_spec(
        line,
        "no match"@,
    )
}

/// Reads a resolved click out of the second decision pass.  Exactly the
/// line `click <x> <y>` succeeds; a reported miss and everything else are
/// distinct errors.
pub fn parse_click_action(response: &str, goal: &Goal, element: &str) -> (r: Result<
    AtomicAction,
    String,
>)
    ensures
        ({
            let line = lower_seq(trim_spec(first_line_of(response@)));
            match r {
                Ok(a) => {
                    &&& click_xy(line) matches Some((x, y))
                    &&& a.action_type == ActionType::MouseClick
                    &&& a.params matches ActionParams::MouseClick { x: xx, y: yy, button }
                        && xx as int == x && yy as int == y && button is None
                    &&& a.rationale@ == "Clicking '"@ + element@ + "' at ("@ + dec_int_spec(x)
                        + ", "@ + dec_int_spec(y) + ") for: "@ + goal.description@
                },
                Err(e) => {
                    &&& click_xy(line) is None
                    &&& e@ == (if says_not_found(line) {
                        "Could not find '"@ + element@ + "' on screen"@
                    } else {
                        "Could not parse click action from response: '"@ + line
                            + "'. Expected: click X Y or not_found"@
                    })
                },
            }
        }),
{
    let rv = chars_of(response);
    let fl_end = skip_line(&rv, 0);
    let first = sub_vec(&rv, 0, fl_end);
    let orig = trim_vec(&first);
    let line = to_lower_vec(&orig);
    if let Some((x, y)) = click_xy_match(&line) {
        let xs = fmt_i32(x);
        let ys = fmt_i32(y);
        let rationale = String::from_str("Clicking '").concat(element).concat("' at (").concat(
            xs.as_str(),
        ).concat(", ").concat(ys.as_str()).concat(") for: ").concat(goal.description.as_str());
        return Ok(
            AtomicAction::new(
                ActionType::MouseClick,
                ActionParams::MouseClick { x, y, button: None },
                rationale,
            ),
        );
    }
    if crate::text::contains_str(&line, "not_found") || crate::text::contains_str(
        &line,
        "no match",
    ) {
        let msg = String::from_str("Could not find '").concat(element).concat("' on screen");
        return Err(msg);
    }
    let line_s = string_of(&line);
    let msg = String::from_str("Could not parse click action from response: '").concat(
        line_s.as_str(),
    ).concat("'. Expected: click X Y or not_found");
    Err(msg)
}

/// The full decision grammar: like the blind one, but a click must already
/// carry coordinates, and the unquoted type tier keeps the lower-cased text.
pub open spec fn legacy_shape(line: Seq<char>) -> ActionShape {
    match kw_rest(line, "open"@) {
        Some(raw) => ActionShape::Open { app: normalize_spec(raw) },
        None => match click_xy(line) {
            Some((x, y)) => ActionShape::ClickAt { x, y },
            None => match quoted_text(line) {
                Some(t) => ActionShape::Type { text: t },
                None => match kw_rest(line, "type"@) {
                    Some(cap) => ActionShape::Type { text: cap },
                    None => match kw_rest(line, "key"@) {
                        Some(ks) => ActionShape::Key { combo: ks },
                        None => match wait_ms(line) {
                            Some(ms) => ActionShape::Wait { ms },
                            None => ActionShape::NoMatch,
                        },
                    },
                },
            },
        },
    }
}

/// Reads one action out of a full decision over goal and screen.
pub fn parse_action(response: &str, goal: &Goal) -> (r: Result<AtomicAction, String>)
    ensures
        ({
            let line = lower_seq(trim_spec(first_line_of(response@)));
            let sh = legacy_shape(line);
            match r {
                Ok(a) => !(sh is NoMatch) && action_matches_shape(a, sh, goal.description@),
                Err(e) => sh is NoMatch && e@ == "Could not parse action from response: '"@ + line
                    + "'. Expected: open APP, click X Y, type \"text\", key KEY, or wait MS"@,
            }
        }),
{
    let rv = chars_of(response);
    let fl_end = skip_line(&rv, 0);
    let first = sub_vec(&rv, 0, fl_end);
    let orig = trim_vec(&first);
    let line = to_lower_vec(&orig);
    if let Some(raw) = kw_rest_match(&line, "open") {
        let app = normalize_app_name(string_of(&raw).as_str());
        let app2 = app.clone();
        let rationale = String::from_str("Opening ").concat(app.as_str()).concat(
            " for: ",
        ).concat(goal.description.as_str());
        return Ok(
            AtomicAction::new(
                ActionType::OpenApp,
                ActionParams::OpenApp { app_name: app2 },
                rationale,
            ),
        );
    }
    if let Some((x, y)) = click_xy_match(&line) {
        let xs = fmt_i32(x);
        let ys = fmt_i32(y);
        let rationale = String::from_str("Clicking at (").concat(xs.as_str()).concat(", ").concat(
            ys.as_str(),
        ).concat(") for: ").concat(goal.description.as_str());
        return Ok(
            AtomicAction::new(
                ActionType::MouseClick,
                ActionParams::MouseClick { x, y, button: None },
                rationale,
            ),
        );
    }
    if let Some(t) = quoted_text_match(&line) {
        let t_s = string_of(&t);
        let t_s2 = t_s.clone();
        let rationale = String::from_str("Typing '").concat(t_s.as_str()).concat("' for: ").concat(
            goal.description.as_str(),
        );
        return Ok(
            AtomicAction::new(ActionType::TypeText, ActionParams::TypeText { text: t_s2 }, rationale),
        );
    }
    if let Some(cap) = kw_rest_match(&line, "type") {
        let t_s = string_of(&cap);
        let t_s2 = t_s.clone();
        let rationale = String::from_str("Typing '").concat(t_s.as_str()).concat("' for: ").concat(
            goal.description.as_str(),
        );
        return Ok(
            AtomicAction::new(ActionType::TypeText, ActionParams::TypeText { text: t_s2 }, rationale),
        );
    }
    if let Some(ks) = kw_rest_match(&line, "key") {
        let ks_s = string_of(&ks);
        let (key, modifiers) = parse_key_combo(ks_s.as_str());
        let rationale = String::from_str("Pressing ").concat(ks_s.as_str()).concat(
            " for: ",
        ).concat(goal.description.as_str());
        return Ok(
            AtomicAction::new(
                ActionType::PressKey,
                ActionParams::PressKey { key, modifiers },
                rationale,
            ),
        );
    }
    if let Some(ms) = wait_ms_match(&line) {
        let ms_s = fmt_u64(ms);
        let rationale = String::from_str("Waiting ").concat(ms_s.as_str()).concat(
            "ms for: ",
        ).concat(goal.description.as_str());
        return Ok(AtomicAction::new(ActionType::Wait, ActionParams::Wait { ms }, rationale));
    }
    let line_s = string_of(&line);
    let msg = String::from_str("Could not parse action from response: '").concat(
        line_s.as_str(),
    ).concat("'. Expected: open APP, click X Y, type \"text\", key KEY, or wait MS");
    Err(msg)
}

// ---------------------------------------------------------------------------
// History shown to the model
// ---------------------------------------------------------------------------

pub open spec fn recent_entry(r: ActionResult) -> Seq<char> {
    if r.success {
        "OK: "@ + r.action_id@
    } else {
        "FAIL: "@ + r.action_id@ + " - "@ + (match r.error_message {
            Some(m) => m@,
            None => "unknown"@,
        })
    }
}

/// At most the last three results, most recent first, joined by commas;
/// bounded so the model-facing text cannot grow without limit.
pub open spec fn recent_actions_spec(h: Seq<ActionResult>) -> Seq<char> {
    if h.len() == 0 {
        "None"@
    } else if h.len() == 1 {
        recent_entry(h[0])
    } else if h.len() == 2 {
        recent_entry(h[1]) + ", "@ + recent_entry(h[0])
    } else {
        recent_entry(h[h.len() - 1]) + ", "@ + recent_entry(h[h.len() - 2]) + ", "@ + recent_entry(
            h[h.len() - 3],
        )
    }
}

fn recent_entry_of(r: &ActionResult) -> (out: String)
    ensures
        out@ == recent_entry(*r),
{
    if r.success {
        String::from_str("OK: ").concat(r.action_id.as_str())
    } else {
        let head = String::from_str("FAIL: ").concat(r.action_id.as_str()).concat(" - ");
        match &r.error_message {
            Some(m) => head.concat(m.as_str()),
            None => head.concat("unknown"),
        }
    }
}

/// Formats recent history for prompt context.
pub fn format_recent_actions(history: &Vec<ActionResult>) -> (out: String)
    ensures
        out@ == recent_actions_spec(history@),
{
    let n = history.len();
    if n == 0 {
        String::from_str("None")
    } else if n == 1 {
        recent_entry_of(&history[0])
    } else if n == 2 {
        let a = recent_entry_of(&history[1]);
        let b = recent_entry_of(&history[0]);
        a.concat(", ").concat(b.as_str())
    } else {
        let a = recent_entry_of(&history[n - 1]);
        let b = recent_entry_of(&history[n - 2]);
        let c = recent_entry_of(&history[n - 3]);
        a.concat(", ").concat(b.as_str()).concat(", ").concat(c.as_str())
    }
}

} // verus!
