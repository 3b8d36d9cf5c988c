//! Turning a command into goals.
//!
//! A fixed, ordered list of command templates is tried against the
//! lower-cased command; the first match expands deterministically into one to
//! four goals, with no model involved.  Only when no template matches is one
//! model call made, and its response read by the goal-list grammar
//! (`parse_goals_from_response`).
//!
//! The templates are this library's own grammar.  In each, `word` is a
//! maximal run of letters, digits and underscores, `ws` a maximal run of
//! whitespace, and a trailing capture runs to the end of the line and is
//! trimmed; a template only matches where its trailing capture is non-empty.

use vstd::prelude::*;

use crate::text::{
    digit_end, is_space, is_space_char, skip_digits,
    capitalize, capitalize_spec, chars_of, line_end, lit_at, lower_seq, occurs_at, skip_line,
    skip_ws, skip_word, string_of, sub_vec, to_lower_vec, trim_spec, trim_vec, word_end, ws_end,
    contains_seq_spec, contains_str, split_lines, line_split,
};
use crate::types::{DecompositionInfo, Goal, GoalStatus, DEFAULT_MAX_ATTEMPTS};

verus! {

// ---------------------------------------------------------------------------
// Template: "open <word> and search [for] <query>"
// ---------------------------------------------------------------------------

/// Captures of the open-and-search template anchored at position `k`:
/// `open ws word ws and ws search ws [for ws] query`.
pub open spec fn open_search_at(s: Seq<char>, k: int) -> Option<(Seq<char>, Seq<char>)>
    recommends
        0 <= k <= s.len(),
{
    if !occurs_at(s, "open"@, k) {
        None
    } else {
        let b = ws_end(s, k + 4);
        if b == k + 4 {
            None
        } else {
            let c = word_end(s, b);
            if c == b {
                None
            } else {
                let d = ws_end(s, c);
                if d == c {
                    None
                } else if !occurs_at(s, "and"@, d) {
                    None
                } else {
                    let e = ws_end(s, d + 3);
                    if e == d + 3 {
                        None
                    } else if !occurs_at(s, "search"@, e) {
                        None
                    } else {
                        let f = ws_end(s, e + 6);
                        if f == e + 6 {
                            None
                        } else {
                            let g = if occurs_at(s, "for"@, f) && ws_end(s, f + 3) > f + 3 {
                                ws_end(s, f + 3)
                            } else {
                                f
                            };
                            let q = trim_spec(s.subrange(g, line_end(s, g)));
                            if q.len() == 0 {
                                None
                            } else {
                                Some((s.subrange(b, c), q))
                            }
                        }
                    }
                }
            }
        }
    }
}

/// The leftmost match of the open-and-search template at or after `k`.
pub open spec fn open_search_from(s: Seq<char>, k: int) -> Option<(Seq<char>, Seq<char>)>
    recommends
        0 <= k <= s.len(),
    decreases s.len() - k,
{
    match open_search_at(s, k) {
        Some(r) => Some(r),
        None => if k >= s.len() {
            None
        } else {
            open_search_from(s, k + 1)
        },
    }
}

pub open spec fn open_search_caps(s: Seq<char>) -> Option<(Seq<char>, Seq<char>)> {
    open_search_from(s, 0)
}

fn open_search_match_at(v: &Vec<char>, k: usize) -> (r: Option<(Vec<char>, Vec<char>)>)
    requires
        k <= v.len(),
    ensures
        match r {
            Some(p) => open_search_at(v@, k as int) == Some((p.0@, p.1@)),
            None => open_search_at(v@, k as int) is None,
        },
{
    if !lit_at(v, "open", k) {
        return None;
    }
    proof {
        reveal_strlit("open");
    }
    let b = skip_ws(v, k + 4);
    if b == k + 4 {
        return None;
    }
    let c = skip_word(v, b);
    if c == b {
        return None;
    }
    let d = skip_ws(v, c);
    if d == c {
        return None;
    }
    if !lit_at(v, "and", d) {
        return None;
    }
    proof {
        reveal_strlit("and");
    }
    let e = skip_ws(v, d + 3);
    if e == d + 3 {
        return None;
    }
    if !lit_at(v, "search", e) {
        return None;
    }
    proof {
        reveal_strlit("search");
    }
    let f = skip_ws(v, e + 6);
    if f == e + 6 {
        return None;
    }
    let mut g = f;
    if lit_at(v, "for", f) {
        proof {
            reveal_strlit("for");
        }
        let g2 = skip_ws(v, f + 3);
        if g2 > f + 3 {
            g = g2;
        }
    }
    let h = skip_line(v, g);
    let qraw = sub_vec(v, g, h);
    let q = trim_vec(&qraw);
    if q.len() == 0 {
        return None;
    }
    let app = sub_vec(v, b, c);
    Some((app, q))
}

fn open_search_match(v: &Vec<char>) -> (r: Option<(Vec<char>, Vec<char>)>)
    ensures
        match r {
            Some(p) => open_search_caps(v@) == Some((p.0@, p.1@)),
            None => open_search_caps(v@) is None,
        },
{
    let mut k: usize = 0;
    loop
        invariant
            k <= v@.len(),
            open_search_from(v@, 0) == open_search_from(v@, k as int),
        decreases v@.len() - k,
    {
        let m = open_search_match_at(v, k);
        if m.is_some() {
            return m;
        }
        if k == v.len() {
            return None;
        }
        k += 1;
    }
}

// ---------------------------------------------------------------------------
// Template: "open <word>" (the whole command)
// ---------------------------------------------------------------------------

/// Captures of the open-app template, anchored to the whole command:
/// `open ws word`, with the word ending the command.
pub open spec fn open_caps(s: Seq<char>) -> Option<Seq<char>> {
    if !occurs_at(s, "open"@, 0) {
        None
    } else {
        let b = ws_end(s, 4);
        if b == 4 {
            None
        } else {
            let c = word_end(s, b);
            if c == b || c != s.len() {
                None
            } else {
                Some(s.subrange(b, c))
            }
        }
    }
}

pub(crate) fn open_match(v: &Vec<char>) -> (r: Option<Vec<char>>)
    ensures
        match r {
            Some(p) => open_caps(v@) == Some(p@),
            None => open_caps(v@) is None,
        },
{
    if !lit_at(v, "open", 0) {
        return None;
    }
    proof {
        reveal_strlit("open");
    }
    let b = skip_ws(v, 4);
    if b == 4 {
        return None;
    }
    let c = skip_word(v, b);
    if c == b || c != v.len() {
        return None;
    }
    Some(sub_vec(v, b, c))
}

} // verus!

verus! {

// ---------------------------------------------------------------------------
// Template: "search <query> in <word>"
// ---------------------------------------------------------------------------

/// Whether position `e` can end the lazy query capture: whitespace, then
/// `in`, then whitespace, then at least one word character.
pub open spec fn si_break_at(s: Seq<char>, e: int) -> bool
    recommends
        0 <= e <= s.len(),
{
    let p = ws_end(s, e);
    p > e && occurs_at(s, "in"@, p) && ws_end(s, p + 2) > p + 2 && word_end(
        s,
        ws_end(s, p + 2),
    ) > ws_end(s, p + 2)
}

/// The shortest query end at or after `e`; the query may not cross a line
/// break.
pub open spec fn si_scan(s: Seq<char>, e: int) -> Option<int>
    recommends
        0 < e <= s.len(),
    decreases s.len() - e,
{
    if s[e - 1] == '\n' {
        None
    } else if si_break_at(s, e) {
        Some(e)
    } else if e >= s.len() {
        None
    } else {
        si_scan(s, e + 1)
    }
}

/// Captures of the search-in template at position `k`:
/// `search ws query ws in ws word`, query as short as possible.
pub open spec fn search_in_at(s: Seq<char>, k: int) -> Option<(Seq<char>, Seq<char>)>
    recommends
        0 <= k <= s.len(),
{
    if !occurs_at(s, "search"@, k) {
        None
    } else {
        let w = ws_end(s, k + 6);
        if w == k + 6 || w >= s.len() {
            None
        } else {
            match si_scan(s, w + 1) {
                None => None,
                Some(e) => {
                    let p = ws_end(s, e);
                    let a = ws_end(s, p + 2);
                    Some((trim_spec(s.subrange(w, e)), s.subrange(a, word_end(s, a))))
                },
            }
        }
    }
}

pub open spec fn search_in_from(s: Seq<char>, k: int) -> Option<(Seq<char>, Seq<char>)>
    recommends
        0 <= k <= s.len(),
    decreases s.len() - k,
{
    match search_in_at(s, k) {
        Some(r) => Some(r),
        None => if k >= s.len() {
            None
        } else {
            search_in_from(s, k + 1)
        },
    }
}

/// The leftmost match of the search-in template: `(query, app)`.
pub open spec fn search_in_caps(s: Seq<char>) -> Option<(Seq<char>, Seq<char>)> {
    search_in_from(s, 0)
}

fn si_break_check(v: &Vec<char>, e: usize) -> (r: bool)
    requires
        e <= v.len(),
    ensures
        r == si_break_at(v@, e as int),
{
    let p = skip_ws(v, e);
    if p == e {
        return false;
    }
    if !lit_at(v, "in", p) {
        return false;
    }
    proof {
        reveal_strlit("in");
    }
    let a = skip_ws(v, p + 2);
    if a == p + 2 {
        return false;
    }
    let c = skip_word(v, a);
    c > a
}

pub(crate) fn search_in_match_at(v: &Vec<char>, k: usize) -> (r: Option<(Vec<char>, Vec<char>)>)
    requires
        k <= v.len(),
    ensures
        match r {
            Some(p) => search_in_at(v@, k as int) == Some((p.0@, p.1@)),
            None => search_in_at(v@, k as int) is None,
        },
{
    if !lit_at(v, "search", k) {
        return None;
    }
    proof {
        reveal_strlit("search");
    }
    let w = skip_ws(v, k + 6);
    if w == k + 6 || w >= v.len() {
        return None;
    }
    let mut e: usize = w + 1;
    loop
        invariant
            k + 6 <= v@.len(),
            v@.len() <= usize::MAX,
            occurs_at(v@, "search"@, k as int),
            "search"@.len() == 6,
            w == ws_end(v@, k + 6),
            k + 6 < w < v@.len(),
            w + 1 <= e <= v@.len(),
            si_scan(v@, w + 1) == si_scan(v@, e as int),
        decreases v@.len() - e,
    {
        proof {
            reveal_strlit("search");
        }
        if v[e - 1] == '\n' {
            return None;
        }
        if si_break_check(v, e) {
            let p = skip_ws(v, e);
            proof {
                reveal_strlit("in");
                assert(si_break_at(v@, e as int));
                assert(occurs_at(v@, "in"@, p as int));
                assert(p + 2 <= v@.len());
            }
            let a = skip_ws(v, p + 2);
            let c = skip_word(v, a);
            let qraw = sub_vec(v, w, e);
            let q = trim_vec(&qraw);
            let app = sub_vec(v, a, c);
            return Some((q, app));
        }
        if e >= v.len() {
            return None;
        }
        e += 1;
    }
}

pub(crate) fn search_in_match(v: &Vec<char>) -> (r: Option<(Vec<char>, Vec<char>)>)
    ensures
        match r {
            Some(p) => search_in_caps(v@) == Some((p.0@, p.1@)),
            None => search_in_caps(v@) is None,
        },
{
    let mut k: usize = 0;
    loop
        invariant
            k <= v@.len(),
            search_in_from(v@, 0) == search_in_from(v@, k as int),
        decreases v@.len() - k,
    {
        let m = search_in_match_at(v, k);
        if m.is_some() {
            return m;
        }
        if k == v.len() {
            return None;
        }
        k += 1;
    }
}

// ---------------------------------------------------------------------------
// Template: "click [on] [the] <element>"
// ---------------------------------------------------------------------------

/// Captures of the click template at position `k`:
/// `click ws [on ws] [the ws] element`.
pub open spec fn click_at(s: Seq<char>, k: int) -> Option<Seq<char>>
    recommends
        0 <= k <= s.len(),
{
    if !occurs_at(s, "click"@, k) {
        None
    } else {
        let b = ws_end(s, k + 5);
        if b == k + 5 {
            None
        } else {
            let b2 = if occurs_at(s, "on"@, b) && ws_end(s, b + 2) > b + 2 {
                ws_end(s, b + 2)
            } else {
                b
            };
            let b3 = if occurs_at(s, "the"@, b2) && ws_end(s, b2 + 3) > b2 + 3 {
                ws_end(s, b2 + 3)
            } else {
                b2
            };
            let el = trim_spec(s.subrange(b3, line_end(s, b3)));
            if el.len() == 0 {
                None
            } else {
                Some(el)
            }
        }
    }
}

pub open spec fn click_from(s: Seq<char>, k: int) -> Option<Seq<char>>
    recommends
        0 <= k <= s.len(),
    decreases s.len() - k,
{
    match click_at(s, k) {
        Some(r) => Some(r),
        None => if k >= s.len() {
            None
        } else {
            click_from(s, k + 1)
        },
    }
}

pub open spec fn click_caps(s: Seq<char>) -> Option<Seq<char>> {
    click_from(s, 0)
}

pub(crate) fn click_match_at(v: &Vec<char>, k: usize) -> (r: Option<Vec<char>>)
    requires
        k <= v.len(),
    ensures
        match r {
            Some(p) => click_at(v@, k as int) == Some(p@),
            None => click_at(v@, k as int) is None,
        },
{
    if !lit_at(v, "click", k) {
        return None;
    }
    proof {
        reveal_strlit("click");
    }
    let b = skip_ws(v, k + 5);
    if b == k + 5 {
        return None;
    }
    let mut b2 = b;
    if lit_at(v, "on", b) {
        proof {
            reveal_strlit("on");
        }
        let t = skip_ws(v, b + 2);
        if t > b + 2 {
            b2 = t;
        }
    }
    let mut b3 = b2;
    if lit_at(v, "the", b2) {
        proof {
            reveal_strlit("the");
        }
        let t = skip_ws(v, b2 + 3);
        if t > b2 + 3 {
            b3 = t;
        }
    }
    let h = skip_line(v, b3);
    let raw = sub_vec(v, b3, h);
    let el = trim_vec(&raw);
    if el.len() == 0 {
        return None;
    }
    Some(el)
}

pub(crate) fn click_match(v: &Vec<char>) -> (r: Option<Vec<char>>)
    ensures
        match r {
            Some(p) => click_caps(v@) == Some(p@),
            None => click_caps(v@) is None,
        },
{
    let mut k: usize = 0;
    loop
        invariant
            k <= v@.len(),
            click_from(v@, 0) == click_from(v@, k as int),
        decreases v@.len() - k,
    {
        let m = click_match_at(v, k);
        if m.is_some() {
            return m;
        }
        if k == v.len() {
            return None;
        }
        k += 1;
    }
}

// ---------------------------------------------------------------------------
// Template: "type <text>" (the whole command)
// ---------------------------------------------------------------------------

/// Captures of the type template, anchored to the whole command:
/// `type ws text`, where the text runs to the end of the command and may not
/// cross a line break.
pub open spec fn type_caps(s: Seq<char>) -> Option<Seq<char>> {
    if !occurs_at(s, "type"@, 0) {
        None
    } else {
        let b = ws_end(s, 4);
        if b == 4 || b >= s.len() || line_end(s, b) != s.len() {
            None
        } else {
            Some(trim_spec(s.subrange(b, s.len() as int)))
        }
    }
}

pub(crate) fn type_match(v: &Vec<char>) -> (r: Option<Vec<char>>)
    ensures
        match r {
            Some(p) => type_caps(v@) == Some(p@),
            None => type_caps(v@) is None,
        },
{
    if !lit_at(v, "type", 0) {
        return None;
    }
    proof {
        reveal_strlit("type");
    }
    let b = skip_ws(v, 4);
    if b == 4 || b >= v.len() {
        return None;
    }
    let h = skip_line(v, b);
    if h != v.len() {
        return None;
    }
    let raw = sub_vec(v, b, v.len());
    let t = trim_vec(&raw);
    proof {
        assert(v@.subrange(b as int, v@.len() as int) == raw@);
    }
    Some(t)
}

} // verus!

verus! {

// ---------------------------------------------------------------------------
// Goals a matched template expands into
// ---------------------------------------------------------------------------

pub open spec fn goal_matches_text(g: Goal, t: (Seq<char>, Seq<char>)) -> bool {
    &&& g.description@ == t.0
    &&& g.success_criteria@ == t.1
    &&& g.status == GoalStatus::Pending
    &&& g.attempts == 0
    &&& g.max_attempts == DEFAULT_MAX_ATTEMPTS
}

pub open spec fn goals_match_texts(gs: Seq<Goal>, ts: Seq<(Seq<char>, Seq<char>)>) -> bool {
    gs.len() == ts.len() && forall|i: int|
        0 <= i < gs.len() ==> goal_matches_text(gs[i], #[trigger] ts[i])
}

/// The four goals of a search workflow: open the app, focus the URL bar,
/// type the query, execute the search.
pub open spec fn search_goal_texts(app: Seq<char>, query: Seq<char>) -> Seq<
    (Seq<char>, Seq<char>),
> {
    let cap = capitalize_spec(app);
    seq![
        ("Open "@ + cap, cap + " window is visible and focused"@),
        ("Focus URL bar"@, "Cursor is in the URL/search input field"@),
        ("Type search query: "@ + query, "\""@ + query + "\" appears in the search field"@),
        ("Execute search"@, "Search results are displayed"@),
    ]
}

pub open spec fn open_goal_texts(app: Seq<char>) -> Seq<(Seq<char>, Seq<char>)> {
    let cap = capitalize_spec(app);
    seq![("Open "@ + cap, cap + " window is visible and focused"@)]
}

pub open spec fn click_goal_texts(el: Seq<char>) -> Seq<(Seq<char>, Seq<char>)> {
    seq![("Click on "@ + el, el + " has been clicked and responded"@)]
}

pub open spec fn type_goal_texts(t: Seq<char>) -> Seq<(Seq<char>, Seq<char>)> {
    seq![("Type: "@ + t, "\""@ + t + "\" has been typed"@)]
}

/// Goals for the search workflow, from the raw (lower-cased) app word and
/// query.
pub fn build_search_goals(app: &str, query: &str) -> (goals: Vec<Goal>)
    ensures
        goals_match_texts(goals@, search_goal_texts(app@, query@)),
{
    let cap = capitalize(app);
    let mut goals: Vec<Goal> = Vec::new();
    let d1 = String::from_str("Open ").concat(cap.as_str());
    let c1 = cap.concat(" window is visible and focused");
    goals.push(Goal::new(d1, c1));
    goals.push(
        Goal::new(
            String::from_str("Focus URL bar"),
            String::from_str("Cursor is in the URL/search input field"),
        ),
    );
    let d3 = String::from_str("Type search query: ").concat(query);
    let c3 = String::from_str("\"").concat(query).concat("\" appears in the search field");
    goals.push(Goal::new(d3, c3));
    goals.push(
        Goal::new(
            String::from_str("Execute search"),
            String::from_str("Search results are displayed"),
        ),
    );
    goals
}

// ---------------------------------------------------------------------------
// The ordered template list
// ---------------------------------------------------------------------------

/// What the template list makes of a lower-cased command: the goal texts and
/// the template name, or nothing when no template matches.
pub open spec fn pattern_goal_texts(cmd: Seq<char>) -> Option<
    (Seq<(Seq<char>, Seq<char>)>, Seq<char>),
> {
    match open_search_caps(cmd) {
        Some((app, q)) => Some((search_goal_texts(app, q), "open_and_search"@)),
        None => match search_in_caps(cmd) {
            Some((q, app)) => Some((search_goal_texts(app, q), "search_in"@)),
            None => match open_caps(cmd) {
                Some(app) => Some((open_goal_texts(app), "open_app"@)),
                None => match click_caps(cmd) {
                    Some(el) => Some((click_goal_texts(el), "click"@)),
                    None => match type_caps(cmd) {
                        Some(t) => Some((type_goal_texts(t), "type"@)),
                        None => None,
                    },
                },
            },
        },
    }
}

/// Tries the command templates in order against the lower-cased command; the
/// first match expands into goals.  Fully deterministic: no model call is
/// involved on this path.
pub fn try_pattern_match(command: &str) -> (r: Option<(Vec<Goal>, String)>)
    ensures
        ({
            let m = pattern_goal_texts(lower_seq(command@));
            match r {
                Some(p) => m is Some && goals_match_texts(p.0@, m->Some_0.0) && p.1@
                    == m->Some_0.1,
                None => m is None,
            }
        }),
{
    let cv = chars_of(command);
    let cmd = to_lower_vec(&cv);
    if let Some((app, q)) = open_search_match(&cmd) {
        let app_s = string_of(&app);
        let q_s = string_of(&q);
        let goals = build_search_goals(app_s.as_str(), q_s.as_str());
        return Some((goals, String::from_str("open_and_search")));
    }
    if let Some((q, app)) = search_in_match(&cmd) {
        let app_s = string_of(&app);
        let q_s = string_of(&q);
        let goals = build_search_goals(app_s.as_str(), q_s.as_str());
        return Some((goals, String::from_str("search_in")));
    }
    if let Some(app) = open_match(&cmd) {
        let cap = capitalize(string_of(&app).as_str());
        let d = String::from_str("Open ").concat(cap.as_str());
        let c = cap.concat(" window is visible and focused");
        let mut goals: Vec<Goal> = Vec::new();
        goals.push(Goal::new(d, c));
        return Some((goals, String::from_str("open_app")));
    }
    if let Some(el) = click_match(&cmd) {
        let el_s = string_of(&el);
        let d = String::from_str("Click on ").concat(el_s.as_str());
        let c = el_s.concat(" has been clicked and responded");
        let mut goals: Vec<Goal> = Vec::new();
        goals.push(Goal::new(d, c));
        return Some((goals, String::from_str("click")));
    }
    if let Some(t) = type_match(&cmd) {
        let t_s = string_of(&t);
        let d = String::from_str("Type: ").concat(t_s.as_str());
        let c = String::from_str("\"").concat(t_s.as_str()).concat("\" has been typed");
        let mut goals: Vec<Goal> = Vec::new();
        goals.push(Goal::new(d, c));
        return Some((goals, String::from_str("type")));
    }
    None
}

} // verus!

verus! {

// ---------------------------------------------------------------------------
// The goal-list grammar for model responses
// ---------------------------------------------------------------------------

/// The position after a `N.` prefix, if the line starts with one.
pub open spec fn num_prefix(line: Seq<char>) -> Option<int> {
    let d = digit_end(line, 0);
    if d == 0 || d >= line.len() || line[d] != '.' {
        None
    } else {
        Some(d + 1)
    }
}

/// Whether position `e` can end the description capture of the pipe tier:
/// whitespace, a `|`, and at least one character after it.
pub open spec fn pipe_break_at(line: Seq<char>, e: int) -> bool
    recommends
        0 <= e <= line.len(),
{
    let p = ws_end(line, e);
    p < line.len() && line[p] == '|' && p + 1 < line.len()
}

pub open spec fn pipe_scan(line: Seq<char>, e: int) -> Option<int>
    recommends
        0 <= e <= line.len(),
    decreases line.len() - e,
{
    if pipe_break_at(line, e) {
        Some(e)
    } else if e >= line.len() {
        None
    } else {
        pipe_scan(line, e + 1)
    }
}

/// Tier one of the goal-list grammar: `N. description | criteria`.
pub open spec fn pipe_caps(line: Seq<char>) -> Option<(Seq<char>, Seq<char>)> {
    match num_prefix(line) {
        None => None,
        Some(t0) => {
            let w = ws_end(line, t0);
            if w >= line.len() {
                None
            } else {
                match pipe_scan(line, w + 1) {
                    None => None,
                    Some(e) => {
                        let p = ws_end(line, e);
                        Some(
                            (
                                line.subrange(w, e),
                                trim_spec(line.subrange(p + 1, line.len() as int)),
                            ),
                        )
                    },
                }
            }
        },
    }
}

/// Whether position `e` can end the description capture of the dash tier:
/// at least one whitespace, a dash, whitespace, and something after.
pub open spec fn dash_break_at(line: Seq<char>, e: int) -> bool
    recommends
        0 <= e <= line.len(),
{
    let p = ws_end(line, e);
    p > e && p < line.len() && line[p] == '-' && p + 1 < line.len() && is_space_char(
        line[p + 1],
    ) && p + 2 < line.len()
}

pub open spec fn dash_scan(line: Seq<char>, e: int) -> Option<int>
    recommends
        0 <= e <= line.len(),
    decreases line.len() - e,
{
    if dash_break_at(line, e) {
        Some(e)
    } else if e >= line.len() {
        None
    } else {
        dash_scan(line, e + 1)
    }
}

/// Tier two of the goal-list grammar: `N. description - criteria`, with
/// whitespace required around the dash.
pub open spec fn dash_caps(line: Seq<char>) -> Option<(Seq<char>, Seq<char>)> {
    match num_prefix(line) {
        None => None,
        Some(t0) => {
            let w = ws_end(line, t0);
            if w >= line.len() {
                None
            } else {
                match dash_scan(line, w + 1) {
                    None => None,
                    Some(e) => {
                        let p = ws_end(line, e);
                        Some(
                            (
                                line.subrange(w, e),
                                trim_spec(line.subrange(p + 1, line.len() as int)),
                            ),
                        )
                    },
                }
            }
        },
    }
}

/// Tier three of the goal-list grammar: `N. description` alone.
pub open spec fn simple_caps(line: Seq<char>) -> Option<Seq<char>> {
    match num_prefix(line) {
        None => None,
        Some(t0) => {
            let d = trim_spec(line.subrange(t0, line.len() as int));
            if d.len() == 0 {
                None
            } else {
                Some(d)
            }
        },
    }
}

/// Lines that only talk about goals rather than stating one are skipped.
pub open spec fn is_meta_desc(d: Seq<char>) -> bool {
    contains_seq_spec(lower_seq(d), "no specific"@) || contains_seq_spec(
        lower_seq(d),
        "goals listed"@,
    )
}

/// What one (already trimmed) line of a model response contributes: the
/// first tier that matches with non-empty captures wins; tier three
/// synthesizes the criteria.
pub open spec fn line_goal(line: Seq<char>) -> Option<(Seq<char>, Seq<char>)> {
    let pc = pipe_caps(line);
    if pc is Some && pc->Some_0.0.len() > 0 && pc->Some_0.1.len() > 0 {
        pc
    } else {
        let dc = dash_caps(line);
        if dc is Some && dc->Some_0.0.len() > 0 && dc->Some_0.1.len() > 0 {
            dc
        } else {
            let sc = simple_caps(line);
            if sc is Some && sc->Some_0.len() > 0 && !is_meta_desc(sc->Some_0) {
                Some((sc->Some_0, sc->Some_0 + " is completed"@))
            } else {
                None
            }
        }
    }
}

pub open spec fn line_contribution(line: Seq<char>) -> Seq<(Seq<char>, Seq<char>)> {
    let t = trim_spec(line);
    if t.len() == 0 {
        Seq::empty()
    } else {
        match line_goal(t) {
            Some(p) => seq![p],
            None => Seq::empty(),
        }
    }
}

pub open spec fn goal_texts_of(lines: Seq<Seq<char>>) -> Seq<(Seq<char>, Seq<char>)>
    decreases lines.len(),
{
    if lines.len() == 0 {
        Seq::empty()
    } else {
        goal_texts_of(lines.drop_last()) + line_contribution(lines.last())
    }
}

/// Every goal the goal-list grammar reads out of a raw model response.
pub open spec fn response_goal_texts(resp: Seq<char>) -> Seq<(Seq<char>, Seq<char>)> {
    goal_texts_of(line_split(resp))
}

fn pipe_caps_match(line: &Vec<char>) -> (r: Option<(Vec<char>, Vec<char>)>)
    ensures
        match r {
            Some(p) => pipe_caps(line@) == Some((p.0@, p.1@)),
            None => pipe_caps(line@) is None,
        },
{
    let d = skip_digits(line, 0);
    if d == 0 || d >= line.len() || line[d] != '.' {
        return None;
    }
    let t0 = d + 1;
    let w = skip_ws(line, t0);
    if w >= line.len() {
        return None;
    }
    let mut e: usize = w + 1;
    loop
        invariant
            w + 1 <= e <= line@.len(),
            w < line@.len(),
            pipe_scan(line@, w + 1 as int) == pipe_scan(line@, e as int),
            num_prefix(line@) == Some(t0 as int),
            w == ws_end(line@, t0 as int),
        decreases line@.len() - e,
    {
        let p = skip_ws(line, e);
        if p < line.len() && line[p] == '|' && p + 1 < line.len() {
            let desc = sub_vec(line, w, e);
            let craw = sub_vec(line, p + 1, line.len());
            let crit = trim_vec(&craw);
            return Some((desc, crit));
        }
        if e >= line.len() {
            return None;
        }
        e += 1;
    }
}

fn dash_caps_match(line: &Vec<char>) -> (r: Option<(Vec<char>, Vec<char>)>)
    ensures
        match r {
            Some(p) => dash_caps(line@) == Some((p.0@, p.1@)),
            None => dash_caps(line@) is None,
        },
{
    let d = skip_digits(line, 0);
    if d == 0 || d >= line.len() || line[d] != '.' {
        return None;
    }
    let t0 = d + 1;
    let w = skip_ws(line, t0);
    if w >= line.len() {
        return None;
    }
    let mut e: usize = w + 1;
    loop
        invariant
            w + 1 <= e <= line@.len(),
            w < line@.len(),
            dash_scan(line@, w + 1 as int) == dash_scan(line@, e as int),
            num_prefix(line@) == Some(t0 as int),
            w == ws_end(line@, t0 as int),
        decreases line@.len() - e,
    {
        let p = skip_ws(line, e);
        if p > e && p < line.len() && line[p] == '-' && p + 1 < line.len() && is_space(
            line[p + 1],
        ) && p + 2 < line.len() {
            let desc = sub_vec(line, w, e);
            let craw = sub_vec(line, p + 1, line.len());
            let crit = trim_vec(&craw);
            return Some((desc, crit));
        }
        if e >= line.len() {
            return None;
        }
        e += 1;
    }
}

fn simple_caps_match(line: &Vec<char>) -> (r: Option<Vec<char>>)
    ensures
        match r {
            Some(p) => simple_caps(line@) == Some(p@),
            None => simple_caps(line@) is None,
        },
{
    let d = skip_digits(line, 0);
    if d == 0 || d >= line.len() || line[d] != '.' {
        return None;
    }
    let raw = sub_vec(line, d + 1, line.len());
    let desc = trim_vec(&raw);
    if desc.len() == 0 {
        return None;
    }
    Some(desc)
}

fn is_meta_check(d: &Vec<char>) -> (r: bool)
    ensures
        r == is_meta_desc(d@),
{
    let low = to_lower_vec(d);
    contains_str(&low, "no specific") || contains_str(&low, "goals listed")
}

fn line_goal_match(line: &Vec<char>) -> (r: Option<(Vec<char>, Vec<char>)>)
    ensures
        match r {
            Some(p) => line_goal(line@) == Some((p.0@, p.1@)),
            None => line_goal(line@) is None,
        },
{
    if let Some((d, c)) = pipe_caps_match(line) {
        if d.len() > 0 && c.len() > 0 {
            return Some((d, c));
        }
    }
    if let Some((d, c)) = dash_caps_match(line) {
        if d.len() > 0 && c.len() > 0 {
            return Some((d, c));
        }
    }
    if let Some(d) = simple_caps_match(line) {
        if d.len() > 0 && !is_meta_check(&d) {
            let crit = string_of(&d).concat(" is completed");
            let cv = chars_of(crit.as_str());
            return Some((d, cv));
        }
    }
    None
}

/// Reads goals out of a raw model response, one per matching line, through
/// the three tiers of the goal-list grammar.  Fails only when no line at all
/// yields a goal.
pub fn parse_goals_from_response(response: &str) -> (r: Result<Vec<Goal>, String>)
    ensures
        ({
            let ts = response_goal_texts(response@);
            match r {
                Ok(goals) => ts.len() > 0 && goals_match_texts(goals@, ts),
                Err(e) => ts.len() == 0 && e@ == "Could not parse goals from LLM response: "@
                    + response@,
            }
        }),
{
    let rv = chars_of(response);
    let lines = split_lines(&rv);
    let ghost all = line_split(rv@);
    let mut goals: Vec<Goal> = Vec::new();
    let mut i: usize = 0;
    while i < lines.len()
        invariant
            i <= lines@.len(),
            lines@.len() == all.len(),
            all == line_split(rv@),
            rv@ == response@,
            forall|k: int| 0 <= k < lines@.len() ==> lines@[k]@ == all[k],
            goals_match_texts(goals@, goal_texts_of(all.subrange(0, i as int))),
        decreases lines.len() - i,
    {
        let t = trim_vec(&lines[i]);
        let ghost prefix = all.subrange(0, i as int);
        let ghost prefix2 = all.subrange(0, i + 1);
        proof {
            assert(prefix2.drop_last() =~= prefix);
            assert(prefix2.last() == all[i as int]);
        }
        if t.len() > 0 {
            if let Some((d, c)) = line_goal_match(&t) {
                goals.push(Goal::new(string_of(&d), string_of(&c)));
            }
        }
        i += 1;
    }
    proof {
        assert(all.subrange(0, all.len() as int) =~= all);
    }
    if goals.len() == 0 {
        let msg = String::from_str("Could not parse goals from LLM response: ").concat(response);
        return Err(msg);
    }
    Ok(goals)
}

// ---------------------------------------------------------------------------
// Decomposition
// ---------------------------------------------------------------------------

/// Result of decomposition, with how it was reached.
pub struct DecomposeResult {
    pub goals: Vec<Goal>,
    pub info: DecompositionInfo,
}

/// What decomposing a command comes to before any boundary is touched:
/// either the fast path produced the goals, or one model call is needed and
/// its response goes to `decompose_from_response`.
pub enum DecomposeStart {
    Ready(DecomposeResult),
    NeedModel,
}

/// Decomposes a command as far as the core can alone.  Exactly when a
/// template matches, the result is ready here, with method `"pattern"`: the
/// fast path never involves the model.
pub fn decompose(command: &str) -> (r: DecomposeStart)
    ensures
        ({
            let m = pattern_goal_texts(lower_seq(command@));
            match r {
                DecomposeStart::Ready(res) => {
                    &&& m is Some
                    &&& goals_match_texts(res.goals@, m->Some_0.0)
                    &&& res.info.method@ == "pattern"@
                    &&& res.info.pattern_name matches Some(n) && n@ == m->Some_0.1
                    &&& res.info.original_command@ == command@
                },
                DecomposeStart::NeedModel => m is None,
            }
        }),
{
    match try_pattern_match(command) {
        Some((goals, name)) => DecomposeStart::Ready(
            DecomposeResult {
                goals,
                info: DecompositionInfo {
                    method: String::from_str("pattern"),
                    pattern_name: Some(name),
                    original_command: String::from_str(command),
                },
            },
        ),
        None => DecomposeStart::NeedModel,
    }
}

/// Finishes decomposition from the model's response, when no template
/// matched.  Fails exactly when the goal-list grammar reads no goal at all
/// out of the response; decomposition is never retried internally.
pub fn decompose_from_response(command: &str, response: &str) -> (r: Result<
    DecomposeResult,
    String,
>)
    ensures
        ({
            let ts = response_goal_texts(response@);
            match r {
                Ok(res) => {
                    &&& ts.len() > 0
                    &&& goals_match_texts(res.goals@, ts)
                    &&& res.info.method@ == "llm"@
                    &&& res.info.pattern_name is None
                    &&& res.info.original_command@ == command@
                },
                Err(e) => ts.len() == 0 && e@ == "Could not parse goals from LLM response: "@
                    + response@,
            }
        }),
{
    match parse_goals_from_response(response) {
        Ok(goals) => Ok(
            DecomposeResult {
                goals,
                info: DecompositionInfo {
                    method: String::from_str("llm"),
                    pattern_name: None,
                    original_command: String::from_str(command),
                },
            },
        ),
        Err(e) => Err(e),
    }
}

} // verus!
