//! What the vision boundary reports, and the grammars its free-text replies
//! are read with: coordinate extraction for element finding, and the
//! line-per-element listing of clickable UI elements.

use vstd::prelude::*;

verus! {

/// A single element found on screen, as a centre point in the coordinate
/// space of the image the model saw.
pub struct ScreenElement {
    pub x: i32,
    pub y: i32,
    pub description: String,
}

/// A detected UI element with its bounding box, as the vision model lists
/// them: coordinates are in the space of the (possibly downscaled) image.
#[derive(Clone, Debug)]
pub struct UIElement {
    pub label: String,
    pub element_type: String,
    pub x1: i32,
    pub y1: i32,
    pub x2: i32,
    pub y2: i32,
}

} // verus!

verus! {

// ---------------------------------------------------------------------------
// Coordinate extraction
// ---------------------------------------------------------------------------

/// A separator character between two coordinates: a comma or whitespace.
pub open spec fn is_csep(c: char) -> bool {
    c == ',' || crate::text::is_space_char(c)
}

/// The end of the separator run starting at `i`.
pub open spec fn csep_end(s: Seq<char>, i: int) -> int
    recommends
        0 <= i <= s.len(),
    decreases s.len() - i,
{
    if i < s.len() && is_csep(s[i]) {
        csep_end(s, i + 1)
    } else {
        i
    }
}

fn skip_csep(v: &Vec<char>, i: usize) -> (j: usize)
    requires
        i <= v.len(),
    ensures
        j == csep_end(v@, i as int),
        i <= j <= v@.len(),
{
    let mut j = i;
    while j < v.len() && (v[j] == ',' || crate::text::is_space(v[j]))
        invariant
            i <= j <= v@.len(),
            csep_end(v@, i as int) == csep_end(v@, j as int),
        decreases v.len() - j,
    {
        j += 1;
    }
    j
}

/// The first tier: two runs of digits joined by commas or whitespace.  A
/// run longer than four digits contributes its last four as the first
/// coordinate; the second keeps its first four.
pub open spec fn coord_t1(s: Seq<char>, p: int) -> Option<(int, int)>
    recommends
        0 <= p <= s.len(),
    decreases s.len() - p,
{
    if p >= s.len() {
        None
    } else if !crate::text::is_digit_char(s[p]) {
        coord_t1(s, p + 1)
    } else {
        let e1 = crate::text::digit_end(s, p);
        let c = csep_end(s, e1);
        if c > e1 && c < s.len() && crate::text::is_digit_char(s[c]) {
            let xs = s.subrange(if e1 - p > 4 { e1 - 4 } else { p }, e1);
            let e2 = crate::text::digit_end(s, c);
            let ys = s.subrange(c, if e2 - c > 4 { c + 4 } else { e2 });
            Some((crate::text::digits_val(xs) as int, crate::text::digits_val(ys) as int))
        } else {
            if e1 <= p || e1 > s.len() {
                None
            } else {
                coord_t1(s, e1)
            }
        }
    }
}

fn coord_t1_match(v: &Vec<char>) -> (r: Option<(i32, i32)>)
    ensures
        match r {
            Some(xy) => coord_t1(v@, 0) == Some((xy.0 as int, xy.1 as int)),
            None => coord_t1(v@, 0) is None,
        },
{
    let mut p: usize = 0;
    loop
        invariant
            p <= v@.len(),
            coord_t1(v@, 0) == coord_t1(v@, p as int),
        decreases v@.len() - p,
    {
        if p >= v.len() {
            return None;
        }
        if !crate::text::is_digit(v[p]) {
            p += 1;
            continue ;
        }
        let e1 = crate::text::skip_digits(v, p);
        proof {
            crate::text::lemma_digit_end_all_digits(v@, p + 1);
            assert(crate::text::digit_end(v@, p as int) == crate::text::digit_end(v@, p + 1));
            assert(e1 >= p + 1);
        }
        let c = skip_csep(v, e1);
        if c > e1 && c < v.len() && crate::text::is_digit(v[c]) {
            let xs_from = if e1 - p > 4 {
                e1 - 4
            } else {
                p
            };
            let e2 = crate::text::skip_digits(v, c);
            proof {
                crate::text::lemma_digit_end_all_digits(v@, c + 1);
                assert(crate::text::digit_end(v@, c as int) == crate::text::digit_end(v@, c + 1));
                assert(e2 >= c + 1);
            }
            let ys_to = if e2 - c > 4 {
                c + 4
            } else {
                e2
            };
            proof {
                crate::text::lemma_digit_end_all_digits(v@, p as int);
                crate::text::lemma_digit_end_all_digits(v@, c as int);
                crate::text::lemma_digits_val_lt(v@.subrange(xs_from as int, e1 as int));
                crate::text::lemma_digits_val_lt(v@.subrange(c as int, ys_to as int));
                assert(crate::text::p10(0) == 1);
                assert(crate::text::p10(1) == 10);
                assert(crate::text::p10(2) == 100);
                assert(crate::text::p10(3) == 1000);
                assert(crate::text::p10(4) == 10000);
            }
            let x = match crate::text::parse_u64_digits(v, xs_from, e1) {
                Some(n) => n,
                None => {
                    proof {
                        assert(false);
                    }
                    0
                },
            };
            let y = match crate::text::parse_u64_digits(v, c, ys_to) {
                Some(n) => n,
                None => {
                    proof {
                        assert(false);
                    }
                    0
                },
            };
            return Some((x as i32, y as i32));
        }
        p = e1;
    }
}

} // verus!

verus! {

// ---------------------------------------------------------------------------
// Coordinate extraction, tiers two and three
// ---------------------------------------------------------------------------

/// `x = <digits>` (or `x: <digits>`) starting exactly at `p`: the digits
/// and the position after them.
pub open spec fn xynum_at(s: Seq<char>, p: int, tag: char) -> Option<(int, int)>
    recommends
        0 <= p <= s.len(),
{
    if p >= s.len() || s[p] != tag {
        None
    } else {
        let w1 = crate::text::ws_end(s, p + 1);
        if !(w1 < s.len() && (s[w1] == '=' || s[w1] == ':')) {
            None
        } else {
            let w2 = crate::text::ws_end(s, w1 + 1);
            if !(w2 < s.len() && crate::text::is_digit_char(s[w2])) {
                None
            } else {
                let e = crate::text::digit_end(s, w2);
                Some((w2, e))
            }
        }
    }
}

/// The first `y = <digits>` at or after `q`, on the same line.
pub open spec fn t2_y_scan(s: Seq<char>, q: int) -> Option<(int, int)>
    recommends
        0 <= q <= s.len(),
    decreases s.len() - q,
{
    if q >= s.len() {
        None
    } else {
        match xynum_at(s, q, 'y') {
            Some(r) => Some(r),
            None => if s[q] == '\n' {
                None
            } else {
                t2_y_scan(s, q + 1)
            },
        }
    }
}

/// The second tier: the leftmost `x = <digits>` that is followed, on the
/// same line, by `y = <digits>`; both full digit runs.
pub open spec fn t2_scan(s: Seq<char>, p: int) -> Option<((int, int), (int, int))>
    recommends
        0 <= p <= s.len(),
    decreases s.len() - p,
{
    if p >= s.len() {
        None
    } else {
        let m = match xynum_at(s, p, 'x') {
            Some((xs, xe)) => {
                if xe < p || xe > s.len() {
                    None
                } else {
                    match t2_y_scan(s, xe) {
                        Some(yr) => Some(((xs, xe), yr)),
                        None => None,
                    }
                }
            },
            None => None,
        };
        match m {
            Some(r) => Some(r),
            None => t2_scan(s, p + 1),
        }
    }
}

/// A coordinate value read from a full digit run: the number when it fits
/// `i32`, else nothing (the tier then falls through).
pub open spec fn run_val(s: Seq<char>, from: int, to: int) -> Option<int> {
    let v = crate::text::digits_val(s.subrange(from, to));
    if v <= 0x7fffffff {
        Some(v as int)
    } else {
        None
    }
}

pub open spec fn coord_t2(s: Seq<char>) -> Option<(Option<int>, Option<int>)> {
    match t2_scan(s, 0) {
        Some(((xs, xe), (ys, ye))) => Some((run_val(s, xs, xe), run_val(s, ys, ye))),
        None => None,
    }
}

fn xynum_check(v: &Vec<char>, p: usize, tag: char) -> (r: Option<(usize, usize)>)
    requires
        p <= v.len(),
    ensures
        match r {
            Some(pr) => xynum_at(v@, p as int, tag) == Some((pr.0 as int, pr.1 as int)) && p
                < pr.0 < pr.1 <= v.len() && forall|j: int|
                pr.0 <= j < pr.1 ==> crate::text::is_digit_char(v@[j]),
            None => xynum_at(v@, p as int, tag) is None,
        },
{
    if p >= v.len() || v[p] != tag {
        return None;
    }
    let w1 = crate::text::skip_ws(v, p + 1);
    if !(w1 < v.len() && (v[w1] == '=' || v[w1] == ':')) {
        return None;
    }
    let w2 = crate::text::skip_ws(v, w1 + 1);
    if !(w2 < v.len() && crate::text::is_digit(v[w2])) {
        return None;
    }
    let e = crate::text::skip_digits(v, w2);
    proof {
        crate::text::lemma_digit_end_all_digits(v@, w2 as int);
        crate::text::lemma_digit_end_all_digits(v@, w2 + 1);
        assert(crate::text::digit_end(v@, w2 as int) == crate::text::digit_end(v@, w2 + 1));
        assert(e >= w2 + 1);
    }
    Some((w2, e))
}

fn t2_y_match(v: &Vec<char>, from: usize) -> (r: Option<(usize, usize)>)
    requires
        from <= v.len(),
    ensures
        match r {
            Some(pr) => t2_y_scan(v@, from as int) == Some((pr.0 as int, pr.1 as int)) && pr.0
                < pr.1 <= v.len() && forall|j: int|
                pr.0 <= j < pr.1 ==> crate::text::is_digit_char(v@[j]),
            None => t2_y_scan(v@, from as int) is None,
        },
{
    let mut q: usize = from;
    loop
        invariant
            from <= q <= v@.len(),
            t2_y_scan(v@, from as int) == t2_y_scan(v@, q as int),
        decreases v@.len() - q,
    {
        if q >= v.len() {
            return None;
        }
        if let Some(pr) = xynum_check(v, q, 'y') {
            return Some(pr);
        }
        if v[q] == '\n' {
            return None;
        }
        q += 1;
    }
}

fn t2_match(v: &Vec<char>) -> (r: Option<((usize, usize), (usize, usize))>)
    ensures
        match r {
            Some(pr) => t2_scan(v@, 0) == Some(
                (
                    (pr.0.0 as int, pr.0.1 as int),
                    (pr.1.0 as int, pr.1.1 as int),
                ),
            ) && pr.0.0 < pr.0.1 <= v.len() && pr.1.0 < pr.1.1 <= v.len() && (forall|j: int|
                pr.0.0 <= j < pr.0.1 ==> crate::text::is_digit_char(v@[j])) && (forall|j: int|
                pr.1.0 <= j < pr.1.1 ==> crate::text::is_digit_char(v@[j])),
            None => t2_scan(v@, 0) is None,
        },
{
    let mut p: usize = 0;
    loop
        invariant
            p <= v@.len(),
            t2_scan(v@, 0) == t2_scan(v@, p as int),
        decreases v@.len() - p,
    {
        if p >= v.len() {
            return None;
        }
        if let Some((xs, xe)) = xynum_check(v, p, 'x') {
            match t2_y_match(v, xe) {
                Some((ys, ye)) => {
                    return Some(((xs, xe), (ys, ye)));
                },
                None => {},
            }
        }
        p += 1;
    }
}

/// The third tier: `(<digits>, <digits>)`, the leftmost such pair.
pub open spec fn t3_at(s: Seq<char>, p: int) -> Option<((int, int), (int, int))>
    recommends
        0 <= p <= s.len(),
{
    if p >= s.len() || s[p] != '(' {
        None
    } else {
        let d1 = p + 1;
        if !(d1 < s.len() && crate::text::is_digit_char(s[d1])) {
            None
        } else {
            let e1 = crate::text::digit_end(s, d1);
            let c = csep_end(s, e1);
            if !(c > e1 && c < s.len() && crate::text::is_digit_char(s[c])) {
                None
            } else {
                let e2 = crate::text::digit_end(s, c);
                if e2 < s.len() && s[e2] == ')' {
                    Some(((d1, e1), (c, e2)))
                } else {
                    None
                }
            }
        }
    }
}

pub open spec fn t3_scan(s: Seq<char>, p: int) -> Option<((int, int), (int, int))>
    recommends
        0 <= p <= s.len(),
    decreases s.len() - p,
{
    if p >= s.len() {
        None
    } else {
        match t3_at(s, p) {
            Some(r) => Some(r),
            None => t3_scan(s, p + 1),
        }
    }
}

pub open spec fn coord_t3(s: Seq<char>) -> Option<(Option<int>, Option<int>)> {
    match t3_scan(s, 0) {
        Some(((xs, xe), (ys, ye))) => Some((run_val(s, xs, xe), run_val(s, ys, ye))),
        None => None,
    }
}

fn t3_check(v: &Vec<char>, p: usize) -> (r: Option<((usize, usize), (usize, usize))>)
    requires
        p <= v.len(),
    ensures
        match r {
            Some(pr) => t3_at(v@, p as int) == Some(
                (
                    (pr.0.0 as int, pr.0.1 as int),
                    (pr.1.0 as int, pr.1.1 as int),
                ),
            ) && pr.0.0 < pr.0.1 <= v.len() && pr.1.0 < pr.1.1 <= v.len() && (forall|j: int|
                pr.0.0 <= j < pr.0.1 ==> crate::text::is_digit_char(v@[j])) && (forall|j: int|
                pr.1.0 <= j < pr.1.1 ==> crate::text::is_digit_char(v@[j])),
            None => t3_at(v@, p as int) is None,
        },
{
    if p >= v.len() || v[p] != '(' {
        return None;
    }
    let d1 = p + 1;
    if !(d1 < v.len() && crate::text::is_digit(v[d1])) {
        return None;
    }
    let e1 = crate::text::skip_digits(v, d1);
    proof {
        crate::text::lemma_digit_end_all_digits(v@, d1 as int);
        crate::text::lemma_digit_end_all_digits(v@, d1 + 1);
        assert(crate::text::digit_end(v@, d1 as int) == crate::text::digit_end(v@, d1 + 1));
        assert(e1 >= d1 + 1);
    }
    let c = skip_csep(v, e1);
    if !(c > e1 && c < v.len() && crate::text::is_digit(v[c])) {
        return None;
    }
    let e2 = crate::text::skip_digits(v, c);
    proof {
        crate::text::lemma_digit_end_all_digits(v@, c as int);
        crate::text::lemma_digit_end_all_digits(v@, c + 1);
        assert(crate::text::digit_end(v@, c as int) == crate::text::digit_end(v@, c + 1));
        assert(e2 >= c + 1);
    }
    if e2 < v.len() && v[e2] == ')' {
        Some(((d1, e1), (c, e2)))
    } else {
        None
    }
}

fn t3_match(v: &Vec<char>) -> (r: Option<((usize, usize), (usize, usize))>)
    ensures
        match r {
            Some(pr) => t3_scan(v@, 0) == Some(
                (
                    (pr.0.0 as int, pr.0.1 as int),
                    (pr.1.0 as int, pr.1.1 as int),
                ),
            ) && pr.0.0 < pr.0.1 <= v.len() && pr.1.0 < pr.1.1 <= v.len() && (forall|j: int|
                pr.0.0 <= j < pr.0.1 ==> crate::text::is_digit_char(v@[j])) && (forall|j: int|
                pr.1.0 <= j < pr.1.1 ==> crate::text::is_digit_char(v@[j])),
            None => t3_scan(v@, 0) is None,
        },
{
    let mut p: usize = 0;
    loop
        invariant
            p <= v@.len(),
            t3_scan(v@, 0) == t3_scan(v@, p as int),
        decreases v@.len() - p,
    {
        if p >= v.len() {
            return None;
        }
        if let Some(r) = t3_check(v, p) {
            return Some(r);
        }
        p += 1;
    }
}

/// What the three coordinate tiers, in order, make of a raw response.
pub open spec fn coords_spec(resp: Seq<char>) -> Option<(int, int)> {
    match coord_t1(resp, 0) {
        Some(xy) => Some(xy),
        None => {
            let t2 = coord_t2(resp);
            if t2 matches Some((Some(x), Some(y))) {
                Some((t2->Some_0.0->Some_0, t2->Some_0.1->Some_0))
            } else {
                let t3 = coord_t3(resp);
                if t3 matches Some((Some(x), Some(y))) {
                    Some((t3->Some_0.0->Some_0, t3->Some_0.1->Some_0))
                } else {
                    None
                }
            }
        },
    }
}

fn run_val_match(v: &Vec<char>, from: usize, to: usize) -> (r: Option<i32>)
    requires
        from < to <= v.len(),
        forall|j: int| from <= j < to ==> crate::text::is_digit_char(v@[j]),
    ensures
        match r {
            Some(n) => run_val(v@, from as int, to as int) == Some(n as int),
            None => run_val(v@, from as int, to as int) is None,
        },
{
    match crate::text::parse_u64_digits(v, from, to) {
        Some(n) => if n <= 0x7fffffff {
            Some(n as i32)
        } else {
            None
        },
        None => None,
    }
}

/// Reads centre coordinates out of a find-element response, through the
/// three tiers in their priority order: adjacent numbers, `x = .. y = ..`,
/// then a parenthesised pair.
pub fn parse_coordinates(response: &str, description: &str) -> (r: Result<ScreenElement, String>)
    ensures
        ({
            match r {
                Ok(el) => coords_spec(response@) matches Some(xy) && el.x as int == xy.0
                    && el.y as int == xy.1 && el.description@ == description@,
                Err(e) => coords_spec(response@) is None && e@
                    == "Could not parse coordinates from: '"@ + crate::text::trim_spec(response@)
                    + "'"@,
            }
        }),
{
    let rv = crate::text::chars_of(response);
    if let Some((x, y)) = coord_t1_match(&rv) {
        return Ok(ScreenElement { x, y, description: String::from_str(description) });
    }
    if let Some(((xs, xe), (ys, ye))) = t2_match(&rv) {
        let xv = run_val_match(&rv, xs, xe);
        let yv = run_val_match(&rv, ys, ye);
        if let (Some(x), Some(y)) = (xv, yv) {
            return Ok(ScreenElement { x, y, description: String::from_str(description) });
        }
    }
    if let Some(((xs, xe), (ys, ye))) = t3_match(&rv) {
        let xv = run_val_match(&rv, xs, xe);
        let yv = run_val_match(&rv, ys, ye);
        if let (Some(x), Some(y)) = (xv, yv) {
            return Ok(ScreenElement { x, y, description: String::from_str(description) });
        }
    }
    let t = crate::text::trim_vec(&rv);
    let msg = String::from_str("Could not parse coordinates from: '").concat(
        crate::text::string_of(&t).as_str(),
    ).concat("'");
    Err(msg)
}

} // verus!

verus! {

// ---------------------------------------------------------------------------
// The element-listing grammar: `TYPE | LABEL | X1, Y1, X2, Y2`
// ---------------------------------------------------------------------------

/// A digit run starting exactly at `i`.
pub open spec fn num_at(s: Seq<char>, i: int) -> Option<(int, int)>
    recommends
        0 <= i <= s.len(),
{
    if i < s.len() && crate::text::is_digit_char(s[i]) {
        Some((i, crate::text::digit_end(s, i)))
    } else {
        None
    }
}

/// `, <digits>` after position `e`, with whitespace around the comma.
pub open spec fn next_num(s: Seq<char>, e: int) -> Option<(int, int)>
    recommends
        0 <= e <= s.len(),
{
    let w = crate::text::ws_end(s, e);
    if !(w < s.len() && s[w] == ',') {
        None
    } else {
        num_at(s, crate::text::ws_end(s, w + 1))
    }
}

/// Four comma-separated digit runs from `i`.
pub open spec fn nums4_from(s: Seq<char>, i: int) -> Option<
    ((int, int), (int, int), (int, int), (int, int)),
>
    recommends
        0 <= i <= s.len(),
{
    match num_at(s, i) {
        None => None,
        Some(r1) => if r1.1 < 0 || r1.1 > s.len() {
            None
        } else {
            match next_num(s, r1.1) {
                None => None,
                Some(r2) => if r2.1 < 0 || r2.1 > s.len() {
                    None
                } else {
                    match next_num(s, r2.1) {
                        None => None,
                        Some(r3) => if r3.1 < 0 || r3.1 > s.len() {
                            None
                        } else {
                            match next_num(s, r3.1) {
                                None => None,
                                Some(r4) => Some((r1, r2, r3, r4)),
                            }
                        },
                    }
                },
            }
        },
    }
}

/// Two comma-separated digit runs from `i`.
pub open spec fn nums2_from(s: Seq<char>, i: int) -> Option<((int, int), (int, int))>
    recommends
        0 <= i <= s.len(),
{
    match num_at(s, i) {
        None => None,
        Some(r1) => if r1.1 < 0 || r1.1 > s.len() {
            None
        } else {
            match next_num(s, r1.1) {
                None => None,
                Some(r2) => Some((r1, r2)),
            }
        },
    }
}

/// Whether the label capture can end at `e`, for the bounding-box tier:
/// whitespace, a bar, and four numbers.
pub open spec fn bbox_break_at(line: Seq<char>, e: int) -> bool
    recommends
        0 <= e <= line.len(),
{
    let w = crate::text::ws_end(line, e);
    w < line.len() && line[w] == '|' && nums4_from(line, crate::text::ws_end(line, w + 1))
        is Some
}

pub open spec fn bbox_label_scan(line: Seq<char>, e: int) -> Option<int>
    recommends
        0 <= e <= line.len(),
    decreases line.len() - e,
{
    if bbox_break_at(line, e) {
        Some(e)
    } else if e >= line.len() {
        None
    } else {
        bbox_label_scan(line, e + 1)
    }
}

/// Same, for the centre-point tier: a bar and two numbers.
pub open spec fn center_break_at(line: Seq<char>, e: int) -> bool
    recommends
        0 <= e <= line.len(),
{
    let w = crate::text::ws_end(line, e);
    w < line.len() && line[w] == '|' && nums2_from(line, crate::text::ws_end(line, w + 1))
        is Some
}

pub open spec fn center_label_scan(line: Seq<char>, e: int) -> Option<int>
    recommends
        0 <= e <= line.len(),
    decreases line.len() - e,
{
    if center_break_at(line, e) {
        Some(e)
    } else if e >= line.len() {
        None
    } else {
        center_label_scan(line, e + 1)
    }
}

/// The start of the element line's pattern: the first word run followed by
/// whitespace and a bar.  Returns the run's bounds and the label start.
pub open spec fn type_run_scan(line: Seq<char>, p: int) -> Option<(int, int, int)>
    recommends
        0 <= p <= line.len(),
    decreases line.len() - p,
{
    if p >= line.len() {
        None
    } else if !crate::text::is_word_char(line[p]) {
        type_run_scan(line, p + 1)
    } else {
        let e = crate::text::word_end(line, p);
        if e <= p || e > line.len() {
            None
        } else {
            let w = crate::text::ws_end(line, e);
            if w < line.len() && line[w] == '|' {
                Some((p, e, crate::text::ws_end(line, w + 1)))
            } else {
                type_run_scan(line, e)
            }
        }
    }
}

/// A coordinate as the listing grammar reads it: the run's number when it
/// fits, else the fallback 0.
pub open spec fn val_or0(s: Seq<char>, run: (int, int)) -> int {
    if crate::text::digits_val(s.subrange(run.0, run.1)) <= 0x7fffffff {
        crate::text::digits_val(s.subrange(run.0, run.1)) as int
    } else {
        0
    }
}

/// The spec-level shape of one listed element.
pub struct ElementShape {
    pub element_type: Seq<char>,
    pub label: Seq<char>,
    pub x1: int,
    pub y1: int,
    pub x2: int,
    pub y2: int,
}

/// A centre coordinate pushed out by the default element size, capped at
/// the coordinate range.
pub open spec fn sat_add(c: int, d: int) -> int {
    if c + d > 0x7fffffff {
        0x7fffffff
    } else {
        c + d
    }
}

/// What one (trimmed) line of the listing contributes: a bounding box when
/// the four-number tier matches with a usable box, else a default-sized box
/// around a centre point, else nothing.
pub open spec fn line_element(line: Seq<char>) -> Option<ElementShape> {
    let bb = {
        match type_run_scan(line, 0) {
            None => None,
            Some((tp, te, lw)) => if lw < 0 || lw + 1 > line.len() {
                None
            } else {
                match bbox_label_scan(line, lw + 1) {
                    None => None,
                    Some(le) => {
                        let w = crate::text::ws_end(line, le);
                        match nums4_from(line, crate::text::ws_end(line, w + 1)) {
                            None => None,
                            Some((r1, r2, r3, r4)) => {
                                let x1 = val_or0(line, r1);
                                let y1 = val_or0(line, r2);
                                let x2 = val_or0(line, r3);
                                let y2 = val_or0(line, r4);
                                if x1 > 0 || y1 > 0 || x2 > 0 || y2 > 0 {
                                    Some(
                                        ElementShape {
                                            element_type: crate::text::lower_seq(
                                                line.subrange(tp, te),
                                            ),
                                            label: line.subrange(lw, le),
                                            x1,
                                            y1,
                                            x2,
                                            y2,
                                        },
                                    )
                                } else {
                                    None
                                }
                            },
                        }
                    },
                }
            },
        }
    };
    if bb is Some {
        bb
    } else {
        match type_run_scan(line, 0) {
            None => None,
            Some((tp, te, lw)) => if lw < 0 || lw + 1 > line.len() {
                None
            } else {
                match center_label_scan(line, lw + 1) {
                    None => None,
                    Some(le) => {
                        let w = crate::text::ws_end(line, le);
                        match nums2_from(line, crate::text::ws_end(line, w + 1)) {
                            None => None,
                            Some((r1, r2)) => {
                                let cx = val_or0(line, r1);
                                let cy = val_or0(line, r2);
                                if cx > 0 || cy > 0 {
                                    Some(
                                        ElementShape {
                                            element_type: crate::text::lower_seq(
                                                line.subrange(tp, te),
                                            ),
                                            label: line.subrange(lw, le),
                                            x1: cx - 25,
                                            y1: cy - 15,
                                            x2: sat_add(cx, 25),
                                            y2: sat_add(cy, 15),
                                        },
                                    )
                                } else {
                                    None
                                }
                            },
                        }
                    },
                }
            },
        }
    }
}

pub open spec fn element_matches(e: UIElement, sh: ElementShape) -> bool {
    &&& e.element_type@ == sh.element_type
    &&& e.label@ == sh.label
    &&& e.x1 as int == sh.x1
    &&& e.y1 as int == sh.y1
    &&& e.x2 as int == sh.x2
    &&& e.y2 as int == sh.y2
}

/// Every element the listing grammar reads out of a response, line by line.
pub open spec fn elements_of(lines: Seq<Seq<char>>) -> Seq<ElementShape>
    decreases lines.len(),
{
    if lines.len() == 0 {
        Seq::empty()
    } else {
        elements_of(lines.drop_last()) + ({
            let t = crate::text::trim_spec(lines.last());
            if t.len() == 0 {
                Seq::<ElementShape>::empty()
            } else {
                match line_element(t) {
                    Some(sh) => seq![sh],
                    None => Seq::<ElementShape>::empty(),
                }
            }
        })
    }
}

pub open spec fn elements_match(es: Seq<UIElement>, shs: Seq<ElementShape>) -> bool {
    es.len() == shs.len() && forall|i: int|
        0 <= i < shs.len() ==> element_matches(es[i], #[trigger] shs[i])
}

} // verus!

verus! {

fn num_check(v: &Vec<char>, i: usize) -> (r: Option<(usize, usize)>)
    requires
        i <= v.len(),
    ensures
        match r {
            Some(p) => num_at(v@, i as int) == Some((p.0 as int, p.1 as int)) && i == p.0 < p.1
                <= v.len() && forall|j: int|
                p.0 <= j < p.1 ==> crate::text::is_digit_char(v@[j]),
            None => num_at(v@, i as int) is None,
        },
{
    if !(i < v.len() && crate::text::is_digit(v[i])) {
        return None;
    }
    let e = crate::text::skip_digits(v, i);
    proof {
        crate::text::lemma_digit_end_all_digits(v@, i as int);
        crate::text::lemma_digit_end_all_digits(v@, i + 1);
        assert(crate::text::digit_end(v@, i as int) == crate::text::digit_end(v@, i + 1));
        assert(e >= i + 1);
    }
    Some((i, e))
}

fn next_num_check(v: &Vec<char>, e: usize) -> (r: Option<(usize, usize)>)
    requires
        e <= v.len(),
    ensures
        match r {
            Some(p) => next_num(v@, e as int) == Some((p.0 as int, p.1 as int)) && p.0 < p.1
                <= v.len() && forall|j: int|
                p.0 <= j < p.1 ==> crate::text::is_digit_char(v@[j]),
            None => next_num(v@, e as int) is None,
        },
{
    let w = crate::text::skip_ws(v, e);
    if !(w < v.len() && v[w] == ',') {
        return None;
    }
    let i = crate::text::skip_ws(v, w + 1);
    num_check(v, i)
}

fn nums4_check(v: &Vec<char>, i: usize) -> (r: Option<
    ((usize, usize), (usize, usize), (usize, usize), (usize, usize)),
>)
    requires
        i <= v.len(),
    ensures
        match r {
            Some(p) => nums4_from(v@, i as int) == Some(
                (
                    (p.0.0 as int, p.0.1 as int),
                    (p.1.0 as int, p.1.1 as int),
                    (p.2.0 as int, p.2.1 as int),
                    (p.3.0 as int, p.3.1 as int),
                ),
            ) && (forall|j: int| p.0.0 <= j < p.0.1 ==> crate::text::is_digit_char(v@[j])) && (
            forall|j: int| p.1.0 <= j < p.1.1 ==> crate::text::is_digit_char(v@[j])) && (forall|
                j: int,
            | p.2.0 <= j < p.2.1 ==> crate::text::is_digit_char(v@[j])) && (forall|j: int|
                p.3.0 <= j < p.3.1 ==> crate::text::is_digit_char(v@[j])) && p.0.0 < p.0.1
                <= v.len() && p.1.0 < p.1.1 <= v.len() && p.2.0 < p.2.1 <= v.len() && p.3.0
                < p.3.1 <= v.len(),
            None => nums4_from(v@, i as int) is None,
        },
{
    let r1 = match num_check(v, i) {
        Some(r) => r,
        None => {
            return None;
        },
    };
    let r2 = match next_num_check(v, r1.1) {
        Some(r) => r,
        None => {
            return None;
        },
    };
    let r3 = match next_num_check(v, r2.1) {
        Some(r) => r,
        None => {
            return None;
        },
    };
    let r4 = match next_num_check(v, r3.1) {
        Some(r) => r,
        None => {
            return None;
        },
    };
    Some((r1, r2, r3, r4))
}

fn nums2_check(v: &Vec<char>, i: usize) -> (r: Option<((usize, usize), (usize, usize))>)
    requires
        i <= v.len(),
    ensures
        match r {
            Some(p) => nums2_from(v@, i as int) == Some(
                ((p.0.0 as int, p.0.1 as int), (p.1.0 as int, p.1.1 as int)),
            ) && (forall|j: int| p.0.0 <= j < p.0.1 ==> crate::text::is_digit_char(v@[j])) && (
            forall|j: int| p.1.0 <= j < p.1.1 ==> crate::text::is_digit_char(v@[j])) && p.0.0
                < p.0.1 <= v.len() && p.1.0 < p.1.1 <= v.len(),
            None => nums2_from(v@, i as int) is None,
        },
{
    let r1 = match num_check(v, i) {
        Some(r) => r,
        None => {
            return None;
        },
    };
    let r2 = match next_num_check(v, r1.1) {
        Some(r) => r,
        None => {
            return None;
        },
    };
    Some((r1, r2))
}

fn bbox_label_match(v: &Vec<char>, from: usize) -> (r: Option<usize>)
    requires
        from <= v.len(),
    ensures
        match r {
            Some(e) => bbox_label_scan(v@, from as int) == Some(e as int) && from <= e
                <= v.len() && bbox_break_at(v@, e as int),
            None => bbox_label_scan(v@, from as int) is None,
        },
{
    let mut e: usize = from;
    loop
        invariant
            from <= e <= v@.len(),
            bbox_label_scan(v@, from as int) == bbox_label_scan(v@, e as int),
        decreases v@.len() - e,
    {
        let w = crate::text::skip_ws(v, e);
        if w < v.len() && v[w] == '|' {
            let i0 = crate::text::skip_ws(v, w + 1);
            if nums4_check(v, i0).is_some() {
                return Some(e);
            }
        }
        if e >= v.len() {
            return None;
        }
        e += 1;
    }
}

fn center_label_match(v: &Vec<char>, from: usize) -> (r: Option<usize>)
    requires
        from <= v.len(),
    ensures
        match r {
            Some(e) => center_label_scan(v@, from as int) == Some(e as int) && from <= e
                <= v.len() && center_break_at(v@, e as int),
            None => center_label_scan(v@, from as int) is None,
        },
{
    let mut e: usize = from;
    loop
        invariant
            from <= e <= v@.len(),
            center_label_scan(v@, from as int) == center_label_scan(v@, e as int),
        decreases v@.len() - e,
    {
        let w = crate::text::skip_ws(v, e);
        if w < v.len() && v[w] == '|' {
            let i0 = crate::text::skip_ws(v, w + 1);
            if nums2_check(v, i0).is_some() {
                return Some(e);
            }
        }
        if e >= v.len() {
            return None;
        }
        e += 1;
    }
}

fn type_run_match(v: &Vec<char>) -> (r: Option<(usize, usize, usize)>)
    ensures
        match r {
            Some(p) => type_run_scan(v@, 0) == Some((p.0 as int, p.1 as int, p.2 as int)) && p.0
                < p.1 <= v.len() && p.2 <= v.len(),
            None => type_run_scan(v@, 0) is None,
        },
{
    let mut p: usize = 0;
    loop
        invariant
            p <= v@.len(),
            type_run_scan(v@, 0) == type_run_scan(v@, p as int),
        decreases v@.len() - p,
    {
        if p >= v.len() {
            return None;
        }
        if !crate::text::is_word(v[p]) {
            p += 1;
            continue ;
        }
        let e = crate::text::skip_word(v, p);
        proof {
            crate::text::lemma_word_end_bounds(v@, p + 1);
            assert(crate::text::word_end(v@, p as int) == crate::text::word_end(v@, p + 1));
            assert(e >= p + 1);
        }
        let w = crate::text::skip_ws(v, e);
        if w < v.len() && v[w] == '|' {
            let lw = crate::text::skip_ws(v, w + 1);
            return Some((p, e, lw));
        }
        proof {
            assert(e > p);
        }
        p = e;
    }
}

fn val_or0_of(v: &Vec<char>, run: (usize, usize)) -> (r: i32)
    requires
        run.0 < run.1 <= v.len(),
        forall|j: int| run.0 <= j < run.1 ==> crate::text::is_digit_char(v@[j]),
    ensures
        r as int == val_or0(v@, (run.0 as int, run.1 as int)),
{
    match crate::text::parse_u64_digits(v, run.0, run.1) {
        Some(n) => if n <= 0x7fffffff {
            n as i32
        } else {
            0
        },
        None => 0,
    }
}

fn line_element_match(line: &Vec<char>) -> (r: Option<UIElement>)
    ensures
        match r {
            Some(e) => line_element(line@) matches Some(sh) && element_matches(e, sh),
            None => line_element(line@) is None,
        },
{
    let (tp, te, lw) = match type_run_match(line) {
        Some(t) => t,
        None => {
            return None;
        },
    };
    if lw >= line.len() {
        return None;
    }
    let etype_raw = crate::text::sub_vec(line, tp, te);
    let etype = crate::text::to_lower_vec(&etype_raw);
    if let Some(le) = bbox_label_match(line, lw + 1) {
        let w = crate::text::skip_ws(line, le);
        let i0 = crate::text::skip_ws(line, w + 1);
        if let Some((r1, r2, r3, r4)) = nums4_check(line, i0) {
            let x1 = val_or0_of(line, r1);
            let y1 = val_or0_of(line, r2);
            let x2 = val_or0_of(line, r3);
            let y2 = val_or0_of(line, r4);
            if x1 > 0 || y1 > 0 || x2 > 0 || y2 > 0 {
                let label = crate::text::sub_vec(line, lw, le);
                return Some(
                    UIElement {
                        label: crate::text::string_of(&label),
                        element_type: crate::text::string_of(&etype),
                        x1,
                        y1,
                        x2,
                        y2,
                    },
                );
            }
        }
    }
    if let Some(le) = center_label_match(line, lw + 1) {
        let w = crate::text::skip_ws(line, le);
        let i0 = crate::text::skip_ws(line, w + 1);
        if let Some((r1, r2)) = nums2_check(line, i0) {
            let cx = val_or0_of(line, r1);
            let cy = val_or0_of(line, r2);
            if cx > 0 || cy > 0 {
                let label = crate::text::sub_vec(line, lw, le);
                let x2 = if cx > 0x7fffffff - 25 {
                    0x7fffffff
                } else {
                    cx + 25
                };
                let y2 = if cy > 0x7fffffff - 15 {
                    0x7fffffff
                } else {
                    cy + 15
                };
                return Some(
                    UIElement {
                        label: crate::text::string_of(&label),
                        element_type: crate::text::string_of(&etype),
                        x1: cx - 25,
                        y1: cy - 15,
                        x2,
                        y2,
                    },
                );
            }
        }
    }
    None
}

/// Reads the element listing out of a vision response, one element per
/// matching line: a full bounding box when four coordinates are given, or a
/// default-sized box around a centre point.
pub fn parse_ui_elements(response: &str) -> (r: Vec<UIElement>)
    ensures
        elements_match(r@, elements_of(crate::text::line_split(response@))),
{
    let rv = crate::text::chars_of(response);
    let lines = crate::text::split_lines(&rv);
    let ghost all = crate::text::line_split(rv@);
    let mut out: Vec<UIElement> = Vec::new();
    let mut i: usize = 0;
    while i < lines.len()
        invariant
            i <= lines@.len(),
            lines@.len() == all.len(),
            all == crate::text::line_split(rv@),
            rv@ == response@,
            forall|k: int| 0 <= k < lines@.len() ==> lines@[k]@ == all[k],
            elements_match(out@, elements_of(all.subrange(0, i as int))),
        decreases lines.len() - i,
    {
        let ghost pre = all.subrange(0, i as int);
        let ghost pre2 = all.subrange(0, i + 1);
        proof {
            assert(pre2.drop_last() =~= pre);
            assert(pre2.last() == all[i as int]);
        }
        let t = crate::text::trim_vec(&lines[i]);
        if t.len() > 0 {
            if let Some(e) = line_element_match(&t) {
                out.push(e);
            }
        }
        i += 1;
    }
    proof {
        assert(all.subrange(0, all.len() as int) =~= all);
    }
    out
}

} // verus!
