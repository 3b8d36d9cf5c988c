//! A small JSON reader for the tool-call grammar.
//!
//! The model is asked for JSON arrays of `{"tool": ..., "params": {...}}`
//! objects; this module parses exactly that shape of JSON: objects, arrays,
//! strings with the single-character escapes, integers, `true`, `false` and
//! `null`.  Numbers with a fraction or exponent, and numbers too large for
//! the integer range, parse as structure but carry no extractable integer;
//! `\u` escapes are not accepted.  Every step of the parser is specified by
//! the spec-level mirror alongside it.

use vstd::prelude::*;

use crate::text::{is_digit, is_digit_char, digit_end, digits_val, parse_u64_digits, skip_digits, skip_ws, ws_end};

verus! {

/// A parsed JSON value.
pub enum Json {
    Null,
    Bool(bool),
    /// An integer: a sign and a magnitude.  A negative magnitude never
    /// exceeds `2^63`, so every value fits `i64` or (non-negative) `u64`.
    Num { neg: bool, mag: u64 },
    /// A syntactically valid number that is not an exact integer in range.
    BigNum,
    Str(String),
    Arr(Vec<Json>),
    Obj(Vec<(String, Json)>),
}

/// The mathematical shape of a JSON value.
pub enum JsonModel {
    Null,
    Bool(bool),
    Num { neg: bool, mag: nat },
    BigNum,
    Str(Seq<char>),
    Arr(Seq<JsonModel>),
    Obj(Seq<(Seq<char>, JsonModel)>),
}

/// How a parsed value relates to its model.
pub open spec fn json_rel(j: Json, m: JsonModel) -> bool
    decreases j,
{
    match j {
        Json::Null => m is Null,
        Json::Bool(b) => m == JsonModel::Bool(b),
        Json::Num { neg, mag } => m == (JsonModel::Num { neg, mag: mag as nat }),
        Json::BigNum => m is BigNum,
        Json::Str(s) => m matches JsonModel::Str(t) && s@ == t,
        Json::Arr(v) => m matches JsonModel::Arr(ms) && v@.len() == ms.len() && (forall|i: int|
            0 <= i < ms.len() ==> json_rel(v@[i], #[trigger] ms[i])),
        Json::Obj(fs) => m matches JsonModel::Obj(ms) && fs@.len() == ms.len() && (forall|i: int|
            0 <= i < ms.len() ==> fs@[i].0@ == (#[trigger] ms[i]).0 && json_rel(fs@[i].1, ms[i].1)),
    }
}

// ---------------------------------------------------------------------------
// The grammar, spec side
// ---------------------------------------------------------------------------

/// What a `\X` escape denotes.
pub open spec fn escape_char(c: char) -> Option<char> {
    if c == '"' {
        Some('"')
    } else if c == '\\' {
        Some('\\')
    } else if c == '/' {
        Some('/')
    } else if c == 'b' {
        Some(8 as char)
    } else if c == 'f' {
        Some(12 as char)
    } else if c == 'n' {
        Some('\n')
    } else if c == 'r' {
        Some('\r')
    } else if c == 't' {
        Some('\t')
    } else {
        None
    }
}

/// The characters of a string body starting at `i` (after the opening
/// quote), and the position after the closing quote.
pub open spec fn sp_str_chars(s: Seq<char>, i: int) -> Result<(Seq<char>, int), ()>
    recommends
        0 <= i <= s.len(),
    decreases s.len() - i,
{
    if i >= s.len() {
        Err(())
    } else if s[i] == '"' {
        Ok((Seq::empty(), i + 1))
    } else if s[i] == '\\' {
        if i + 1 >= s.len() {
            Err(())
        } else {
            match escape_char(s[i + 1]) {
                None => Err(()),
                Some(c) => match sp_str_chars(s, i + 2) {
                    Err(e) => Err(e),
                    Ok((rest, j)) => Ok((seq![c] + rest, j)),
                },
            }
        }
    } else if (s[i] as u32) < 32 {
        Err(())
    } else {
        match sp_str_chars(s, i + 1) {
            Err(e) => Err(e),
            Ok((rest, j)) => Ok((seq![s[i]] + rest, j)),
        }
    }
}

/// A number starting at `i`: optional minus, digits without a leading zero,
/// then an optional fraction and exponent, which make it inexact.
pub open spec fn sp_number(s: Seq<char>, i: int) -> Result<(JsonModel, int), ()>
    recommends
        0 <= i <= s.len(),
{
    let d = if i < s.len() && s[i] == '-' {
        i + 1
    } else {
        i
    };
    let e = digit_end(s, d);
    if e == d || (s[d] == '0' && e > d + 1) {
        Err(())
    } else {
        let neg = d > i;
        let mag = digits_val(s.subrange(d, e));
        if e < s.len() && (s[e] == '.' || s[e] == 'e' || s[e] == 'E') {
            match sp_num_tail(s, e) {
                Err(()) => Err(()),
                Ok(j) => Ok((JsonModel::BigNum, j)),
            }
        } else if neg && mag <= 0x8000000000000000 {
            Ok((JsonModel::Num { neg: true, mag: mag as nat }, e))
        } else if !neg && mag <= u64::MAX {
            Ok((JsonModel::Num { neg: false, mag: mag as nat }, e))
        } else {
            Ok((JsonModel::BigNum, e))
        }
    }
}

/// The fraction and exponent tail of a non-integer number, starting at the
/// `.`, `e` or `E`.
pub open spec fn sp_num_tail(s: Seq<char>, i: int) -> Result<int, ()>
    recommends
        0 <= i <= s.len(),
{
    let f = if i < s.len() && s[i] == '.' {
        let fe = digit_end(s, i + 1);
        if fe == i + 1 {
            -1
        } else {
            fe
        }
    } else {
        i
    };
    if f < 0 {
        Err(())
    } else if f < s.len() && (s[f] == 'e' || s[f] == 'E') {
        let g = if f + 1 < s.len() && (s[f + 1] == '+' || s[f + 1] == '-') {
            f + 2
        } else {
            f + 1
        };
        let ge = digit_end(s, g);
        if ge == g {
            Err(())
        } else {
            Ok(ge)
        }
    } else {
        Ok(f)
    }
}

/// Positions coming back from a recursive parse are clamped into the range
/// the grammar guarantees anyway; a value outside it is a parse error.
pub open spec fn clamp_pos(p: int, lo: int, hi: int) -> int {
    if p < lo {
        lo
    } else if p > hi {
        hi
    } else {
        p
    }
}

/// `ws_end`, clamped into `[i, s.len()]`.
pub open spec fn wsc(s: Seq<char>, i: int) -> int {
    clamp_pos(ws_end(s, i), i, s.len() as int)
}

/// A value starting at `i` (not at whitespace), and the position after it.
pub open spec fn sp_value(s: Seq<char>, i: int) -> Result<(JsonModel, int), ()>
    recommends
        0 <= i <= s.len(),
    decreases s.len() - i, 0int,
{
    if i < 0 || i >= s.len() {
        Err(())
    } else if s[i] == '{' {
        let k = wsc(s, i + 1);
        if k < s.len() && s[k] == '}' {
            Ok((JsonModel::Obj(Seq::empty()), k + 1))
        } else {
            match sp_obj_rest(s, k) {
                Err(e) => Err(e),
                Ok((ms, j)) => Ok((JsonModel::Obj(ms), j)),
            }
        }
    } else if s[i] == '[' {
        let k = wsc(s, i + 1);
        if k < s.len() && s[k] == ']' {
            Ok((JsonModel::Arr(Seq::empty()), k + 1))
        } else {
            match sp_arr_rest(s, k) {
                Err(e) => Err(e),
                Ok((ms, j)) => Ok((JsonModel::Arr(ms), j)),
            }
        }
    } else if s[i] == '"' {
        match sp_str_chars(s, i + 1) {
            Err(e) => Err(e),
            Ok((cs, j)) => Ok((JsonModel::Str(cs), j)),
        }
    } else if crate::text::occurs_at(s, "true"@, i) {
        Ok((JsonModel::Bool(true), i + 4))
    } else if crate::text::occurs_at(s, "false"@, i) {
        Ok((JsonModel::Bool(false), i + 5))
    } else if crate::text::occurs_at(s, "null"@, i) {
        Ok((JsonModel::Null, i + 4))
    } else if s[i] == '-' || is_digit_char(s[i]) {
        sp_number(s, i)
    } else {
        Err(())
    }
}

/// The elements of a non-empty array, from the start of the first element,
/// and the position after the closing bracket.
pub open spec fn sp_arr_rest(s: Seq<char>, i: int) -> Result<(Seq<JsonModel>, int), ()>
    recommends
        0 <= i <= s.len(),
    decreases s.len() - i, 1int,
{
    if i < 0 || i > s.len() {
        Err(())
    } else {
        match sp_value(s, i) {
            Err(e) => Err(e),
            Ok((m, j)) => {
                if j != clamp_pos(j, i + 1, s.len() as int) {
                    Err(())
                } else {
                    let k = wsc(s, j);
                    if k < s.len() && s[k] == ',' {
                        let n = wsc(s, k + 1);
                        match sp_arr_rest(s, n) {
                            Err(e) => Err(e),
                            Ok((ms, e2)) => Ok((seq![m] + ms, e2)),
                        }
                    } else if k < s.len() && s[k] == ']' {
                        Ok((seq![m], k + 1))
                    } else {
                        Err(())
                    }
                }
            },
        }
    }
}

/// The members of a non-empty object, from the start of the first key, and
/// the position after the closing brace.
pub open spec fn sp_obj_rest(s: Seq<char>, i: int) -> Result<(Seq<(Seq<char>, JsonModel)>, int), ()>
    recommends
        0 <= i <= s.len(),
    decreases s.len() - i, 1int,
{
    if i < 0 || i >= s.len() || s[i] != '"' {
        Err(())
    } else {
        match sp_str_chars(s, i + 1) {
            Err(e) => Err(e),
            Ok((key, j)) => {
                if j != clamp_pos(j, i + 2, s.len() as int) {
                    Err(())
                } else {
                    let k = wsc(s, j);
                    if !(k < s.len() && s[k] == ':') {
                        Err(())
                    } else {
                        let v0 = wsc(s, k + 1);
                        match sp_value(s, v0) {
                            Err(e) => Err(e),
                            Ok((m, j2)) => {
                                if j2 != clamp_pos(j2, v0 + 1, s.len() as int) {
                                    Err(())
                                } else {
                                    let k2 = wsc(s, j2);
                                    if k2 < s.len() && s[k2] == ',' {
                                        let n = wsc(s, k2 + 1);
                                        match sp_obj_rest(s, n) {
                                            Err(e) => Err(e),
                                            Ok((ms, e2)) => Ok((seq![(key, m)] + ms, e2)),
                                        }
                                    } else if k2 < s.len() && s[k2] == '}' {
                                        Ok((seq![(key, m)], k2 + 1))
                                    } else {
                                        Err(())
                                    }
                                }
                            },
                        }
                    }
                }
            },
        }
    }
}

/// A whole JSON document: one value surrounded by whitespace.
pub open spec fn sp_document(s: Seq<char>) -> Result<JsonModel, ()> {
    match sp_value(s, wsc(s, 0)) {
        Err(e) => Err(e),
        Ok((m, j)) => if 0 <= j <= s.len() && wsc(s, j) == s.len() {
            Ok(m)
        } else {
            Err(())
        },
    }
}

} // verus!

verus! {

// ---------------------------------------------------------------------------
// The parser, exec side
// ---------------------------------------------------------------------------

fn escape_of(c: char) -> (r: Option<char>)
    ensures
        r == escape_char(c),
{
    match c {
        '"' => Some('"'),
        '\\' => Some('\\'),
        '/' => Some('/'),
        'b' => Some('\u{8}'),
        'f' => Some('\u{c}'),
        'n' => Some('\n'),
        'r' => Some('\r'),
        't' => Some('\t'),
        _ => None,
    }
}

fn parse_str_chars(v: &Vec<char>, i: usize) -> (r: Result<(Vec<char>, usize), ()>)
    requires
        i <= v.len(),
    ensures
        match r {
            Ok(p) => sp_str_chars(v@, i as int) == Ok::<_, ()>((p.0@, p.1 as int)) && i < p.1
                <= v.len(),
            Err(_) => sp_str_chars(v@, i as int) is Err,
        },
    decreases v.len() - i,
{
    if i >= v.len() {
        return Err(());
    }
    let c = v[i];
    if c == '"' {
        let out: Vec<char> = Vec::new();
        proof {
            assert(out@ =~= Seq::<char>::empty());
        }
        return Ok((out, i + 1));
    }
    if c == '\\' {
        if i + 1 >= v.len() {
            return Err(());
        }
        match escape_of(v[i + 1]) {
            None => Err(()),
            Some(mc) => {
                match parse_str_chars(v, i + 2) {
                    Err(e) => Err(e),
                    Ok((rest, j)) => {
                        let mut out: Vec<char> = Vec::new();
                        out.push(mc);
                        let mut k: usize = 0;
                        while k < rest.len()
                            invariant
                                k <= rest@.len(),
                                out@ == seq![mc] + rest@.subrange(0, k as int),
                            decreases rest.len() - k,
                        {
                            out.push(rest[k]);
                            k += 1;
                            proof {
                                assert(out@ =~= seq![mc] + rest@.subrange(0, k as int));
                            }
                        }
                        proof {
                            assert(out@ =~= seq![mc] + rest@);
                        }
                        Ok((out, j))
                    },
                }
            },
        }
    } else if (c as u32) < 32 {
        Err(())
    } else {
        match parse_str_chars(v, i + 1) {
            Err(e) => Err(e),
            Ok((rest, j)) => {
                let mut out: Vec<char> = Vec::new();
                out.push(c);
                let mut k: usize = 0;
                while k < rest.len()
                    invariant
                        k <= rest@.len(),
                        out@ == seq![c] + rest@.subrange(0, k as int),
                    decreases rest.len() - k,
                {
                    out.push(rest[k]);
                    k += 1;
                    proof {
                        assert(out@ =~= seq![c] + rest@.subrange(0, k as int));
                    }
                }
                proof {
                    assert(out@ =~= seq![c] + rest@);
                }
                Ok((out, j))
            },
        }
    }
}

fn parse_num_tail(v: &Vec<char>, i: usize) -> (r: Result<usize, ()>)
    requires
        i <= v.len(),
    ensures
        match r {
            Ok(j) => sp_num_tail(v@, i as int) == Ok::<int, ()>(j as int) && i <= j <= v.len(),
            Err(_) => sp_num_tail(v@, i as int) is Err,
        },
{
    let f: usize = if i < v.len() && v[i] == '.' {
        let fe = skip_digits(v, i + 1);
        if fe == i + 1 {
            return Err(());
        }
        fe
    } else {
        i
    };
    if f < v.len() && (v[f] == 'e' || v[f] == 'E') {
        let g: usize = if f + 1 < v.len() && (v[f + 1] == '+' || v[f + 1] == '-') {
            f + 2
        } else {
            f + 1
        };
        let ge = skip_digits(v, g);
        if ge == g {
            Err(())
        } else {
            Ok(ge)
        }
    } else {
        Ok(f)
    }
}

fn parse_number(v: &Vec<char>, i: usize) -> (r: Result<(Json, usize), ()>)
    requires
        i < v.len(),
        v@[i as int] == '-' || is_digit_char(v@[i as int]),
    ensures
        match r {
            Ok(p) => ({
                &&& sp_number(v@, i as int) matches Ok(sm)
                &&& json_rel(p.0, sm.0)
                &&& sm.1 == p.1 as int
                &&& i < p.1 <= v.len()
            }),
            Err(_) => sp_number(v@, i as int) is Err,
        },
{
    let d: usize = if v[i] == '-' {
        i + 1
    } else {
        i
    };
    let e = skip_digits(v, d);
    if e == d {
        return Err(());
    }
    if v[d] == '0' && e > d + 1 {
        return Err(());
    }
    let neg = d > i;
    if e < v.len() && (v[e] == '.' || v[e] == 'e' || v[e] == 'E') {
        match parse_num_tail(v, e) {
            Err(_) => Err(()),
            Ok(j) => Ok((Json::BigNum, j)),
        }
    } else {
        proof {
            crate::text::lemma_digit_end_all_digits(v@, d as int);
        }
        match parse_u64_digits(v, d, e) {
            Some(n) => {
                if neg {
                    if n <= 0x8000000000000000 {
                        Ok((Json::Num { neg: true, mag: n }, e))
                    } else {
                        Ok((Json::BigNum, e))
                    }
                } else {
                    Ok((Json::Num { neg: false, mag: n }, e))
                }
            },
            None => Ok((Json::BigNum, e)),
        }
    }
}

fn parse_value(v: &Vec<char>, i: usize) -> (r: Result<(Json, usize), ()>)
    requires
        i <= v.len(),
    ensures
        match r {
            Ok(p) => ({
                &&& sp_value(v@, i as int) matches Ok(sm)
                &&& json_rel(p.0, sm.0)
                &&& sm.1 == p.1 as int
                &&& i < p.1 <= v.len()
            }),
            Err(_) => sp_value(v@, i as int) is Err,
        },
    decreases v.len() - i, 0int,
{
    if i >= v.len() {
        return Err(());
    }
    let c = v[i];
    if c == '{' {
        let k = skip_ws(v, i + 1);
        if k < v.len() && v[k] == '}' {
            let out: Vec<(String, Json)> = Vec::new();
            return Ok((Json::Obj(out), k + 1));
        }
        match parse_obj_rest(v, k) {
            Err(e) => Err(e),
            Ok((fields, j)) => Ok((Json::Obj(fields), j)),
        }
    } else if c == '[' {
        let k = skip_ws(v, i + 1);
        if k < v.len() && v[k] == ']' {
            let out: Vec<Json> = Vec::new();
            return Ok((Json::Arr(out), k + 1));
        }
        match parse_arr_rest(v, k) {
            Err(e) => Err(e),
            Ok((elems, j)) => Ok((Json::Arr(elems), j)),
        }
    } else if c == '"' {
        match parse_str_chars(v, i + 1) {
            Err(e) => Err(e),
            Ok((cs, j)) => Ok((Json::Str(crate::text::string_of(&cs)), j)),
        }
    } else if crate::text::lit_at(v, "true", i) {
        proof {
            reveal_strlit("true");
        }
        Ok((Json::Bool(true), i + 4))
    } else if crate::text::lit_at(v, "false", i) {
        proof {
            reveal_strlit("false");
        }
        Ok((Json::Bool(false), i + 5))
    } else if crate::text::lit_at(v, "null", i) {
        proof {
            reveal_strlit("null");
        }
        Ok((Json::Null, i + 4))
    } else if c == '-' || is_digit(c) {
        parse_number(v, i)
    } else {
        Err(())
    }
}

fn parse_arr_rest(v: &Vec<char>, i: usize) -> (r: Result<(Vec<Json>, usize), ()>)
    requires
        i <= v.len(),
    ensures
        match r {
            Ok(p) => ({
                &&& sp_arr_rest(v@, i as int) matches Ok(sm)
                &&& p.0@.len() == sm.0.len()
                &&& (forall|k: int|
                    0 <= k < sm.0.len() ==> json_rel(p.0@[k], #[trigger] sm.0[k]))
                &&& sm.1 == p.1 as int
                &&& i < p.1 <= v.len()
            }),
            Err(_) => sp_arr_rest(v@, i as int) is Err,
        },
    decreases v.len() - i, 1int,
{
    match parse_value(v, i) {
        Err(e) => Err(e),
        Ok((jv, j)) => {
            let k = skip_ws(v, j);
            if k < v.len() && v[k] == ',' {
                let n = skip_ws(v, k + 1);
                match parse_arr_rest(v, n) {
                    Err(e) => Err(e),
                    Ok((rest, e2)) => {
                        let ghost jv0 = jv;
                        let ghost rest0 = rest@;
                        let mut out: Vec<Json> = Vec::new();
                        out.push(jv);
                        let mut rest = rest;
                        while rest.len() > 0
                            invariant
                                out@.len() >= 1,
                                out@.len() + rest@.len() == rest0.len() + 1,
                                out@ == seq![jv0] + rest0.subrange(0, out@.len() - 1),
                                rest@ == rest0.subrange(out@.len() - 1, rest0.len() as int),
                            decreases rest.len(),
                        {
                            let item = rest.remove(0);
                            out.push(item);
                            proof {
                                assert(out@ =~= seq![jv0] + rest0.subrange(0, out@.len() - 1));
                                assert(rest@ =~= rest0.subrange(out@.len() - 1, rest0.len() as int));
                            }
                        }
                        proof {
                            assert(out@ =~= seq![jv0] + rest0);
                        }
                        Ok((out, e2))
                    },
                }
            } else if k < v.len() && v[k] == ']' {
                let mut out: Vec<Json> = Vec::new();
                out.push(jv);
                Ok((out, k + 1))
            } else {
                Err(())
            }
        },
    }
}

fn parse_obj_rest(v: &Vec<char>, i: usize) -> (r: Result<(Vec<(String, Json)>, usize), ()>)
    requires
        i <= v.len(),
    ensures
        match r {
            Ok(p) => ({
                &&& sp_obj_rest(v@, i as int) matches Ok(sm)
                &&& p.0@.len() == sm.0.len()
                &&& (forall|k: int|
                    0 <= k < sm.0.len() ==> p.0@[k].0@ == (#[trigger] sm.0[k]).0 && json_rel(
                        p.0@[k].1,
                        sm.0[k].1,
                    ))
                &&& sm.1 == p.1 as int
                &&& i < p.1 <= v.len()
            }),
            Err(_) => sp_obj_rest(v@, i as int) is Err,
        },
    decreases v.len() - i, 1int,
{
    if i >= v.len() || v[i] != '"' {
        return Err(());
    }
    match parse_str_chars(v, i + 1) {
        Err(e) => Err(e),
        Ok((key_cs, j)) => {
            let k = skip_ws(v, j);
            if !(k < v.len() && v[k] == ':') {
                return Err(());
            }
            let v0 = skip_ws(v, k + 1);
            match parse_value(v, v0) {
                Err(e) => Err(e),
                Ok((jv, j2)) => {
                    let k2 = skip_ws(v, j2);
                    let key = crate::text::string_of(&key_cs);
                    if k2 < v.len() && v[k2] == ',' {
                        let n = skip_ws(v, k2 + 1);
                        match parse_obj_rest(v, n) {
                            Err(e) => Err(e),
                            Ok((rest, e2)) => {
                                let ghost head = (key, jv);
                                let ghost rest0 = rest@;
                                let mut out: Vec<(String, Json)> = Vec::new();
                                out.push((key, jv));
                                let mut rest = rest;
                                while rest.len() > 0
                                    invariant
                                        out@.len() >= 1,
                                        out@.len() + rest@.len() == rest0.len() + 1,
                                        out@ == seq![head] + rest0.subrange(0, out@.len() - 1),
                                        rest@ == rest0.subrange(
                                            out@.len() - 1,
                                            rest0.len() as int,
                                        ),
                                    decreases rest.len(),
                                {
                                    let item = rest.remove(0);
                                    out.push(item);
                                    proof {
                                        assert(out@ =~= seq![head] + rest0.subrange(
                                            0,
                                            out@.len() - 1,
                                        ));
                                        assert(rest@ =~= rest0.subrange(
                                            out@.len() - 1,
                                            rest0.len() as int,
                                        ));
                                    }
                                }
                                proof {
                                    assert(out@ =~= seq![head] + rest0);
                                }
                                Ok((out, e2))
                            },
                        }
                    } else if k2 < v.len() && v[k2] == '}' {
                        let mut out: Vec<(String, Json)> = Vec::new();
                        out.push((key, jv));
                        Ok((out, k2 + 1))
                    } else {
                        Err(())
                    }
                },
            }
        },
    }
}

} // verus!

verus! {

// ---------------------------------------------------------------------------
// The document and the accessors
// ---------------------------------------------------------------------------

/// Parses one JSON document: a single value surrounded by whitespace.
pub fn parse_json_text(v: &Vec<char>) -> (r: Result<Json, ()>)
    ensures
        match r {
            Ok(j) => sp_document(v@) matches Ok(m) && json_rel(j, m),
            Err(_) => sp_document(v@) is Err,
        },
{
    let k = skip_ws(v, 0);
    match parse_value(v, k) {
        Err(_) => Err(()),
        Ok((j, p)) => {
            let k2 = skip_ws(v, p);
            if k2 == v.len() {
                Ok(j)
            } else {
                Err(())
            }
        },
    }
}

/// The value of the last member with this key, as JSON objects read:
/// a repeated key takes its latest value.
pub open spec fn m_get(fields: Seq<(Seq<char>, JsonModel)>, key: Seq<char>) -> Option<JsonModel>
    decreases fields.len(),
{
    if fields.len() == 0 {
        None
    } else if fields.last().0 == key {
        Some(fields.last().1)
    } else {
        m_get(fields.drop_last(), key)
    }
}

pub open spec fn m_obj_get(m: JsonModel, key: Seq<char>) -> Option<JsonModel> {
    match m {
        JsonModel::Obj(fs) => m_get(fs, key),
        _ => None,
    }
}

pub open spec fn m_as_str(m: JsonModel) -> Option<Seq<char>> {
    match m {
        JsonModel::Str(s) => Some(s),
        _ => None,
    }
}

pub open spec fn m_as_u64(m: JsonModel) -> Option<nat> {
    match m {
        JsonModel::Num { neg, mag } => if !neg && mag <= u64::MAX {
            Some(mag)
        } else {
            None
        },
        _ => None,
    }
}

pub open spec fn m_as_i64(m: JsonModel) -> Option<int> {
    match m {
        JsonModel::Num { neg, mag } => if neg && mag <= 0x8000000000000000 {
            Some(-(mag as int))
        } else if !neg && mag <= 0x7fffffffffffffff {
            Some(mag as int)
        } else {
            None
        },
        _ => None,
    }
}

/// Looks a member up in an object value; `None` on anything else.
pub fn obj_get<'a>(j: &'a Json, key: &str, Ghost(m): Ghost<JsonModel>) -> (r: Option<&'a Json>)
    requires
        json_rel(*j, m),
    ensures
        match r {
            Some(jr) => m_obj_get(m, key@) matches Some(mr) && json_rel(*jr, mr),
            None => m_obj_get(m, key@) is None,
        },
{
    match j {
        Json::Obj(fields) => {
            let ghost ms = m->Obj_0;
            let kv = crate::text::chars_of(key);
            let mut i: usize = fields.len();
            proof {
                assert(ms.subrange(0, ms.len() as int) =~= ms);
            }
            loop
                invariant
                    i <= fields@.len(),
                    fields@.len() == ms.len(),
                    m matches JsonModel::Obj(f2) && f2 == ms,
                    json_rel(*j, m),
                    *j matches Json::Obj(f3) && f3@ == fields@,
                    kv@ == key@,
                    forall|q: int|
                        0 <= q < ms.len() ==> fields@[q].0@ == (#[trigger] ms[q]).0 && json_rel(
                            fields@[q].1,
                            ms[q].1,
                        ),
                    m_get(ms, key@) == m_get(ms.subrange(0, i as int), key@),
                decreases i,
            {
                if i == 0 {
                    proof {
                        assert(ms.subrange(0, 0) =~= Seq::<(Seq<char>, JsonModel)>::empty());
                    }
                    return None;
                }
                let ghost prefix = ms.subrange(0, i as int);
                proof {
                    assert(prefix.last() == ms[i - 1]);
                    assert(prefix.drop_last() =~= ms.subrange(0, i - 1));
                }
                let fk = crate::text::chars_of(fields[i - 1].0.as_str());
                if crate::text::eq_chars(&fk, &kv) {
                    return Some(&fields[i - 1].1);
                }
                i -= 1;
            }
        },
        _ => None,
    }
}

/// The text of a string value.
pub fn as_str<'a>(j: &'a Json, Ghost(m): Ghost<JsonModel>) -> (r: Option<&'a String>)
    requires
        json_rel(*j, m),
    ensures
        match r {
            Some(s) => m_as_str(m) matches Some(t) && s@ == t,
            None => m_as_str(m) is None,
        },
{
    match j {
        Json::Str(s) => Some(s),
        _ => None,
    }
}

/// The value of an integer that fits `u64`.
pub fn as_u64(j: &Json, Ghost(m): Ghost<JsonModel>) -> (r: Option<u64>)
    requires
        json_rel(*j, m),
    ensures
        match r {
            Some(n) => m_as_u64(m) == Some(n as nat),
            None => m_as_u64(m) is None,
        },
{
    match j {
        Json::Num { neg, mag } => if !*neg {
            Some(*mag)
        } else {
            None
        },
        _ => None,
    }
}

/// The value of an integer that fits `i64`.
pub fn as_i64(j: &Json, Ghost(m): Ghost<JsonModel>) -> (r: Option<i64>)
    requires
        json_rel(*j, m),
    ensures
        match r {
            Some(n) => m_as_i64(m) == Some(n as int),
            None => m_as_i64(m) is None,
        },
{
    match j {
        Json::Num { neg, mag } => {
            if *neg {
                if *mag == 0x8000000000000000 {
                    Some(i64::MIN)
                } else if *mag < 0x8000000000000000 {
                    Some(-((*mag) as i64))
                } else {
                    None
                }
            } else {
                if *mag <= 0x7fffffffffffffff {
                    Some((*mag) as i64)
                } else {
                    None
                }
            }
        },
        _ => None,
    }
}

} // verus!
