//! Character-level text utilities shared by the response parsers.
//!
//! All model output is plain text; every grammar in this crate is matched by
//! the functions here, character by character, against specifications stated
//! over `Seq<char>`.  Case folding and classification are ASCII-only: the
//! grammars themselves are ASCII, and text captured from the command or the
//! model is passed through unchanged.

use vstd::prelude::*;

use crate::ext::push_char;

verus! {

// ---------------------------------------------------------------------------
// Character classes
// ---------------------------------------------------------------------------

pub open spec fn is_space_char(c: char) -> bool {
    c == ' ' || c == '\t' || c == '\r' || c == '\n'
}

pub open spec fn is_digit_char(c: char) -> bool {
    '0' <= c && c <= '9'
}

/// A word character, as the command templates understand it: an ASCII letter,
/// a digit, or an underscore.
pub open spec fn is_word_char(c: char) -> bool {
    ('a' <= c && c <= 'z') || ('A' <= c && c <= 'Z') || is_digit_char(c) || c == '_'
}

pub fn is_space(c: char) -> (r: bool)
    ensures
        r == is_space_char(c),
{
    c == ' ' || c == '\t' || c == '\r' || c == '\n'
}

pub fn is_digit(c: char) -> (r: bool)
    ensures
        r == is_digit_char(c),
{
    '0' <= c && c <= '9'
}

pub fn is_word(c: char) -> (r: bool)
    ensures
        r == is_word_char(c),
{
    ('a' <= c && c <= 'z') || ('A' <= c && c <= 'Z') || is_digit(c) || c == '_'
}

// ---------------------------------------------------------------------------
// ASCII case folding
// ---------------------------------------------------------------------------

pub open spec fn lower_char(c: char) -> char {
    if 'A' <= c && c <= 'Z' {
        ((c as u32) + 32) as char
    } else {
        c
    }
}

pub open spec fn upper_char(c: char) -> char {
    if 'a' <= c && c <= 'z' {
        ((c as u32) - 32) as char
    } else {
        c
    }
}

pub open spec fn lower_seq(s: Seq<char>) -> Seq<char> {
    s.map_values(|c: char| lower_char(c))
}

pub fn to_lower_char(c: char) -> (r: char)
    ensures
        r == lower_char(c),
{
    match c {
        'A' => 'a',
        'B' => 'b',
        'C' => 'c',
        'D' => 'd',
        'E' => 'e',
        'F' => 'f',
        'G' => 'g',
        'H' => 'h',
        'I' => 'i',
        'J' => 'j',
        'K' => 'k',
        'L' => 'l',
        'M' => 'm',
        'N' => 'n',
        'O' => 'o',
        'P' => 'p',
        'Q' => 'q',
        'R' => 'r',
        'S' => 's',
        'T' => 't',
        'U' => 'u',
        'V' => 'v',
        'W' => 'w',
        'X' => 'x',
        'Y' => 'y',
        'Z' => 'z',
        _ => c,
    }
}

pub fn to_upper_char(c: char) -> (r: char)
    ensures
        r == upper_char(c),
{
    match c {
        'a' => 'A',
        'b' => 'B',
        'c' => 'C',
        'd' => 'D',
        'e' => 'E',
        'f' => 'F',
        'g' => 'G',
        'h' => 'H',
        'i' => 'I',
        'j' => 'J',
        'k' => 'K',
        'l' => 'L',
        'm' => 'M',
        'n' => 'N',
        'o' => 'O',
        'p' => 'P',
        'q' => 'Q',
        'r' => 'R',
        's' => 'S',
        't' => 'T',
        'u' => 'U',
        'v' => 'V',
        'w' => 'W',
        'x' => 'X',
        'y' => 'Y',
        'z' => 'Z',
        _ => c,
    }
}

// ---------------------------------------------------------------------------
// Strings to character vectors and back
// ---------------------------------------------------------------------------

pub fn chars_of(s: &str) -> (v: Vec<char>)
    ensures
        v@ == s@,
{
    let n = s.unicode_len();
    let mut v: Vec<char> = Vec::new();
    let mut i: usize = 0;
    while i < n
        invariant
            n == s@.len(),
            i <= n,
            v@ == s@.subrange(0, i as int),
        decreases n - i,
    {
        v.push(s.get_char(i));
        i += 1;
        proof {
            assert(v@ =~= s@.subrange(0, i as int));
        }
    }
    proof {
        assert(v@ =~= s@);
    }
    v
}

pub fn string_of(v: &Vec<char>) -> (s: String)
    ensures
        s@ == v@,
{
    let mut s = String::new();
    let mut i: usize = 0;
    while i < v.len()
        invariant
            i <= v.len(),
            s@ == v@.subrange(0, i as int),
        decreases v.len() - i,
    {
        push_char(&mut s, v[i]);
        i += 1;
        proof {
            assert(s@ =~= v@.subrange(0, i as int));
        }
    }
    proof {
        assert(s@ =~= v@);
    }
    s
}

/// A copy of `v[from..to]`.
pub fn sub_vec(v: &Vec<char>, from: usize, to: usize) -> (out: Vec<char>)
    requires
        from <= to <= v.len(),
    ensures
        out@ == v@.subrange(from as int, to as int),
{
    let mut out: Vec<char> = Vec::new();
    let mut i: usize = from;
    while i < to
        invariant
            from <= i <= to <= v.len(),
            out@ == v@.subrange(from as int, i as int),
        decreases to - i,
    {
        out.push(v[i]);
        i += 1;
        proof {
            assert(out@ =~= v@.subrange(from as int, i as int));
        }
    }
    out
}

pub fn to_lower_vec(v: &Vec<char>) -> (out: Vec<char>)
    ensures
        out@ == lower_seq(v@),
{
    let mut out: Vec<char> = Vec::new();
    let mut i: usize = 0;
    while i < v.len()
        invariant
            i <= v.len(),
            out@ == lower_seq(v@.subrange(0, i as int)),
        decreases v.len() - i,
    {
        out.push(to_lower_char(v[i]));
        i += 1;
        proof {
            assert(out@ =~= lower_seq(v@.subrange(0, i as int)));
        }
    }
    proof {
        assert(out@ =~= lower_seq(v@));
    }
    out
}

// ---------------------------------------------------------------------------
// Comparison and search
// ---------------------------------------------------------------------------

pub fn eq_chars(a: &Vec<char>, b: &Vec<char>) -> (r: bool)
    ensures
        r == (a@ == b@),
{
    if a.len() != b.len() {
        return false;
    }
    let mut i: usize = 0;
    while i < a.len()
        invariant
            a@.len() == b@.len(),
            i <= a.len(),
            forall|j: int| 0 <= j < i ==> a@[j] == b@[j],
        decreases a.len() - i,
    {
        if a[i] != b[i] {
            return false;
        }
        i += 1;
    }
    proof {
        assert(a@ =~= b@);
    }
    true
}

/// `r == (s@ == t@)`, comparing a character vector against a string literal.
pub fn eq_str(v: &Vec<char>, s: &str) -> (r: bool)
    ensures
        r == (v@ == s@),
{
    let w = chars_of(s);
    eq_chars(v, &w)
}

pub open spec fn starts_with_spec(s: Seq<char>, p: Seq<char>) -> bool {
    p.len() <= s.len() && s.subrange(0, p.len() as int) == p
}

/// Whether `p` occurs in `s` starting at index `i`.
pub open spec fn occurs_at(s: Seq<char>, p: Seq<char>, i: int) -> bool {
    0 <= i && i + p.len() <= s.len() && s.subrange(i, i + p.len()) == p
}

pub open spec fn contains_seq_spec(s: Seq<char>, p: Seq<char>) -> bool {
    exists|i: int| occurs_at(s, p, i)
}

pub fn starts_with_at(v: &Vec<char>, p: &Vec<char>, at: usize) -> (r: bool)
    requires
        at <= v.len(),
    ensures
        r == occurs_at(v@, p@, at as int),
{
    if p.len() > v.len() - at {
        return false;
    }
    let mut i: usize = 0;
    while i < p.len()
        invariant
            at + p@.len() <= v@.len(),
            v@.len() <= usize::MAX,
            i <= p.len(),
            forall|j: int| 0 <= j < i ==> v@[at + j] == p@[j],
        decreases p.len() - i,
    {
        proof {
            assert(at + i < v@.len());
        }
        if v[at + i] != p[i] {
            proof {
                assert(v@.subrange(at as int, at + p@.len())[i as int] == v@[at + i]);
            }
            return false;
        }
        i += 1;
    }
    proof {
        assert(v@.subrange(at as int, at + p@.len()) =~= p@);
    }
    true
}

pub fn starts_with(v: &Vec<char>, p: &Vec<char>) -> (r: bool)
    ensures
        r == starts_with_spec(v@, p@),
{
    let r = starts_with_at(v, p, 0);
    proof {
        if starts_with_spec(v@, p@) {
            assert(occurs_at(v@, p@, 0));
        }
    }
    r
}

/// The first index at or after `from` where `p` occurs in `v`, if any.
pub fn find_seq_from(v: &Vec<char>, p: &Vec<char>, from: usize) -> (r: Option<usize>)
    requires
        from <= v.len(),
    ensures
        match r {
            Some(i) => from <= i && occurs_at(v@, p@, i as int) && forall|j: int|
                from <= j < i ==> !occurs_at(v@, p@, j),
            None => forall|j: int| from <= j ==> !occurs_at(v@, p@, j),
        },
{
    if p.len() == 0 {
        proof {
            assert(v@.subrange(from as int, from as int) =~= p@);
        }
        return Some(from);
    }
    let mut i: usize = from;
    while i < v.len()
        invariant
            from <= i <= v@.len(),
            p@.len() > 0,
            forall|j: int| from <= j < i ==> !occurs_at(v@, p@, j),
        decreases v.len() - i,
    {
        if starts_with_at(v, p, i) {
            return Some(i);
        }
        i += 1;
    }
    proof {
        assert(forall|j: int| j >= v@.len() ==> !occurs_at(v@, p@, j));
    }
    None
}

pub fn contains_str(v: &Vec<char>, p: &str) -> (r: bool)
    ensures
        r == contains_seq_spec(v@, p@),
{
    let pv = chars_of(p);
    match find_seq_from(v, &pv, 0) {
        Some(i) => {
            proof {
                assert(occurs_at(v@, pv@, i as int));
            }
            true
        },
        None => {
            proof {
                assert(forall|j: int| !occurs_at(v@, p@, j));
            }
            false
        },
    }
}

pub fn find_char_from(v: &Vec<char>, c: char, from: usize) -> (r: Option<usize>)
    requires
        from <= v.len(),
    ensures
        match r {
            Some(i) => from <= i < v@.len() && v@[i as int] == c && forall|j: int|
                from <= j < i ==> v@[j] != c,
            None => forall|j: int| from <= j < v@.len() ==> v@[j] != c,
        },
{
    let mut i: usize = from;
    while i < v.len()
        invariant
            from <= i <= v@.len(),
            forall|j: int| from <= j < i ==> v@[j] != c,
        decreases v.len() - i,
    {
        if v[i] == c {
            return Some(i);
        }
        i += 1;
    }
    None
}

pub fn rfind_char(v: &Vec<char>, c: char) -> (r: Option<usize>)
    ensures
        match r {
            Some(i) => i < v@.len() && v@[i as int] == c && forall|j: int|
                i < j < v@.len() ==> v@[j] != c,
            None => forall|j: int| 0 <= j < v@.len() ==> v@[j] != c,
        },
{
    let mut i: usize = v.len();
    while i > 0
        invariant
            i <= v@.len(),
            forall|j: int| i <= j < v@.len() ==> v@[j] != c,
        decreases i,
    {
        i -= 1;
        if v[i] == c {
            return Some(i);
        }
    }
    None
}

} // verus!

verus! {

// ---------------------------------------------------------------------------
// Trimming
// ---------------------------------------------------------------------------

pub open spec fn trim_start_spec(s: Seq<char>) -> Seq<char>
    decreases s.len(),
{
    if s.len() > 0 && is_space_char(s[0]) {
        trim_start_spec(s.drop_first())
    } else {
        s
    }
}

pub open spec fn trim_end_spec(s: Seq<char>) -> Seq<char>
    decreases s.len(),
{
    if s.len() > 0 && is_space_char(s.last()) {
        trim_end_spec(s.drop_last())
    } else {
        s
    }
}

/// What `str::trim` leaves of `s`, for ASCII whitespace.
pub open spec fn trim_spec(s: Seq<char>) -> Seq<char> {
    trim_end_spec(trim_start_spec(s))
}

proof fn lemma_trim_start_index(s: Seq<char>, k: int)
    requires
        0 <= k <= s.len(),
        forall|j: int| 0 <= j < k ==> is_space_char(s[j]),
        k == s.len() || !is_space_char(s[k]),
    ensures
        trim_start_spec(s) == s.subrange(k, s.len() as int),
    decreases k,
{
    if k == 0 {
        assert(s.subrange(0, s.len() as int) =~= s);
    } else {
        let t = s.drop_first();
        lemma_trim_start_index(t, k - 1);
        assert(t.subrange(k - 1, t.len() as int) =~= s.subrange(k, s.len() as int));
    }
}

proof fn lemma_trim_end_index(s: Seq<char>, k: int)
    requires
        0 <= k <= s.len(),
        forall|j: int| k <= j < s.len() ==> is_space_char(s[j]),
        k == 0 || !is_space_char(s[k - 1]),
    ensures
        trim_end_spec(s) == s.subrange(0, k),
    decreases s.len() - k,
{
    if k == s.len() {
        assert(s.subrange(0, s.len() as int) =~= s);
    } else {
        let t = s.drop_last();
        lemma_trim_end_index(t, k);
        assert(t.subrange(0, k) =~= s.subrange(0, k));
    }
}

pub fn trim_vec(v: &Vec<char>) -> (out: Vec<char>)
    ensures
        out@ == trim_spec(v@),
{
    let mut lo: usize = 0;
    while lo < v.len() && is_space(v[lo])
        invariant
            lo <= v@.len(),
            forall|j: int| 0 <= j < lo ==> is_space_char(v@[j]),
        decreases v.len() - lo,
    {
        lo += 1;
    }
    proof {
        lemma_trim_start_index(v@, lo as int);
    }
    let ghost t = v@.subrange(lo as int, v@.len() as int);
    let mut hi: usize = v.len();
    while hi > lo && is_space(v[hi - 1])
        invariant
            lo <= hi <= v@.len(),
            t == v@.subrange(lo as int, v@.len() as int),
            forall|j: int| hi <= j < v@.len() ==> is_space_char(v@[j]),
        decreases hi,
    {
        hi -= 1;
    }
    proof {
        assert(forall|j: int| hi - lo <= j < t.len() ==> is_space_char(#[trigger] t[j]));
        assert(hi > lo ==> t[hi - lo - 1] == v@[hi - 1]);
        lemma_trim_end_index(t, hi - lo);
        assert(t.subrange(0, hi - lo) =~= v@.subrange(lo as int, hi as int));
    }
    sub_vec(v, lo, hi)
}

pub fn trim_str(s: &str) -> (out: Vec<char>)
    ensures
        out@ == trim_spec(s@),
{
    let v = chars_of(s);
    trim_vec(&v)
}

// ---------------------------------------------------------------------------
// Splitting into lines
// ---------------------------------------------------------------------------

/// Index of the first occurrence of `c` in `s`, or -1.
pub open spec fn first_idx(s: Seq<char>, c: char) -> int
    decreases s.len(),
{
    if s.len() == 0 {
        -1
    } else if s[0] == c {
        0
    } else {
        let r = first_idx(s.drop_first(), c);
        if r < 0 {
            -1
        } else {
            r + 1
        }
    }
}

pub proof fn lemma_first_idx_none(s: Seq<char>, c: char)
    requires
        forall|j: int| 0 <= j < s.len() ==> s[j] != c,
    ensures
        first_idx(s, c) == -1,
    decreases s.len(),
{
    if s.len() > 0 {
        lemma_first_idx_none(s.drop_first(), c);
    }
}

pub proof fn lemma_first_idx_at(s: Seq<char>, c: char, k: int)
    requires
        0 <= k < s.len(),
        s[k] == c,
        forall|j: int| 0 <= j < k ==> s[j] != c,
    ensures
        first_idx(s, c) == k,
    decreases s.len(),
{
    if k > 0 {
        lemma_first_idx_at(s.drop_first(), c, k - 1);
    }
}

/// `s` split on `sep`.  A trailing separator yields a final empty piece.
pub open spec fn split_spec(s: Seq<char>, sep: char) -> Seq<Seq<char>>
    decreases s.len(),
{
    let i = first_idx(s, sep);
    if 0 <= i && i < s.len() {
        seq![s.subrange(0, i)] + split_spec(s.subrange(i + 1, s.len() as int), sep)
    } else {
        seq![s]
    }
}

/// `s` split on newline characters.  Unlike `str::lines`, a trailing newline
/// yields a final empty piece; every caller trims pieces and skips empty
/// ones, so the two readings agree where it matters.
pub open spec fn line_split(s: Seq<char>) -> Seq<Seq<char>> {
    split_spec(s, '\n')
}

fn split_from(v: &Vec<char>, sep: char, from: usize) -> (out: Vec<Vec<char>>)
    requires
        from <= v.len(),
    ensures
        ({
            let pieces = split_spec(v@.subrange(from as int, v@.len() as int), sep);
            out@.len() == pieces.len() && forall|k: int|
                0 <= k < out@.len() ==> out@[k]@ == pieces[k]
        }),
    decreases v@.len() - from,
{
    let ghost s = v@.subrange(from as int, v@.len() as int);
    match find_char_from(v, sep, from) {
        None => {
            proof {
                assert(forall|j: int| 0 <= j < s.len() ==> s[j] != sep);
                lemma_first_idx_none(s, sep);
            }
            let line = sub_vec(v, from, v.len());
            let mut out: Vec<Vec<char>> = Vec::new();
            out.push(line);
            out
        },
        Some(i) => {
            proof {
                assert(s[i - from] == sep);
                assert(forall|j: int| 0 <= j < i - from ==> s[j] != sep);
                lemma_first_idx_at(s, sep, i - from);
            }
            let line = sub_vec(v, from, i);
            let rest = split_from(v, sep, i + 1);
            let ghost tail = v@.subrange(i + 1, v@.len() as int);
            proof {
                assert(s.subrange(0, i - from) =~= v@.subrange(from as int, i as int));
                assert(s.subrange(i - from + 1, s.len() as int) =~= tail);
            }
            let mut out: Vec<Vec<char>> = Vec::new();
            out.push(line);
            let mut k: usize = 0;
            while k < rest.len()
                invariant
                    k <= rest@.len(),
                    out@.len() == k + 1,
                    out@[0]@ == split_spec(s, sep)[0],
                    split_spec(s, sep).len() == rest@.len() + 1,
                    forall|j: int| 0 <= j < rest@.len() ==> rest@[j]@ == split_spec(s, sep)[j + 1],
                    forall|j: int| 1 <= j < out@.len() ==> out@[j]@ == split_spec(s, sep)[j],
                decreases rest.len() - k,
            {
                let piece = sub_vec(&rest[k], 0, rest[k].len());
                proof {
                    assert(piece@ =~= rest@[k as int]@);
                }
                out.push(piece);
                k += 1;
            }
            out
        },
    }
}

pub fn split_char(v: &Vec<char>, sep: char) -> (out: Vec<Vec<char>>)
    ensures
        out@.len() == split_spec(v@, sep).len(),
        forall|k: int| 0 <= k < out@.len() ==> out@[k]@ == split_spec(v@, sep)[k],
{
    let out = split_from(v, sep, 0);
    proof {
        assert(v@.subrange(0, v@.len() as int) =~= v@);
    }
    out
}

pub fn split_lines(v: &Vec<char>) -> (out: Vec<Vec<char>>)
    ensures
        out@.len() == line_split(v@).len(),
        forall|k: int| 0 <= k < out@.len() ==> out@[k]@ == line_split(v@)[k],
{
    split_char(v, '\n')
}

} // verus!

verus! {

// ---------------------------------------------------------------------------
// Decimal numbers
// ---------------------------------------------------------------------------

pub open spec fn all_digits(s: Seq<char>) -> bool {
    forall|i: int| 0 <= i < s.len() ==> is_digit_char(s[i])
}

pub open spec fn digit_val(c: char) -> nat {
    ((c as u32) - ('0' as u32)) as nat
}

/// The number a run of decimal digits denotes.
pub open spec fn digits_val(s: Seq<char>) -> nat
    decreases s.len(),
{
    if s.len() == 0 {
        0
    } else {
        digits_val(s.drop_last()) * 10 + digit_val(s.last())
    }
}

proof fn lemma_digits_val_prefix(s: Seq<char>, k: int)
    requires
        0 <= k <= s.len(),
    ensures
        digits_val(s) >= digits_val(s.subrange(0, k)),
    decreases s.len() - k,
{
    if k == s.len() {
        assert(s.subrange(0, k) =~= s);
    } else {
        let t = s.subrange(0, s.len() - 1);
        assert(t =~= s.drop_last());
        assert(t.subrange(0, k) =~= s.subrange(0, k));
        lemma_digits_val_prefix(t, k);
    }
}

/// The digits `v[from..to]` read as a `u64`: `None` when the range is empty,
/// holds a non-digit, or denotes a number too large for `u64`.
pub fn parse_u64_digits(v: &Vec<char>, from: usize, to: usize) -> (r: Option<u64>)
    requires
        from <= to <= v.len(),
    ensures
        ({
            let s = v@.subrange(from as int, to as int);
            match r {
                Some(n) => from < to && all_digits(s) && n == digits_val(s),
                None => from == to || !all_digits(s) || digits_val(s) > u64::MAX,
            }
        }),
{
    let ghost s = v@.subrange(from as int, to as int);
    if from == to {
        return None;
    }
    let mut acc: u64 = 0;
    let mut i: usize = from;
    while i < to
        invariant
            from <= i <= to <= v@.len(),
            s == v@.subrange(from as int, to as int),
            all_digits(v@.subrange(from as int, i as int)),
            acc == digits_val(v@.subrange(from as int, i as int)),
        decreases to - i,
    {
        let c = v[i];
        if !is_digit(c) {
            proof {
                assert(s[i - from] == c);
            }
            return None;
        }
        let d: u64 = (c as u32 - 48) as u64;
        proof {
            assert(d == digit_val(c)) by {
                assert('0' <= c && c <= '9');
            };
        }
        let step = match acc.checked_mul(10) {
            Some(m) => m.checked_add(d),
            None => None,
        };
        let ghost prefix = v@.subrange(from as int, i as int);
        let ghost prefix2 = v@.subrange(from as int, i + 1);
        proof {
            assert(prefix2.drop_last() =~= prefix);
            assert(prefix2.last() == c);
            assert(digits_val(prefix2) == acc * 10 + d);
        }
        match step {
            Some(n) => {
                acc = n;
            },
            None => {
                proof {
                    assert(digits_val(prefix2) > u64::MAX);
                    lemma_digits_val_prefix(s, i + 1 - from);
                    assert(s.subrange(0, i + 1 - from) =~= prefix2);
                }
                return None;
            },
        }
        i += 1;
    }
    proof {
        assert(v@.subrange(from as int, i as int) =~= s);
    }
    Some(acc)
}

pub open spec fn dec_digit(n: nat) -> char {
    (('0' as u32) + n as u32) as char
}

/// The decimal rendering of `n`, most significant digit first.
pub open spec fn dec_spec(n: nat) -> Seq<char>
    decreases n,
{
    if n < 10 {
        seq![dec_digit(n)]
    } else {
        dec_spec(n / 10).push(dec_digit(n % 10))
    }
}

fn dec_digit_of(n: u64) -> (r: char)
    requires
        n < 10,
    ensures
        r == dec_digit(n as nat),
{
    match n {
        0 => '0',
        1 => '1',
        2 => '2',
        3 => '3',
        4 => '4',
        5 => '5',
        6 => '6',
        7 => '7',
        8 => '8',
        _ => '9',
    }
}

pub fn fmt_u64(n: u64) -> (r: String)
    ensures
        r@ == dec_spec(n as nat),
    decreases n,
{
    if n < 10 {
        let mut s = String::new();
        push_char(&mut s, dec_digit_of(n));
        proof {
            assert(s@ =~= dec_spec(n as nat));
        }
        s
    } else {
        let mut s = fmt_u64(n / 10);
        push_char(&mut s, dec_digit_of(n % 10));
        s
    }
}

/// The decimal rendering of a signed value: a minus sign before the digits
/// of the magnitude when negative.
pub open spec fn dec_int_spec(n: int) -> Seq<char> {
    if n < 0 {
        seq!['-'] + dec_spec((-n) as nat)
    } else {
        dec_spec(n as nat)
    }
}

pub fn fmt_i32(n: i32) -> (r: String)
    ensures
        r@ == dec_int_spec(n as int),
{
    if n >= 0 {
        fmt_u64(n as u64)
    } else {
        let mag: u64 = (-(n as i64)) as u64;
        let mut s = String::new();
        push_char(&mut s, '-');
        let digits = fmt_u64(mag);
        let s = s.concat(digits.as_str());
        proof {
            assert(s@ =~= dec_int_spec(n as int));
        }
        s
    }
}

// ---------------------------------------------------------------------------
// Capitalisation
// ---------------------------------------------------------------------------

pub open spec fn capitalize_spec(s: Seq<char>) -> Seq<char> {
    if s.len() == 0 {
        s
    } else {
        seq![upper_char(s[0])] + s.drop_first()
    }
}

/// The string with its first character raised to upper case (ASCII).
pub fn capitalize(s: &str) -> (r: String)
    ensures
        r@ == capitalize_spec(s@),
{
    let mut v = chars_of(s);
    if v.len() == 0 {
        return String::new();
    }
    let c = to_upper_char(v[0]);
    v.set(0, c);
    proof {
        assert(v@ =~= capitalize_spec(s@));
    }
    string_of(&v)
}

pub fn capitalize_vec(v: &Vec<char>) -> (r: Vec<char>)
    ensures
        r@ == capitalize_spec(v@),
{
    let mut out = sub_vec(v, 0, v.len());
    proof {
        assert(out@ =~= v@);
    }
    if out.len() == 0 {
        return out;
    }
    let c = to_upper_char(out[0]);
    out.set(0, c);
    proof {
        assert(out@ =~= capitalize_spec(v@));
    }
    out
}

} // verus!

verus! {

// ---------------------------------------------------------------------------
// Position scanning, for the template grammars
// ---------------------------------------------------------------------------

/// The end of the whitespace run starting at `i`.
pub open spec fn ws_end(s: Seq<char>, i: int) -> int
    recommends
        0 <= i <= s.len(),
    decreases s.len() - i,
{
    if i < s.len() && is_space_char(s[i]) {
        ws_end(s, i + 1)
    } else {
        i
    }
}

/// The end of the word-character run starting at `i`.
pub open spec fn word_end(s: Seq<char>, i: int) -> int
    recommends
        0 <= i <= s.len(),
    decreases s.len() - i,
{
    if i < s.len() && is_word_char(s[i]) {
        word_end(s, i + 1)
    } else {
        i
    }
}

/// The end of the current line: the first newline at or after `i`, or the end
/// of the text.
pub open spec fn line_end(s: Seq<char>, i: int) -> int
    recommends
        0 <= i <= s.len(),
    decreases s.len() - i,
{
    if i < s.len() && s[i] != '\n' {
        line_end(s, i + 1)
    } else {
        i
    }
}

proof fn lemma_ws_end_bounds(s: Seq<char>, i: int)
    requires
        0 <= i <= s.len(),
    ensures
        i <= ws_end(s, i) <= s.len(),
    decreases s.len() - i,
{
    if i < s.len() && is_space_char(s[i]) {
        lemma_ws_end_bounds(s, i + 1);
    }
}

pub fn skip_ws(v: &Vec<char>, i: usize) -> (j: usize)
    requires
        i <= v.len(),
    ensures
        j == ws_end(v@, i as int),
        i <= j <= v@.len(),
{
    let mut j = i;
    while j < v.len() && is_space(v[j])
        invariant
            i <= j <= v@.len(),
            ws_end(v@, i as int) == ws_end(v@, j as int),
        decreases v.len() - j,
    {
        j += 1;
    }
    j
}

pub fn skip_word(v: &Vec<char>, i: usize) -> (j: usize)
    requires
        i <= v.len(),
    ensures
        j == word_end(v@, i as int),
        i <= j <= v@.len(),
{
    let mut j = i;
    while j < v.len() && is_word(v[j])
        invariant
            i <= j <= v@.len(),
            word_end(v@, i as int) == word_end(v@, j as int),
        decreases v.len() - j,
    {
        j += 1;
    }
    j
}

pub fn skip_line(v: &Vec<char>, i: usize) -> (j: usize)
    requires
        i <= v.len(),
    ensures
        j == line_end(v@, i as int),
        i <= j <= v@.len(),
{
    let mut j = i;
    while j < v.len() && v[j] != '\n'
        invariant
            i <= j <= v@.len(),
            line_end(v@, i as int) == line_end(v@, j as int),
        decreases v.len() - j,
    {
        j += 1;
    }
    j
}

/// Whether the literal `p` occurs in `v` at position `at`; exec twin of
/// `occurs_at` against a string literal.
pub fn lit_at(v: &Vec<char>, p: &str, at: usize) -> (r: bool)
    requires
        at <= v.len(),
    ensures
        r == occurs_at(v@, p@, at as int),
{
    let pv = chars_of(p);
    starts_with_at(v, &pv, at)
}

} // verus!

verus! {

/// The end of the digit run starting at `i`.
pub open spec fn digit_end(s: Seq<char>, i: int) -> int
    recommends
        0 <= i <= s.len(),
    decreases s.len() - i,
{
    if i < s.len() && is_digit_char(s[i]) {
        digit_end(s, i + 1)
    } else {
        i
    }
}

pub proof fn lemma_digit_end_all_digits(s: Seq<char>, i: int)
    requires
        0 <= i <= s.len(),
    ensures
        forall|j: int| i <= j < digit_end(s, i) ==> is_digit_char(#[trigger] s[j]),
        i <= digit_end(s, i) <= s.len(),
    decreases s.len() - i,
{
    if i < s.len() && is_digit_char(s[i]) {
        lemma_digit_end_all_digits(s, i + 1);
    }
}

pub fn skip_digits(v: &Vec<char>, i: usize) -> (j: usize)
    requires
        i <= v.len(),
    ensures
        j == digit_end(v@, i as int),
        i <= j <= v@.len(),
{
    let mut j = i;
    while j < v.len() && is_digit(v[j])
        invariant
            i <= j <= v@.len(),
            digit_end(v@, i as int) == digit_end(v@, j as int),
        decreases v.len() - j,
    {
        j += 1;
    }
    j
}

} // verus!

verus! {

// ---------------------------------------------------------------------------
// Hexadecimal rendering
// ---------------------------------------------------------------------------

pub open spec fn hex_digit(n: nat) -> char {
    if n < 10 {
        (('0' as u32) + n as u32) as char
    } else {
        (('a' as u32) + (n - 10) as u32) as char
    }
}

/// The lower-case hexadecimal rendering of `n`, without leading zeroes.
pub open spec fn hex_spec(n: nat) -> Seq<char>
    decreases n,
{
    if n < 16 {
        seq![hex_digit(n)]
    } else {
        hex_spec(n / 16).push(hex_digit(n % 16))
    }
}

fn hex_digit_of(n: u64) -> (r: char)
    requires
        n < 16,
    ensures
        r == hex_digit(n as nat),
{
    match n {
        0 => '0',
        1 => '1',
        2 => '2',
        3 => '3',
        4 => '4',
        5 => '5',
        6 => '6',
        7 => '7',
        8 => '8',
        9 => '9',
        10 => 'a',
        11 => 'b',
        12 => 'c',
        13 => 'd',
        14 => 'e',
        _ => 'f',
    }
}

pub fn fmt_hex_u64(n: u64) -> (r: String)
    ensures
        r@ == hex_spec(n as nat),
    decreases n,
{
    if n < 16 {
        let mut s = String::new();
        push_char(&mut s, hex_digit_of(n));
        proof {
            assert(s@ =~= hex_spec(n as nat));
        }
        s
    } else {
        let mut s = fmt_hex_u64(n / 16);
        push_char(&mut s, hex_digit_of(n % 16));
        s
    }
}

} // verus!

verus! {

/// Index of the last occurrence of `c` in `s`, or -1.
pub open spec fn last_idx(s: Seq<char>, c: char) -> int
    decreases s.len(),
{
    if s.len() == 0 {
        -1
    } else if s.last() == c {
        s.len() - 1
    } else {
        last_idx(s.drop_last(), c)
    }
}

pub proof fn lemma_last_idx_none(s: Seq<char>, c: char)
    requires
        forall|j: int| 0 <= j < s.len() ==> s[j] != c,
    ensures
        last_idx(s, c) == -1,
    decreases s.len(),
{
    if s.len() > 0 {
        lemma_last_idx_none(s.drop_last(), c);
    }
}

pub proof fn lemma_last_idx_at(s: Seq<char>, c: char, k: int)
    requires
        0 <= k < s.len(),
        s[k] == c,
        forall|j: int| k < j < s.len() ==> s[j] != c,
    ensures
        last_idx(s, c) == k,
    decreases s.len(),
{
    if k < s.len() - 1 {
        lemma_last_idx_at(s.drop_last(), c, k);
    }
}

/// Index of the first occurrence of the pattern `p` in `s`, or -1.
pub open spec fn seq_find(s: Seq<char>, p: Seq<char>) -> int
    decreases s.len(),
{
    if p.len() > s.len() {
        -1
    } else if s.subrange(0, p.len() as int) == p {
        0
    } else if s.len() == 0 {
        -1
    } else {
        let r = seq_find(s.drop_first(), p);
        if r < 0 {
            -1
        } else {
            r + 1
        }
    }
}

pub proof fn lemma_seq_find_none(s: Seq<char>, p: Seq<char>)
    requires
        forall|j: int| !occurs_at(s, p, j),
    ensures
        seq_find(s, p) == -1,
    decreases s.len(),
{
    if p.len() <= s.len() {
        assert(!occurs_at(s, p, 0));
        assert(s.subrange(0, p.len() as int) != p);
        if s.len() > 0 {
            let t = s.drop_first();
            assert forall|j: int| !occurs_at(t, p, j) by {
                if occurs_at(t, p, j) {
                    assert(t.subrange(j, j + p.len()) =~= s.subrange(j + 1, j + 1 + p.len()));
                    assert(occurs_at(s, p, j + 1));
                }
            }
            lemma_seq_find_none(t, p);
        }
    }
}

pub proof fn lemma_seq_find_at(s: Seq<char>, p: Seq<char>, k: int)
    requires
        occurs_at(s, p, k),
        forall|j: int| 0 <= j < k ==> !occurs_at(s, p, j),
    ensures
        seq_find(s, p) == k,
    decreases s.len(),
{
    if k == 0 {
        assert(s.subrange(0, p.len() as int) == p);
    } else {
        assert(!occurs_at(s, p, 0));
        assert(s.subrange(0, p.len() as int) != p);
        let t = s.drop_first();
        assert(t.subrange(k - 1, k - 1 + p.len()) =~= s.subrange(k, k + p.len()));
        assert(occurs_at(t, p, k - 1));
        assert forall|j: int| 0 <= j < k - 1 implies !occurs_at(t, p, j) by {
            if occurs_at(t, p, j) {
                assert(t.subrange(j, j + p.len()) =~= s.subrange(j + 1, j + 1 + p.len()));
                assert(occurs_at(s, p, j + 1));
            }
        }
        lemma_seq_find_at(t, p, k - 1);
    }
}

/// Exec twin of `seq_find`: first occurrence of pattern `p` in `v`.
pub fn find_first_str(v: &Vec<char>, p: &str) -> (r: Option<usize>)
    ensures
        match r {
            Some(i) => seq_find(v@, p@) == i as int && occurs_at(v@, p@, i as int),
            None => seq_find(v@, p@) == -1,
        },
{
    let pv = chars_of(p);
    match find_seq_from(v, &pv, 0) {
        Some(i) => {
            proof {
                lemma_seq_find_at(v@, p@, i as int);
            }
            Some(i)
        },
        None => {
            proof {
                assert forall|j: int| !occurs_at(v@, p@, j) by {
                    if occurs_at(v@, p@, j) {
                        assert(j >= 0);
                    }
                }
                lemma_seq_find_none(v@, p@);
            }
            None
        },
    }
}

} // verus!

verus! {

pub open spec fn p10(n: nat) -> nat
    decreases n,
{
    if n == 0 {
        1
    } else {
        10 * p10((n - 1) as nat)
    }
}

pub proof fn lemma_digits_val_lt(s: Seq<char>)
    requires
        all_digits(s),
    ensures
        digits_val(s) < p10(s.len()),
    decreases s.len(),
{
    if s.len() > 0 {
        let t = s.drop_last();
        assert(all_digits(t));
        lemma_digits_val_lt(t);
        assert(digit_val(s.last()) <= 9);
    }
}

} // verus!

verus! {

pub proof fn lemma_word_end_bounds(s: Seq<char>, i: int)
    requires
        0 <= i <= s.len(),
    ensures
        i <= word_end(s, i) <= s.len(),
    decreases s.len() - i,
{
    if i < s.len() && is_word_char(s[i]) {
        lemma_word_end_bounds(s, i + 1);
    }
}

} // verus!
