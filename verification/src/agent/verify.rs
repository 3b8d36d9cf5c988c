//! Reading the verification boundary's verdict.
//!
//! Verdict extraction never fails: the achieved and progress flags come from
//! token presence, defaulting to false when the tokens are absent, and the
//! note is the last non-empty line (with a leading `observation:` label
//! dropped and long notes capped).

use vstd::prelude::*;

use crate::agent::observer::Observer;
use crate::text::{
    chars_of, contains_seq_spec, contains_str, eq_chars, is_space, is_space_char, line_split,
    lower_seq, occurs_at, split_lines, string_of, sub_vec, to_lower_vec, trim_spec, trim_vec,
};
use crate::types::{AtomicAction, Goal, VerificationResult};

verus! {

// ---------------------------------------------------------------------------
// Verdict tokens
// ---------------------------------------------------------------------------

/// The goal counts as achieved when the response says "achieved" and nowhere
/// takes it back.
pub open spec fn achieved_spec(low: Seq<char>) -> bool {
    contains_seq_spec(low, "achieved"@) && !contains_seq_spec(low, "not_achieved"@)
        && !contains_seq_spec(low, "not achieved"@)
}

/// Progress counts as made when the response says "progress" and nowhere
/// denies it.
pub open spec fn progress_spec(low: Seq<char>) -> bool {
    contains_seq_spec(low, "progress"@) && !contains_seq_spec(low, "no_progress"@)
        && !contains_seq_spec(low, "no progress"@)
}

// ---------------------------------------------------------------------------
// The observation note
// ---------------------------------------------------------------------------

/// The end of the run of `:` and whitespace characters starting at `i`.
pub open spec fn obs_sep_end(s: Seq<char>, i: int) -> int
    recommends
        0 <= i <= s.len(),
    decreases s.len() - i,
{
    if i < s.len() && (s[i] == ':' || is_space_char(s[i])) {
        obs_sep_end(s, i + 1)
    } else {
        i
    }
}

fn skip_obs_sep(v: &Vec<char>, i: usize) -> (j: usize)
    requires
        i <= v.len(),
    ensures
        j == obs_sep_end(v@, i as int),
        i <= j <= v@.len(),
{
    let mut j = i;
    while j < v.len() && (v[j] == ':' || is_space(v[j]))
        invariant
            i <= j <= v@.len(),
            obs_sep_end(v@, i as int) == obs_sep_end(v@, j as int),
        decreases v.len() - j,
    {
        j += 1;
    }
    j
}

/// A trimmed line with a leading `observation` label (case-insensitive) and
/// its separator dropped, when one is there with text after it.
pub open spec fn strip_obs_prefix(l: Seq<char>) -> Seq<char> {
    if occurs_at(lower_seq(l), "observation"@, 0) {
        let e = obs_sep_end(l, 11);
        if e > 11 && e < l.len() {
            l.subrange(e, l.len() as int)
        } else {
            l
        }
    } else {
        l
    }
}

/// Long notes keep only their last hundred characters.
pub open spec fn cap_note(l: Seq<char>) -> Seq<char> {
    if l.len() <= 100 {
        l
    } else {
        l.subrange(l.len() - 100, l.len() as int)
    }
}

/// The last line of the response whose trimmed text is non-empty, trimmed.
pub open spec fn last_good_line(lines: Seq<Seq<char>>) -> Option<Seq<char>>
    decreases lines.len(),
{
    if lines.len() == 0 {
        None
    } else if trim_spec(lines.last()).len() > 0 {
        Some(trim_spec(lines.last()))
    } else {
        last_good_line(lines.drop_last())
    }
}

/// The note a verdict carries.
pub open spec fn obs_note(resp: Seq<char>) -> Seq<char> {
    match last_good_line(line_split(resp)) {
        Some(l) => cap_note(strip_obs_prefix(l)),
        None => "No observation"@,
    }
}

/// Extracts the observation note from a verdict response.
pub fn extract_observation(response: &str) -> (r: String)
    ensures
        r@ == obs_note(response@),
{
    let rv = chars_of(response);
    let lines = split_lines(&rv);
    let ghost all = line_split(rv@);
    let mut i: usize = lines.len();
    proof {
        assert(all.subrange(0, all.len() as int) =~= all);
    }
    loop
        invariant
            i <= lines@.len(),
            lines@.len() == all.len(),
            all == line_split(rv@),
            rv@ == response@,
            forall|k: int| 0 <= k < lines@.len() ==> lines@[k]@ == all[k],
            last_good_line(all) == last_good_line(all.subrange(0, i as int)),
        decreases i,
    {
        if i == 0 {
            proof {
                assert(all.subrange(0, 0) =~= Seq::<Seq<char>>::empty());
            }
            return String::from_str("No observation");
        }
        let t = trim_vec(&lines[i - 1]);
        let ghost prefix = all.subrange(0, i as int);
        proof {
            assert(prefix.last() == all[i - 1]);
            assert(prefix.drop_last() =~= all.subrange(0, i - 1));
        }
        if t.len() > 0 {
            // drop a leading `observation:` label
            let low = to_lower_vec(&t);
            let stripped: Vec<char> = if crate::text::lit_at(&low, "observation", 0) {
                proof {
                    reveal_strlit("observation");
                }
                let e = skip_obs_sep(&t, 11);
                if e > 11 && e < t.len() {
                    sub_vec(&t, e, t.len())
                } else {
                    t
                }
            } else {
                t
            };
            let capped: Vec<char> = if stripped.len() <= 100 {
                stripped
            } else {
                sub_vec(&stripped, stripped.len() - 100, stripped.len())
            };
            return string_of(&capped);
        }
        i -= 1;
    }
}

// ---------------------------------------------------------------------------
// The verdict
// ---------------------------------------------------------------------------

/// Reads a verdict out of the verification response.  Never fails: absent
/// tokens leave both flags false.
pub fn parse_verification_response(response: &str, goal: &Goal, action: &AtomicAction) -> (r:
    Result<VerificationResult, String>)
    ensures
        r matches Ok(v) && ({
            let low = lower_seq(response@);
            &&& v.goal_id@ == goal.id@
            &&& v.action_id@ == action.id@
            &&& v.goal_achieved == achieved_spec(low)
            &&& v.progress_made == progress_spec(low)
            &&& v.observation@ == obs_note(response@)
        }),
{
    let rv = chars_of(response);
    let low = to_lower_vec(&rv);
    let goal_achieved = contains_str(&low, "achieved") && !contains_str(&low, "not_achieved")
        && !contains_str(&low, "not achieved");
    let progress_made = contains_str(&low, "progress") && !contains_str(&low, "no_progress")
        && !contains_str(&low, "no progress");
    let observation = extract_observation(response);
    Ok(
        VerificationResult {
            goal_id: goal.id.clone(),
            action_id: action.id.clone(),
            goal_achieved,
            progress_made,
            observation,
        },
    )
}

pub struct Verifier {
    observer: Observer,
}

impl Verifier {
    pub fn new() -> Verifier {
        Verifier { observer: Observer::new() }
    }

    /// Quick verification: the screen changed iff the capture fingerprints
    /// differ.
    pub fn quick_verify(&self, before_hash: &str, after_hash: &str) -> (r: bool)
        ensures
            r == (before_hash@ != after_hash@),
    {
        let a = chars_of(before_hash);
        let b = chars_of(after_hash);
        !eq_chars(&a, &b)
    }
}

} // verus!
