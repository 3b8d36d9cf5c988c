//! The crate-level laws of the loop, stated and proved over the same spec
//! functions the public contracts use.

use vstd::prelude::*;

use crate::agent::decomposer::{pattern_goal_texts, DecomposeStart};
use crate::agent::orchestrator::attempts_monotone;
use crate::agent::thinker::{action_matches_shape, blind_shape, ActionShape};
use crate::text::{contains_seq_spec, lower_seq, occurs_at};
use crate::types::{session_wf, ActionParams, ActionResult, AgentSession, AgentState, AtomicAction};

verus! {

/// A command matched by a fast-path template is decomposed entirely
/// offline: any outcome the decomposer's contract admits for it is `Ready`,
/// never a request for the model.
pub proof fn lemma_fast_path_is_offline(command: Seq<char>, r: DecomposeStart)
    requires
        pattern_goal_texts(lower_seq(command)) is Some,
        match r {
            DecomposeStart::Ready(_) => true,
            DecomposeStart::NeedModel => pattern_goal_texts(lower_seq(command)) is None,
        },
    ensures
        r is Ready,
{
}

/// A goal's attempt counter never exceeds its budget in a well-formed
/// session; every session mutation preserves well-formedness.
pub proof fn lemma_attempts_never_exceed_budget(s: AgentSession, i: int)
    requires
        session_wf(s),
        0 <= i < s.goals@.len(),
    ensures
        s.goals@[i].attempts <= s.goals@[i].max_attempts,
{
}

/// Attempt counters are monotone across any chain of session mutations:
/// monotonicity composes, so attempts never decrease within a run.
pub proof fn lemma_attempts_monotone_composes(
    a: AgentSession,
    b: AgentSession,
    c: AgentSession,
)
    requires
        attempts_monotone(a, b),
        attempts_monotone(b, c),
    ensures
        attempts_monotone(a, c),
{
    assert forall|i: int|
        0 <= i < a.goals@.len() implies a.goals@[i].attempts <= #[trigger] c.goals@[i].attempts
        && a.goals@[i].max_attempts == c.goals@[i].max_attempts by {
        assert(a.goals@[i].attempts <= b.goals@[i].attempts);
        assert(b.goals@[i].attempts <= c.goals@[i].attempts);
    }
}

/// Booking one executed action keeps the action counter equal to the length
/// of the immutable history: the counter moves by exactly one per action,
/// successful or not.
pub proof fn lemma_action_count_tracks_history(
    a: AgentSession,
    b: AgentSession,
    result: ActionResult,
)
    requires
        b.total_actions == a.total_actions + 1,
        b.action_history@ == a.action_history@.push(result),
        a.total_actions as int == a.action_history@.len(),
    ensures
        b.total_actions as int == b.action_history@.len(),
{
}

/// Coordinates from an observation feed back into a click action unchanged.
/// The capture boundary inverts its downscaling before the observation is
/// built, and the action path applies no scaling of its own: the decided
/// click targets exactly the observed point.
pub proof fn lemma_observation_coords_feed_back_unscaled(
    a: AtomicAction,
    x: int,
    y: int,
    goal_desc: Seq<char>,
)
    requires
        action_matches_shape(a, ActionShape::ClickAt { x, y }, goal_desc),
    ensures
        a.params matches ActionParams::MouseClick { x: xx, y: yy, .. } && xx as int == x
            && yy as int == y,
{
}

/// How two action-parameter values can agree: same operation, same texts
/// and numbers, compared by content.
pub open spec fn params_alike(p: ActionParams, q: ActionParams) -> bool {
    match (p, q) {
        (ActionParams::OpenApp { app_name: a }, ActionParams::OpenApp { app_name: b }) => a@
            == b@,
        (ActionParams::TypeText { text: a }, ActionParams::TypeText { text: b }) => a@ == b@,
        (
            ActionParams::PressKey { key: ka, modifiers: ma },
            ActionParams::PressKey { key: kb, modifiers: mb },
        ) => ka@ == kb@ && (match (ma, mb) {
            (None, None) => true,
            (Some(va), Some(vb)) => va@.len() == vb@.len() && forall|i: int|
                0 <= i < va@.len() ==> va@[i]@ == #[trigger] vb@[i]@,
            _ => false,
        }),
        (
            ActionParams::MouseClick { x: xa, y: ya, button: ba },
            ActionParams::MouseClick { x: xb, y: yb, button: bb },
        ) => xa == xb && ya == yb && ba is None && bb is None,
        (ActionParams::MouseMove { x: xa, y: ya }, ActionParams::MouseMove { x: xb, y: yb }) => xa
            == xb && ya == yb,
        (ActionParams::Wait { ms: a }, ActionParams::Wait { ms: b }) => a == b,
        (
            ActionParams::FindAndClick { element: a },
            ActionParams::FindAndClick { element: b },
        ) => a@ == b@,
        _ => false,
    }
}

/// Parsing is pure: re-parsing the same raw model text yields the same
/// typed result.  Two actions read from the same first line under the
/// blind-decision grammar agree in type, parameters and rationale;
/// only the minted instance id may differ.
pub proof fn lemma_reparse_yields_same_action(
    line: Seq<char>,
    orig: Seq<char>,
    goal_desc: Seq<char>,
    a: AtomicAction,
    b: AtomicAction,
)
    requires
        action_matches_shape(a, blind_shape(line, orig), goal_desc),
        action_matches_shape(b, blind_shape(line, orig), goal_desc),
    ensures
        a.action_type == b.action_type,
        params_alike(a.params, b.params),
        a.rationale@ == b.rationale@,
{
    let sh = blind_shape(line, orig);
    match sh {
        ActionShape::Key { combo } => {
            let sm = crate::agent::thinker::combo_modifiers(combo);
            match (a.params, b.params) {
                (
                    ActionParams::PressKey { key: ka, modifiers: ma },
                    ActionParams::PressKey { key: kb, modifiers: mb },
                ) => {
                    match (sm, ma, mb) {
                        (Some(ms), Some(va), Some(vb)) => {
                            assert(va@.len() == ms.len());
                            assert(vb@.len() == ms.len());
                            assert forall|i: int| 0 <= i < va@.len() implies va@[i]@
                                == #[trigger] vb@[i]@ by {
                                assert(va@[i]@ == ms[i]);
                                assert(vb@[i]@ == ms[i]);
                            }
                        },
                        _ => {},
                    }
                },
                _ => {},
            }
        },
        _ => {},
    }
}

/// A cancelled run ends loudly: the state is the terminal `Error` and the
/// message, lower-cased, names the cancellation.
pub proof fn lemma_cancelled_run_names_cancellation(s: AgentSession)
    requires
        s.state == AgentState::Error,
        s.error matches Some(m) && m@ == "Cancelled by user"@,
    ensures
        s.error matches Some(m) && contains_seq_spec(lower_seq(m@), "cancel"@),
{
    reveal_strlit("Cancelled by user");
    reveal_strlit("cancel");
    let m = s.error->Some_0;
    let low = lower_seq(m@);
    assert(low.subrange(0, 6) =~= "cancel"@);
    assert(occurs_at(low, "cancel"@, 0));
}

} // verus!
