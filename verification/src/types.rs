//! Data model of the goal-driven loop: lifecycle states, goals, screen
//! observations, atomic actions and their results, and the per-run session.

use vstd::prelude::*;

use crate::ext::fresh_id;
use crate::ext::now_millis;

verus! {

/// A goal starts with this attempt budget.
pub const DEFAULT_MAX_ATTEMPTS: u32 = 5;

/// A session starts with this global action budget.
pub const DEFAULT_MAX_TOTAL_ACTIONS: u32 = 50;

// ---------------------------------------------------------------------------
// Agent state machine
// ---------------------------------------------------------------------------

#[derive(Clone, Copy, Debug, PartialEq, Eq, Structural)]
pub enum AgentState {
    Idle,
    Decomposing,
    Observing,
    Thinking,
    Acting,
    Verifying,
    Complete,
    Error,
}

impl Default for AgentState {
    fn default() -> (r: Self)
        ensures
            r == AgentState::Idle,
    {
        AgentState::Idle
    }
}

// ---------------------------------------------------------------------------
// Goals
// ---------------------------------------------------------------------------

#[derive(Clone, Copy, Debug, PartialEq, Eq, Structural)]
pub enum GoalStatus {
    Pending,
    InProgress,
    Completed,
    Failed,
}

/// How a command was decomposed: by a deterministic template (`"pattern"`)
/// or by a model call (`"llm"`).
#[derive(Clone, Debug)]
pub struct DecompositionInfo {
    pub method: String,
    pub pattern_name: Option<String>,
    pub original_command: String,
}

#[derive(Clone, Debug)]
pub struct Goal {
    pub id: String,
    pub description: String,
    pub success_criteria: String,
    pub status: GoalStatus,
    pub attempts: u32,
    pub max_attempts: u32,
}

/// The one invariant a goal carries through a run: its attempt counter never
/// passes its budget.
pub open spec fn goal_wf(g: Goal) -> bool {
    g.attempts <= g.max_attempts
}

impl Goal {
    pub fn new(description: String, success_criteria: String) -> (g: Goal)
        ensures
            g.description == description,
            g.success_criteria == success_criteria,
            g.status == GoalStatus::Pending,
            g.attempts == 0,
            g.max_attempts == DEFAULT_MAX_ATTEMPTS,
            goal_wf(g),
    {
        Goal {
            id: fresh_id(),
            description,
            success_criteria,
            status: GoalStatus::Pending,
            attempts: 0,
            max_attempts: DEFAULT_MAX_ATTEMPTS,
        }
    }
}

// ---------------------------------------------------------------------------
// Screen observation
// ---------------------------------------------------------------------------

/// Signed division by two that rounds toward zero, as the hardware does.
pub open spec fn div2_toward_zero(n: int) -> int {
    if n >= 0 {
        n / 2
    } else {
        -((-n) / 2)
    }
}

/// A UI element the vision boundary detected, as a bounding box in original
/// screen coordinates.
#[derive(Clone, Debug)]
pub struct UIElement {
    pub label: String,
    pub element_type: String,
    pub x1: i32,
    pub y1: i32,
    pub x2: i32,
    pub y2: i32,
}

impl UIElement {
    /// The centre of the bounding box.
    pub fn center(&self) -> (r: (i32, i32))
        ensures
            r.0 == div2_toward_zero(self.x1 + self.x2),
            r.1 == div2_toward_zero(self.y1 + self.y2),
    {
        (half_of_sum(self.x1, self.x2), half_of_sum(self.y1, self.y2))
    }

    /// Width and height of the bounding box.
    pub fn size(&self) -> (r: (i32, i32))
        requires
            -i32::MAX <= self.x2 - self.x1 <= i32::MAX,
            -i32::MAX <= self.y2 - self.y1 <= i32::MAX,
        ensures
            r.0 == abs(self.x2 - self.x1),
            r.1 == abs(self.y2 - self.y1),
    {
        (abs_of_diff(self.x1, self.x2), abs_of_diff(self.y1, self.y2))
    }
}

pub open spec fn abs(n: int) -> int {
    if n >= 0 {
        n
    } else {
        -n
    }
}

fn half_of_sum(a: i32, b: i32) -> (r: i32)
    ensures
        r == div2_toward_zero(a + b),
{
    let s: i64 = a as i64 + b as i64;
    proof {
        assert(-0x1_0000_0000 <= s <= 0xffff_fffe);
    }
    if s >= 0 {
        let q: u64 = (s as u64) / 2;
        proof {
            assert(q <= 0x7fff_ffff);
        }
        q as i32
    } else {
        let m: u64 = (-s) as u64;
        let q: u64 = m / 2;
        proof {
            assert(q <= 0x8000_0000);
        }
        let qi: i64 = -(q as i64);
        qi as i32
    }
}

fn abs_of_diff(a: i32, b: i32) -> (r: i32)
    requires
        -i32::MAX <= b - a <= i32::MAX,
    ensures
        r == abs(b - a),
{
    let d: i64 = b as i64 - a as i64;
    if d >= 0 {
        d as i32
    } else {
        (-d) as i32
    }
}

/// A detected element the coarse observation shape carries.  Confidence is a
/// percentage; the boundary that fills it reports full confidence.
#[derive(Clone, Debug)]
pub struct DetectedElement {
    pub description: String,
    pub location: Option<(i32, i32)>,
    pub confidence: u8,
}

/// A normalized snapshot of the screen.  Coordinates in `ui_elements` are
/// always in original screen space: the capture boundary inverts any
/// downscaling before an observation is built.
#[derive(Clone, Debug)]
pub struct ScreenState {
    pub timestamp: u64,
    pub description: String,
    pub ui_elements: Vec<UIElement>,
    pub detected_elements: Vec<DetectedElement>,
    pub active_app: Option<String>,
    pub screenshot_hash: String,
}

impl ScreenState {
    pub fn new(description: String) -> (s: ScreenState)
        ensures
            s.description == description,
            s.ui_elements@ =~= Seq::<UIElement>::empty(),
            s.detected_elements@ =~= Seq::<DetectedElement>::empty(),
            s.active_app is None,
            s.screenshot_hash@ =~= Seq::<char>::empty(),
    {
        ScreenState {
            timestamp: now_millis(),
            description,
            ui_elements: Vec::new(),
            detected_elements: Vec::new(),
            active_app: None,
            screenshot_hash: String::new(),
        }
    }
}

// ---------------------------------------------------------------------------
// Atomic actions
// ---------------------------------------------------------------------------

#[derive(Clone, Copy, Debug, PartialEq, Eq, Structural)]
pub enum ActionType {
    OpenApp,
    TypeText,
    PressKey,
    MouseClick,
    MouseMove,
    Wait,
    FindAndClick,
}

#[derive(Clone, Debug, PartialEq, Eq)]
pub enum ActionParams {
    OpenApp { app_name: String },
    TypeText { text: String },
    PressKey { key: String, modifiers: Option<Vec<String>> },
    MouseClick { x: i32, y: i32, button: Option<String> },
    MouseMove { x: i32, y: i32 },
    Wait { ms: u64 },
    FindAndClick { element: String },
}

/// The smallest executable unit: one typed operation with its parameters and
/// the reasoning that produced it.  Immutable once created; consumed exactly
/// once by the actuator.
#[derive(Clone, Debug)]
pub struct AtomicAction {
    pub id: String,
    pub action_type: ActionType,
    pub params: ActionParams,
    pub rationale: String,
}

impl AtomicAction {
    pub fn new(action_type: ActionType, params: ActionParams, rationale: String) -> (a:
        AtomicAction)
        ensures
            a.action_type == action_type,
            a.params == params,
            a.rationale == rationale,
    {
        AtomicAction { id: fresh_id(), action_type, params, rationale }
    }
}

// ---------------------------------------------------------------------------
// Results
// ---------------------------------------------------------------------------

#[derive(Clone, Debug)]
pub struct ActionResult {
    pub action_id: String,
    pub success: bool,
    pub error_message: Option<String>,
    pub screen_changed: bool,
}

#[derive(Clone, Debug)]
pub struct VerificationResult {
    pub goal_id: String,
    pub action_id: String,
    pub goal_achieved: bool,
    pub progress_made: bool,
    pub observation: String,
}

// ---------------------------------------------------------------------------
// Session
// ---------------------------------------------------------------------------

/// The aggregate record of one run.  Owned exclusively by the orchestrator;
/// listeners only ever receive copies.
#[derive(Clone, Debug)]
pub struct AgentSession {
    pub id: String,
    pub original_command: String,
    pub goals: Vec<Goal>,
    pub current_goal_index: usize,
    pub state: AgentState,
    pub action_history: Vec<ActionResult>,
    pub total_actions: u32,
    pub max_total_actions: u32,
    pub current_action: Option<AtomicAction>,
    pub last_observation: Option<ScreenState>,
    pub error: Option<String>,
}

/// Session well-formedness: every goal respects its attempt budget.
pub open spec fn session_wf(s: AgentSession) -> bool {
    forall|i: int| 0 <= i < s.goals@.len() ==> goal_wf(#[trigger] s.goals@[i])
}

impl AgentSession {
    pub fn new(command: String) -> (s: AgentSession)
        ensures
            s.original_command == command,
            s.goals@ =~= Seq::<Goal>::empty(),
            s.current_goal_index == 0,
            s.state == AgentState::Idle,
            s.action_history@ =~= Seq::<ActionResult>::empty(),
            s.total_actions == 0,
            s.max_total_actions == DEFAULT_MAX_TOTAL_ACTIONS,
            s.current_action is None,
            s.last_observation is None,
            s.error is None,
            session_wf(s),
    {
        AgentSession {
            id: fresh_id(),
            original_command: command,
            goals: Vec::new(),
            current_goal_index: 0,
            state: AgentState::Idle,
            action_history: Vec::new(),
            total_actions: 0,
            max_total_actions: DEFAULT_MAX_TOTAL_ACTIONS,
            current_action: None,
            last_observation: None,
            error: None,
        }
    }

    /// The goal the loop is working on, if any goals remain.
    pub fn current_goal(&self) -> (r: Option<&Goal>)
        ensures
            match r {
                Some(g) => self.current_goal_index < self.goals@.len() && *g
                    == self.goals@[self.current_goal_index as int],
                None => self.current_goal_index >= self.goals@.len(),
            },
    {
        if self.current_goal_index < self.goals.len() {
            Some(&self.goals[self.current_goal_index])
        } else {
            None
        }
    }
}

// ---------------------------------------------------------------------------
// Pre-planned action sequences (the one-shot plan shape)
// ---------------------------------------------------------------------------

#[derive(Clone, Debug)]
pub struct ActionStep {
    pub id: String,
    pub action_type: ActionType,
    pub description: String,
    pub params: ActionParams,
}

#[derive(Clone, Debug)]
pub struct ActionPlan {
    pub id: String,
    pub original_command: String,
    pub steps: Vec<ActionStep>,
    pub requires_confirmation: bool,
}

#[derive(Clone, Copy, Debug, PartialEq, Eq, Structural)]
pub enum MouseButton {
    Left,
    Right,
}

impl Default for MouseButton {
    fn default() -> (r: Self)
        ensures
            r == MouseButton::Left,
    {
        MouseButton::Left
    }
}

impl MouseButton {
    /// The button an optional textual selector denotes: `"right"` selects the
    /// right button, anything else the left one.
    pub fn from_selector(s: Option<&String>) -> (r: MouseButton)
        ensures
            r == (match s {
                Some(t) => if t@ == "right"@ {
                    MouseButton::Right
                } else {
                    MouseButton::Left
                },
                None => MouseButton::Left,
            }),
    {
        match s {
            Some(t) => {
                let v = crate::text::chars_of(t.as_str());
                if crate::text::eq_str(&v, "right") {
                    MouseButton::Right
                } else {
                    MouseButton::Left
                }
            },
            None => MouseButton::Left,
        }
    }
}

// ---------------------------------------------------------------------------
// Model-call bookkeeping events
// ---------------------------------------------------------------------------

#[derive(Clone, Copy, Debug, PartialEq, Eq, Structural)]
pub enum LlmCallType {
    Decomposition,
    ScreenDescription,
    ActionDecision,
    Verification,
    FindElement,
}

#[derive(Clone, Debug)]
pub struct LlmDebugEvent {
    pub call_id: String,
    pub call_type: LlmCallType,
    pub model: String,
    pub prompt: String,
    pub timestamp: u64,
}

#[derive(Clone, Debug)]
pub struct LlmResponseEvent {
    pub call_id: String,
    pub raw_response: String,
    pub parsed_result: Option<String>,
    pub duration_ms: u64,
    pub success: bool,
    pub error: Option<String>,
}

} // verus!

verus! {

/// One listed element: bounding box and centre, as the decision prompt
/// shows it.
pub open spec fn ui_element_line(e: UIElement) -> Seq<char> {
    "- "@ + e.element_type@ + " '"@ + e.label@ + "' at ("@ + crate::text::dec_int_spec(
        e.x1 as int,
    ) + ", "@ + crate::text::dec_int_spec(e.y1 as int) + ") to ("@ + crate::text::dec_int_spec(
        e.x2 as int,
    ) + ", "@ + crate::text::dec_int_spec(e.y2 as int) + ") [center: "@
        + crate::text::dec_int_spec(div2_toward_zero(e.x1 + e.x2)) + ", "@
        + crate::text::dec_int_spec(div2_toward_zero(e.y1 + e.y2)) + "]"@
}

pub open spec fn ui_lines(es: Seq<UIElement>) -> Seq<char>
    decreases es.len(),
{
    if es.len() == 0 {
        Seq::empty()
    } else if es.len() == 1 {
        ui_element_line(es[0])
    } else {
        ui_lines(es.drop_last()) + "\n"@ + ui_element_line(es.last())
    }
}

impl ScreenState {
    /// Renders the detected elements for the decision prompt, one line per
    /// element.
    pub fn format_ui_elements(&self) -> (r: String)
        ensures
            r@ == (if self.ui_elements@.len() == 0 {
                "No UI elements detected"@
            } else {
                ui_lines(self.ui_elements@)
            }),
    {
        if self.ui_elements.len() == 0 {
            return String::from_str("No UI elements detected");
        }
        let mut out = String::new();
        let mut i: usize = 0;
        while i < self.ui_elements.len()
            invariant
                i <= self.ui_elements@.len(),
                out@ == ui_lines(self.ui_elements@.subrange(0, i as int)),
            decreases self.ui_elements.len() - i,
        {
            let e = &self.ui_elements[i];
            let (cx, cy) = e.center();
            let line = String::from_str("- ").concat(e.element_type.as_str()).concat(" '").concat(
                e.label.as_str(),
            ).concat("' at (").concat(crate::text::fmt_i32(e.x1).as_str()).concat(", ").concat(
                crate::text::fmt_i32(e.y1).as_str(),
            ).concat(") to (").concat(crate::text::fmt_i32(e.x2).as_str()).concat(", ").concat(
                crate::text::fmt_i32(e.y2).as_str(),
            ).concat(") [center: ").concat(crate::text::fmt_i32(cx).as_str()).concat(", ").concat(
                crate::text::fmt_i32(cy).as_str(),
            ).concat("]");
            if i > 0 {
                out = out.concat("\n");
            }
            out = out.concat(line.as_str());
            i += 1;
            proof {
                let pre2 = self.ui_elements@.subrange(0, i as int);
                assert(pre2.drop_last() =~= self.ui_elements@.subrange(0, i - 1));
                assert(pre2.last() == self.ui_elements@[i - 1]);
            }
        }
        proof {
            assert(self.ui_elements@.subrange(0, self.ui_elements@.len() as int)
                =~= self.ui_elements@);
        }
        out
    }
}

} // verus!
