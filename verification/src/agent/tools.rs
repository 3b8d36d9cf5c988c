//! The coarse loop's vocabulary: tools, their results, and the plan whose
//! steps resolve to tool batches.

use vstd::prelude::*;

use crate::ext::fresh_id;
use crate::text::{dec_spec, fmt_u64};

verus! {

/// One primitive operation of the coarse loop, plus the terminal control
/// values the finer loop's actions do not have.
#[derive(Clone, Debug, PartialEq, Eq)]
pub enum Tool {
    /// Capture the screen and detect UI elements.
    Screenshot,
    Click { x: i32, y: i32 },
    DoubleClick { x: i32, y: i32 },
    Type { text: String },
    Key { key: String, modifiers: Option<Vec<String>> },
    Wait { ms: u64 },
    OpenApp { name: String },
    Scroll { direction: ScrollDirection, amount: i32 },
    /// The current plan step is done; move on.
    StepDone,
    /// The whole task is done.
    Done { summary: String },
    /// The task cannot be completed.
    Fail { reason: String },
}

#[derive(Clone, Copy, Debug, PartialEq, Eq, Structural)]
pub enum ScrollDirection {
    Up,
    Down,
    Left,
    Right,
}

#[derive(Clone, Debug)]
pub struct ToolResult {
    pub tool: String,
    pub success: bool,
    pub output: Option<ToolOutput>,
    pub error: Option<String>,
}

#[derive(Clone, Debug)]
pub enum ToolOutput {
    Screenshot { elements: Vec<UIElement>, active_app: Option<String> },
    Ack,
}

/// A detected element, reduced to its centre, in original screen space.
#[derive(Clone, Debug)]
pub struct UIElement {
    pub label: String,
    pub element_type: String,
    pub x: i32,
    pub y: i32,
}

// ---------------------------------------------------------------------------
// Plans
// ---------------------------------------------------------------------------

#[derive(Clone, Copy, Debug, PartialEq, Eq, Structural)]
pub enum StepStatus {
    Pending,
    InProgress,
    Done,
    Failed,
}

#[derive(Clone, Debug)]
pub struct PlanStep {
    pub id: usize,
    pub description: String,
    pub status: StepStatus,
}

/// An ordered list of coarse steps.  Exactly one step is in progress at a
/// time, until the plan is exhausted.
#[derive(Clone, Debug)]
pub struct Plan {
    pub task: String,
    pub steps: Vec<PlanStep>,
    pub current_step: usize,
}

/// The plan invariant: steps are numbered in order, everything before the
/// current step is done, the current step (if any) is in progress, and
/// everything after it is pending.
pub open spec fn plan_wf(p: Plan) -> bool {
    &&& p.current_step <= p.steps@.len()
    &&& forall|i: int| 0 <= i < p.steps@.len() ==> (#[trigger] p.steps@[i]).id == i
    &&& forall|i: int|
        0 <= i < p.steps@.len() ==> (#[trigger] p.steps@[i]).status == (if i
            < p.current_step as int {
            StepStatus::Done
        } else if i == p.current_step as int {
            StepStatus::InProgress
        } else {
            StepStatus::Pending
        })
}

impl Plan {
    /// A fresh plan over the given step descriptions, with the first step
    /// already in progress.
    pub fn new(task: String, step_descriptions: Vec<String>) -> (p: Plan)
        ensures
            p.task == task,
            p.current_step == 0,
            p.steps@.len() == step_descriptions@.len(),
            forall|i: int|
                0 <= i < p.steps@.len() ==> (#[trigger] p.steps@[i]).description
                    == step_descriptions@[i],
            plan_wf(p),
    {
        let mut steps: Vec<PlanStep> = Vec::new();
        let mut i: usize = 0;
        let n = step_descriptions.len();
        let mut descs = step_descriptions;
        let ghost descs0 = descs@;
        while descs.len() > 0
            invariant
                steps@.len() + descs@.len() == descs0.len(),
                descs@ =~= descs0.subrange(steps@.len() as int, descs0.len() as int),
                forall|q: int|
                    0 <= q < steps@.len() ==> (#[trigger] steps@[q]).description == descs0[q]
                        && steps@[q].id == q && steps@[q].status == (if q == 0 {
                        StepStatus::InProgress
                    } else {
                        StepStatus::Pending
                    }),
            decreases descs.len(),
        {
            let desc = descs.remove(0);
            let id = steps.len();
            let status = if id == 0 {
                StepStatus::InProgress
            } else {
                StepStatus::Pending
            };
            steps.push(PlanStep { id, description: desc, status });
            proof {
                assert(descs@ =~= descs0.subrange(steps@.len() as int, descs0.len() as int));
            }
        }
        Plan { task, steps, current_step: 0 }
    }

    /// The description of the step being worked on, if the plan is not
    /// exhausted.
    pub fn current_step_desc(&self) -> (r: Option<&str>)
        ensures
            match r {
                Some(d) => self.current_step < self.steps@.len() && d@
                    == self.steps@[self.current_step as int].description@,
                None => self.current_step >= self.steps@.len(),
            },
    {
        if self.current_step < self.steps.len() {
            Some(self.steps[self.current_step].description.as_str())
        } else {
            None
        }
    }

    /// Marks the current step done and the next one in progress.  Returns
    /// whether a step remains; on an exhausted plan this is a no-op.
    pub fn advance(&mut self) -> (more: bool)
        requires
            plan_wf(*old(self)),
        ensures
            plan_wf(*final(self)),
            final(self).task == old(self).task,
            final(self).steps@.len() == old(self).steps@.len(),
            forall|i: int|
                0 <= i < final(self).steps@.len() ==> (#[trigger] final(self).steps@[i]).description
                    == old(self).steps@[i].description,
            old(self).current_step < old(self).steps@.len() ==> final(self).current_step
                == old(self).current_step + 1,
            old(self).current_step >= old(self).steps@.len() ==> final(self).current_step
                == old(self).current_step,
            more == (final(self).current_step < final(self).steps@.len()),
    {
        if self.current_step >= self.steps.len() {
            return false;
        }
        let i = self.current_step;
        let g = &self.steps[i];
        let done = PlanStep { id: g.id, description: g.description.clone(), status: StepStatus::Done };
        self.steps.set(i, done);
        self.current_step = i + 1;
        if self.current_step < self.steps.len() {
            let j = self.current_step;
            let g2 = &self.steps[j];
            let cur = PlanStep {
                id: g2.id,
                description: g2.description.clone(),
                status: StepStatus::InProgress,
            };
            self.steps.set(j, cur);
            true
        } else {
            false
        }
    }

    pub fn is_complete(&self) -> (r: bool)
        ensures
            r == (self.current_step >= self.steps@.len()),
    {
        self.current_step >= self.steps.len()
    }

    /// Renders the plan as a checklist, one step per line.
    pub fn format(&self) -> (r: String)
        requires
            plan_wf(*self),
        ensures
            r@ == plan_lines_spec(self.steps@),
    {
        let mut out = String::new();
        let mut i: usize = 0;
        while i < self.steps.len()
            invariant
                i <= self.steps@.len(),
                forall|q: int| 0 <= q < self.steps@.len() ==> (#[trigger] self.steps@[q]).id < self.steps@.len(),
                out@ == plan_lines_spec(self.steps@.subrange(0, i as int)),
            decreases self.steps.len() - i,
        {
            let s = &self.steps[i];
            let marker: &str = match s.status {
                StepStatus::Done => "[x]",
                StepStatus::InProgress => "[>]",
                StepStatus::Failed => "[!]",
                StepStatus::Pending => "[ ]",
            };
            let num = fmt_u64((s.id as u64) + 1);
            let mut line = String::from_str(marker).concat(" ").concat(num.as_str()).concat(
                ". ",
            ).concat(s.description.as_str());
            if i > 0 {
                out = out.concat("\n");
            }
            out = out.concat(line.as_str());
            i += 1;
            proof {
                let prefix = self.steps@.subrange(0, i as int);
                assert(prefix.drop_last() =~= self.steps@.subrange(0, i - 1));
                assert(prefix.last() == self.steps@[i - 1]);
            }
        }
        proof {
            assert(self.steps@.subrange(0, self.steps@.len() as int) =~= self.steps@);
        }
        out
    }
}

pub open spec fn step_marker(st: StepStatus) -> Seq<char> {
    match st {
        StepStatus::Done => "[x]"@,
        StepStatus::InProgress => "[>]"@,
        StepStatus::Failed => "[!]"@,
        StepStatus::Pending => "[ ]"@,
    }
}

pub open spec fn step_line(s: PlanStep) -> Seq<char> {
    step_marker(s.status) + " "@ + dec_spec((s.id + 1) as nat) + ". "@ + s.description@
}

pub open spec fn plan_lines_spec(steps: Seq<PlanStep>) -> Seq<char>
    decreases steps.len(),
{
    if steps.len() == 0 {
        Seq::empty()
    } else if steps.len() == 1 {
        step_line(steps[0])
    } else {
        plan_lines_spec(steps.drop_last()) + "\n"@ + step_line(steps.last())
    }
}

// ---------------------------------------------------------------------------
// The coarse loop's session
// ---------------------------------------------------------------------------

#[derive(Clone, Copy, Debug, PartialEq, Eq, Structural)]
pub enum AgentState {
    Idle,
    Planning,
    Executing,
    Done,
    Failed,
}

/// The record of one coarse run: the task, the plan, the lifecycle state
/// and a count of every executed tool.
#[derive(Clone, Debug)]
pub struct AgentSession {
    pub id: String,
    pub task: String,
    pub state: AgentState,
    pub plan: Option<Plan>,
    pub step_count: usize,
    pub error: Option<String>,
}

impl AgentSession {
    pub fn new(task: String) -> (s: AgentSession)
        ensures
            s.task == task,
            s.state == AgentState::Idle,
            s.plan is None,
            s.step_count == 0,
            s.error is None,
    {
        AgentSession {
            id: fresh_id(),
            task,
            state: AgentState::Idle,
            plan: None,
            step_count: 0,
            error: None,
        }
    }
}

} // verus!
