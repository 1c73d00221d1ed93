//! The validation routine of an accounts structure, as a list of steps.
//!
//! When an instruction runs, its routine walks a cursor over the raw account
//! records that came with the instruction. The routine is laid out when the
//! structure is defined; the steps say what is done, and in which order.

use vstd::prelude::*;

verus! {

/// One step of a validation routine. Fields and constraints are named by
/// their index in the structure and in the field's constraint list.
#[derive(Clone, Copy, Debug, PartialEq, Eq, Structural)]
pub enum Step {
    /// Hand the cursor to the routine of the nested group that the field is;
    /// that routine consumes as many records as it needs.
    Delegate { field: usize },
    /// Take one record off the cursor and hold it back, undeserialized.
    Defer { field: usize },
    /// Take one record off the cursor and deserialize it into the field's
    /// typed form; with `init`, as an account that is yet to be initialized.
    Deserialize { field: usize, init: bool },
    /// Check one constraint of a field.
    Check { field: usize, constraint: usize },
}

/// The mathematical reading of a [`Step`].
pub enum StepView {
    Delegate { field: int },
    Defer { field: int },
    Deserialize { field: int, init: bool },
    Check { field: int, constraint: int },
}

impl DeepView for Step {
    type V = StepView;

    open spec fn deep_view(&self) -> StepView {
        match self {
            Step::Delegate { field } => StepView::Delegate { field: *field as int },
            Step::Defer { field } => StepView::Defer { field: *field as int },
            Step::Deserialize { field, init } => StepView::Deserialize {
                field: *field as int,
                init: *init,
            },
            Step::Check { field, constraint } => StepView::Check {
                field: *field as int,
                constraint: *constraint as int,
            },
        }
    }
}

impl StepView {
    /// The field that the step is about.
    pub open spec fn field(self) -> int {
        match self {
            StepView::Delegate { field } => field,
            StepView::Defer { field } => field,
            StepView::Deserialize { field, .. } => field,
            StepView::Check { field, .. } => field,
        }
    }
}

/// The validation routine of one accounts structure.
#[derive(Clone, Debug)]
pub struct Routine {
    /// The name of the structure that the routine assembles.
    pub name: String,
    /// The steps, in the order in which they run.
    pub steps: Vec<Step>,
    /// The names of the fields that the result is assembled from, in order.
    pub assembled: Vec<String>,
}

/// The mathematical reading of a [`Routine`].
pub struct RoutineView {
    pub name: Seq<char>,
    pub steps: Seq<StepView>,
    pub assembled: Seq<Seq<char>>,
}

impl DeepView for Routine {
    type V = RoutineView;

    open spec fn deep_view(&self) -> RoutineView {
        RoutineView {
            name: self.name@,
            steps: self.steps.deep_view(),
            assembled: self.assembled.deep_view(),
        }
    }
}

impl StepView {
    /// How many records the step takes off the cursor; `None` where that is
    /// for the nested group's routine to decide.
    pub open spec fn records_taken(self) -> Option<nat> {
        match self {
            StepView::Delegate { .. } => None,
            StepView::Defer { .. } => Some(1),
            StepView::Deserialize { .. } => Some(1),
            StepView::Check { .. } => Some(0),
        }
    }

    /// Whether the step finds the records it takes on a cursor of
    /// `remaining` records. A step that does not is not performed: it fails,
    /// and the run ends with that failure.
    pub open spec fn can_take_from(self, remaining: nat) -> bool {
        match self.records_taken() {
            Some(taken) => taken <= remaining,
            None => true,
        }
    }
}

/// How many records the first `p` steps take off the cursor between them;
/// `None` once a nested group's routine is among them.
pub open spec fn records_taken_before(steps: Seq<StepView>, p: int) -> Option<nat>
    decreases p,
{
    if p <= 0 {
        Some(0)
    } else {
        match (records_taken_before(steps, p - 1), steps[p - 1].records_taken()) {
            (Some(before), Some(taken)) => Some(before + taken),
            _ => None,
        }
    }
}

impl Step {
    /// How many records the step takes off the cursor; `None` where that is
    /// for the nested group's routine to decide.
    pub fn records_taken(&self) -> (taken: Option<usize>)
        ensures
            match taken {
                Some(n) => self.deep_view().records_taken() == Some(n as nat),
                None => self.deep_view().records_taken() is None,
            },
    {
        match self {
            Step::Delegate { .. } => None,
            Step::Defer { .. } => Some(1),
            Step::Deserialize { .. } => Some(1),
            Step::Check { .. } => Some(0),
        }
    }

    /// Whether the step finds the records it takes on a cursor of
    /// `remaining` records. A step that does not is not performed: it fails,
    /// and the run ends with that failure.
    pub fn can_take_from(&self, remaining: usize) -> (yes: bool)
        ensures
            yes == self.deep_view().can_take_from(remaining as nat),
    {
        match self.records_taken() {
            Some(taken) => taken <= remaining,
            None => true,
        }
    }
}

/// Where a run of a routine stands.
#[derive(Clone, Copy, Debug, PartialEq, Eq, Structural)]
pub enum Progress {
    /// The step of this index is to be performed next.
    Perform(usize),
    /// Every step succeeded; the structure is assembled. Nothing is checked
    /// after this.
    Assembled,
    /// The step of this index failed, and the run was given up there. No step
    /// after it was performed, and nothing that the steps before it did is
    /// undone.
    Failed(usize),
}

/// Where a run of `len` steps stands before its first step.
pub open spec fn first_progress(len: nat) -> Progress {
    if len == 0 {
        Progress::Assembled
    } else {
        Progress::Perform(0)
    }
}

/// Where a run of `len` steps stands once the step it was to perform has
/// succeeded or failed. A run that has ended stays where it is.
pub open spec fn next_progress(len: nat, progress: Progress, succeeded: bool) -> Progress {
    match progress {
        Progress::Perform(at) => if !succeeded {
            Progress::Failed(at)
        } else if at + 1 < len {
            Progress::Perform((at + 1) as usize)
        } else {
            Progress::Assembled
        },
        ended => ended,
    }
}

/// Where a run of `len` steps stands after the given outcomes, one for each
/// step performed so far, in order.
pub open spec fn progress_after(len: nat, outcomes: Seq<bool>) -> Progress
    decreases outcomes.len(),
{
    if outcomes.len() == 0 {
        first_progress(len)
    } else {
        next_progress(len, progress_after(len, outcomes.drop_last()), outcomes.last())
    }
}

impl Routine {
    /// Where a run stands before its first step.
    pub fn begin(&self) -> (progress: Progress)
        ensures
            progress == first_progress(self.steps.len() as nat),
    {
        if self.steps.len() == 0 {
            Progress::Assembled
        } else {
            Progress::Perform(0)
        }
    }

    /// Where a run stands once the step it was to perform has succeeded or
    /// failed: a failure ends the run, a success leads to the next step or,
    /// after the last, to the assembled structure.
    pub fn advance(&self, progress: Progress, succeeded: bool) -> (next: Progress)
        ensures
            next == next_progress(self.steps.len() as nat, progress, succeeded),
    {
        match progress {
            Progress::Perform(at) => {
                if !succeeded {
                    Progress::Failed(at)
                } else if at < self.steps.len() && self.steps.len() - at > 1 {
                    Progress::Perform(at + 1)
                } else {
                    Progress::Assembled
                }
            },
            ended => ended,
        }
    }
}

/// As long as every step succeeds, the steps are performed in order, one by
/// one.
pub proof fn steps_run_in_order(len: nat, outcomes: Seq<bool>)
    requires
        outcomes.len() < len <= usize::MAX,
        forall|j: int| 0 <= j < outcomes.len() ==> outcomes[j],
    ensures
        progress_after(len, outcomes) == Progress::Perform(outcomes.len() as usize),
    decreases outcomes.len(),
{
    if outcomes.len() > 0 {
        steps_run_in_order(len, outcomes.drop_last());
    }
}

/// Once every step has succeeded, the structure is assembled, and stays so.
pub proof fn run_ends_assembled(len: nat, outcomes: Seq<bool>)
    requires
        len <= outcomes.len(),
        len <= usize::MAX,
        forall|j: int| 0 <= j < len ==> outcomes[j],
    ensures
        progress_after(len, outcomes) == Progress::Assembled,
    decreases outcomes.len(),
{
    if outcomes.len() > 0 {
        let before = outcomes.drop_last();
        if len <= before.len() {
            run_ends_assembled(len, before);
        } else {
            steps_run_in_order(len, before);
        }
    }
}

/// The first step that fails ends the run: the run stands at that failure
/// whatever comes after it, so no later step is ever performed.
pub proof fn first_failure_ends_the_run(len: nat, outcomes: Seq<bool>, failed: int)
    requires
        0 <= failed < outcomes.len(),
        failed < len <= usize::MAX,
        !outcomes[failed],
        forall|j: int| 0 <= j < failed ==> outcomes[j],
    ensures
        progress_after(len, outcomes) == Progress::Failed(failed as usize),
    decreases outcomes.len(),
{
    let before = outcomes.drop_last();
    if failed == outcomes.len() - 1 {
        steps_run_in_order(len, before);
    } else {
        first_failure_ends_the_run(len, before, failed);
    }
}

} // verus!
