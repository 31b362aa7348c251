//! The export as a state machine. The machine decides; its driver performs
//! each action outside and reports what happened. Whatever happens once work
//! has begun, the scratch directory is removed before the export ends.

use vstd::prelude::*;
use crate::export::ExportPlan;
use crate::export::ExportRequest;
use crate::export::RequestView;
use crate::export::compiled;
use crate::export::PlanView;
use crate::export::final_args;
use crate::step::ErrorKind;
use crate::step::ErrorView;
use crate::step::ExportError;
use crate::step::StepView;
use crate::step::Work;
use crate::step::WorkView;
use crate::step::step_views;
use crate::text::decode_lossy;
use crate::text::lossy_text;
use crate::text::option_text;

verus! {

/// Where an export stands.
#[derive(Debug, Clone, Copy, PartialEq, Eq)]
pub enum Phase {
    Validating,
    Preprocessing,
    AudioAssembling,
    GraphBuilding,
    Composing,
    CleaningUp,
    Done,
}

/// The phases in which an export works through its plan.
#[derive(Debug, Clone, Copy, PartialEq, Eq)]
pub enum Stage {
    Preprocessing,
    AudioAssembling,
    GraphBuilding,
    Composing,
}

/// What the driver reports after an action.
#[derive(Debug, PartialEq, Eq)]
pub enum Event {
    /// The work was done; the tool, if one ran, exited with success.
    Completed,
    /// The tool ran and exited with a failure; `stderr` is what it wrote to
    /// its error stream.
    ToolFailed { stderr: Vec<u8> },
    /// The work could not be done: the tool could not be started, or the
    /// file system refused.
    Refused { reason: String },
}

/// The mathematical content of an [`Event`].
pub enum EventView {
    Completed,
    ToolFailed { stderr: Seq<u8> },
    Refused { reason: Seq<char> },
}

impl View for Event {
    type V = EventView;

    open spec fn view(&self) -> EventView {
        match self {
            Event::Completed => EventView::Completed,
            Event::ToolFailed { stderr } => EventView::ToolFailed { stderr: stderr@ },
            Event::Refused { reason } => EventView::Refused { reason: reason@ },
        }
    }
}

/// What the driver is asked to do next.
#[derive(Debug, PartialEq, Eq)]
pub enum Action {
    /// Do this work and report how it went.
    Perform(Work),
    /// Remove the scratch directory with all that is in it, and report.
    RemoveDir { path: String },
    /// Nothing to do outside; report completion.
    Proceed,
    /// The export is over. `warning` tells of a scratch directory that could
    /// not be removed; it does not change the result.
    Finish { result: Result<String, ExportError>, warning: Option<String> },
}

/// The mathematical content of the result of an export.
pub open spec fn result_view(r: Result<String, ExportError>) -> Result<Seq<char>, ErrorView> {
    match r {
        Ok(message) => Ok(message@),
        Err(e) => Err(e@),
    }
}

/// The mathematical content of an [`Action`].
pub enum ActionView {
    Perform(WorkView),
    RemoveDir { path: Seq<char> },
    Proceed,
    Finish { result: Result<Seq<char>, ErrorView>, warning: Option<Seq<char>> },
}

impl View for Action {
    type V = ActionView;

    open spec fn view(&self) -> ActionView {
        match self {
            Action::Perform(work) => ActionView::Perform(work@),
            Action::RemoveDir { path } => ActionView::RemoveDir { path: path@ },
            Action::Proceed => ActionView::Proceed,
            Action::Finish { result, warning } => ActionView::Finish {
                result: result_view(*result),
                warning: option_text(*warning),
            },
        }
    }
}

/// One export, from the verdict on its request to its end.
#[derive(Debug, PartialEq, Eq)]
pub enum ExportJob {
    /// The request is yet to be checked; nothing has been done.
    Validating { request: ExportRequest },
    /// Step `cursor` of a stage is being performed.
    Running { plan: ExportPlan, stage: Stage, cursor: usize },
    /// The result is settled and the scratch directory is being removed.
    CleaningUp { plan: ExportPlan, result: Result<String, ExportError> },
    /// The export is over.
    Done { result: Result<String, ExportError>, warning: Option<String> },
}

/// The mathematical content of an [`ExportJob`].
pub enum JobView {
    Validating { request: RequestView },
    Running { plan: PlanView, stage: Stage, cursor: usize },
    CleaningUp { plan: PlanView, result: Result<Seq<char>, ErrorView> },
    Done { result: Result<Seq<char>, ErrorView>, warning: Option<Seq<char>> },
}

impl View for ExportJob {
    type V = JobView;

    open spec fn view(&self) -> JobView {
        match self {
            ExportJob::Validating { request } => JobView::Validating { request: request@ },
            ExportJob::Running { plan, stage, cursor } => JobView::Running {
                plan: plan@,
                stage: *stage,
                cursor: *cursor,
            },
            ExportJob::CleaningUp { plan, result } => JobView::CleaningUp {
                plan: plan@,
                result: result_view(*result),
            },
            ExportJob::Done { result, warning } => JobView::Done {
                result: result_view(*result),
                warning: option_text(*warning),
            },
        }
    }
}

impl JobView {
    /// The phase the export is in.
    pub open spec fn phase(self) -> Phase {
        match self {
            JobView::Validating { .. } => Phase::Validating,
            JobView::Running { stage, .. } => match stage {
                Stage::Preprocessing => Phase::Preprocessing,
                Stage::AudioAssembling => Phase::AudioAssembling,
                Stage::GraphBuilding => Phase::GraphBuilding,
                Stage::Composing => Phase::Composing,
            },
            JobView::CleaningUp { .. } => Phase::CleaningUp,
            JobView::Done { .. } => Phase::Done,
        }
    }
}

/// The last invocation as a step, with the plan's words for its failure.
pub open spec fn final_step(plan: PlanView) -> StepView {
    StepView {
        work: WorkView::Run { args: final_args(plan.last) },
        failure_prefix: plan.failure_prefix,
        refusal_prefix: plan.refusal_prefix,
    }
}

/// The outside work of a stage, in order. Building the graph is done in
/// place and needs none.
pub open spec fn stage_steps(plan: PlanView, stage: Stage) -> Seq<StepView> {
    match stage {
        Stage::Preprocessing => plan.preprocessing,
        Stage::AudioAssembling => plan.audio,
        Stage::GraphBuilding => Seq::empty(),
        Stage::Composing => seq![final_step(plan)],
    }
}

/// The step that an event in a stage speaks of.
pub open spec fn current_step(plan: PlanView, stage: Stage, cursor: usize) -> StepView {
    if cursor < stage_steps(plan, stage).len() {
        stage_steps(plan, stage)[cursor as int]
    } else {
        final_step(plan)
    }
}

/// The error that ends an export when `step` fails as `event` tells. The
/// tool's diagnostics, or the reason of a refusal, follow the step's words
/// unchanged.
pub open spec fn failure_of(step: StepView, event: EventView) -> ErrorView {
    match event {
        EventView::Completed => ErrorView {
            kind: ErrorKind::ToolExecution,
            message: step.failure_prefix,
        },
        EventView::ToolFailed { stderr } => ErrorView {
            kind: ErrorKind::ToolExecution,
            message: step.failure_prefix + lossy_text(stderr),
        },
        EventView::Refused { reason } => ErrorView {
            kind: if step.work is Run {
                ErrorKind::ToolInvocation
            } else {
                ErrorKind::Workspace
            },
            message: step.refusal_prefix + reason,
        },
    }
}

/// The warning of a scratch directory that could not be removed.
pub open spec fn cleanup_warning(event: EventView) -> Option<Seq<char>> {
    match event {
        EventView::Completed => None,
        EventView::ToolFailed { stderr } => Some(
            "Warning: Failed to clean up temp directory: "@ + lossy_text(stderr),
        ),
        EventView::Refused { reason } => Some(
            "Warning: Failed to clean up temp directory: "@ + reason,
        ),
    }
}

/// Entering a stage: its first step is asked for, or, where it has none,
/// leave to proceed.
pub open spec fn enter(plan: PlanView, stage: Stage) -> (JobView, ActionView) {
    (
        JobView::Running { plan, stage, cursor: 0 },
        if stage_steps(plan, stage).len() > 0 {
            ActionView::Perform(stage_steps(plan, stage)[0].work)
        } else {
            ActionView::Proceed
        },
    )
}

/// Settling the result and beginning to clean up: the scratch directory, if
/// the export has one, is to be removed.
pub open spec fn clean_up(plan: PlanView, result: Result<Seq<char>, ErrorView>) -> (
    JobView,
    ActionView,
) {
    (
        JobView::CleaningUp { plan, result },
        match plan.workspace {
            Some(dir) => ActionView::RemoveDir { path: dir },
            None => ActionView::Proceed,
        },
    )
}

/// What follows a stage whose every step completed.
pub open spec fn after_stage(plan: PlanView, stage: Stage) -> (JobView, ActionView) {
    match stage {
        Stage::Preprocessing => enter(plan, Stage::AudioAssembling),
        Stage::AudioAssembling => enter(plan, Stage::GraphBuilding),
        Stage::GraphBuilding => enter(plan, Stage::Composing),
        Stage::Composing => clean_up(plan, Ok(plan.success)),
    }
}

/// One move of the machine: the state after `event`, and the next action.
///
/// The first move checks and compiles the request, whatever the event. A
/// refused request ends the export at once. A stage moves on, step by
/// step, while its steps complete; the first step that does not complete
/// settles the result as its error and the export turns to cleaning up.
/// After the last invocation completes the result is the plan's message of
/// success. Cleaning up ends the export with the settled result, whether or
/// not the directory could be removed.
pub open spec fn step(job: JobView, event: EventView) -> (JobView, ActionView) {
    match job {
        JobView::Validating { request } => match compiled(request) {
            Err(e) => (
                JobView::Done { result: Err(e), warning: None },
                ActionView::Finish { result: Err(e), warning: None },
            ),
            Ok(plan) => enter(plan, Stage::Preprocessing),
        },
        JobView::Running { plan, stage, cursor } => match event {
            EventView::Completed => if cursor + 1 < stage_steps(plan, stage).len() {
                (
                    JobView::Running { plan, stage, cursor: (cursor + 1) as usize },
                    ActionView::Perform(stage_steps(plan, stage)[cursor + 1].work),
                )
            } else {
                after_stage(plan, stage)
            },
            _ => clean_up(plan, Err(failure_of(current_step(plan, stage, cursor), event))),
        },
        JobView::CleaningUp { plan, result } => (
            JobView::Done { result, warning: cleanup_warning(event) },
            ActionView::Finish { result, warning: cleanup_warning(event) },
        ),
        JobView::Done { result, warning } => (job, ActionView::Finish { result, warning }),
    }
}

/// The states and actions of an export that starts at `job` and is told
/// `events`, one after the other.
pub open spec fn run(job: JobView, events: Seq<EventView>) -> (JobView, Seq<ActionView>)
    decreases events.len(),
{
    if events.len() == 0 {
        (job, Seq::empty())
    } else {
        let before = run(job, events.drop_last());
        let moved = step(before.0, events.last());
        (moved.0, before.1.push(moved.1))
    }
}

/// The place of a phase in the order of the phases.
pub open spec fn phase_rank(p: Phase) -> nat {
    match p {
        Phase::Validating => 0,
        Phase::Preprocessing => 1,
        Phase::AudioAssembling => 2,
        Phase::GraphBuilding => 3,
        Phase::Composing => 4,
        Phase::CleaningUp => 5,
        Phase::Done => 6,
    }
}

/// The phases are passed in order: a move stays in its phase, goes to the
/// next one, or, on a failure, turns to cleaning up. An export that has
/// begun to work ends only through cleaning up, and it ends with success
/// only when its last invocation completed.
pub proof fn lemma_phases_in_order(job: JobView, event: EventView)
    ensures
        ({
            let next = step(job, event).0;
            let from = phase_rank(job.phase());
            let to = phase_rank(next.phase());
            &&& from <= to
            &&& to == from || to == from + 1 || next.phase() == Phase::CleaningUp || (job
                is Validating && next.phase() == Phase::Done)
            &&& next.phase() == Phase::Done ==> job.phase() == Phase::CleaningUp || job.phase()
                == Phase::Done || job is Validating
            &&& (job matches JobView::Validating { request } ==> (next.phase() == Phase::Done
                <==> compiled(request) is Err))
            &&& (next matches JobView::CleaningUp { result, .. } ==> (job is Running && result is Ok
                ==> job.phase() == Phase::Composing && event is Completed))
        }),
{
}

/// Once the result of an export is settled, no event changes it: neither a
/// failure to remove the scratch directory nor anything reported later.
pub proof fn lemma_result_is_final(job: JobView, events: Seq<EventView>)
    requires
        job is CleaningUp || job is Done,
    ensures
        ({
            let settled = match job {
                JobView::CleaningUp { result, .. } => result,
                JobView::Done { result, .. } => result,
                _ => arbitrary(),
            };
            let end = run(job, events).0;
            &&& end is CleaningUp || end is Done
            &&& events.len() > 0 ==> end is Done
            &&& end matches JobView::CleaningUp { result, .. } ==> result == settled
            &&& end matches JobView::Done { result, .. } ==> result == settled
        }),
    decreases events.len(),
{
    if events.len() > 0 {
        lemma_result_is_final(job, events.drop_last());
    }
}

/// What holds of an export of `plan` after any events, when `plan` owns the
/// scratch directory `dir`.
spec fn cleanup_invariant(
    plan: PlanView,
    dir: Seq<char>,
    job: JobView,
    actions: Seq<ActionView>,
) -> bool {
    match job {
        JobView::Validating { request } => compiled(request) == Ok::<PlanView, ErrorView>(plan)
            && actions.len() == 0,
        JobView::Running { plan: p, .. } => p == plan,
        JobView::CleaningUp { plan: p, .. } => p == plan && actions.len() > 0 && actions.last() == (
            ActionView::RemoveDir { path: dir }),
        JobView::Done { .. } => exists|k: int|
            0 <= k < actions.len() && #[trigger] actions[k] == (ActionView::RemoveDir { path: dir })
                && forall|i: int| k < i < actions.len() ==> (#[trigger] actions[i]) is Finish,
    }
}

proof fn lemma_cleanup_invariant(
    request: RequestView,
    plan: PlanView,
    dir: Seq<char>,
    events: Seq<EventView>,
)
    requires
        compiled(request) == Ok::<PlanView, ErrorView>(plan),
        plan.workspace == Some(dir),
    ensures
        ({
            let end = run(JobView::Validating { request }, events);
            cleanup_invariant(plan, dir, end.0, end.1)
        }),
    decreases events.len(),
{
    let start = JobView::Validating { request };
    if events.len() > 0 {
        lemma_cleanup_invariant(request, plan, dir, events.drop_last());
        let before = run(start, events.drop_last());
        let moved = step(before.0, events.last());
        let actions = before.1.push(moved.1);
        match before.0 {
            JobView::CleaningUp { .. } => {
                let k = before.1.len() - 1;
                assert(actions[k] == (ActionView::RemoveDir { path: dir }));
                assert(cleanup_invariant(plan, dir, moved.0, actions));
            },
            JobView::Done { .. } => {
                let k = choose|k: int|
                    0 <= k < before.1.len() && #[trigger] before.1[k] == (ActionView::RemoveDir {
                        path: dir,
                    }) && forall|i: int| k < i < before.1.len() ==> (#[trigger] before.1[i]) is Finish;
                assert(actions[k] == (ActionView::RemoveDir { path: dir }));
                assert forall|i: int| k < i < actions.len() implies (#[trigger] actions[i])
                    is Finish by {
                    if i < before.1.len() {
                        assert(actions[i] == before.1[i]);
                    }
                }
                assert(cleanup_invariant(plan, dir, moved.0, actions));
            },
            _ => {
                assert(cleanup_invariant(plan, dir, moved.0, actions));
            },
        }
    }
}

/// Cleanup on every path: when an export of an accepted request is over,
/// whether it succeeded or failed and at whatever step, the driver has been
/// asked to remove the scratch directory, and after that only to finish.
pub proof fn lemma_finished_export_removed_its_workspace(
    request: RequestView,
    plan: PlanView,
    dir: Seq<char>,
    events: Seq<EventView>,
)
    requires
        compiled(request) == Ok::<PlanView, ErrorView>(plan),
        plan.workspace == Some(dir),
    ensures
        ({
            let end = run(JobView::Validating { request }, events);
            end.0 is Done ==> exists|k: int|
                0 <= k < end.1.len() && #[trigger] end.1[k] == (ActionView::RemoveDir { path: dir })
                    && forall|i: int| k < i < end.1.len() ==> (#[trigger] end.1[i]) is Finish
        }),
{
    lemma_cleanup_invariant(request, plan, dir, events);
}

/// A refused request ends at once: nothing is asked of the driver but to
/// finish with the refusal.
pub proof fn lemma_refused_request_does_no_work(
    request: RequestView,
    error: ErrorView,
    events: Seq<EventView>,
)
    requires
        compiled(request) == Err::<PlanView, ErrorView>(error),
    ensures
        ({
            let end = run(JobView::Validating { request }, events);
            &&& forall|i: int|
                0 <= i < end.1.len() ==> #[trigger] end.1[i] == (ActionView::Finish {
                    result: Err(error),
                    warning: None,
                })
            &&& events.len() > 0 ==> end.0 == (JobView::Done { result: Err(error), warning: None })
            &&& events.len() == 0 ==> end.0 == (JobView::Validating { request })
            &&& end.1.len() == events.len()
        }),
    decreases events.len(),
{
    if events.len() > 0 {
        lemma_refused_request_does_no_work(request, error, events.drop_last());
    }
}

fn copy_result(r: &Result<String, ExportError>) -> (c: Result<String, ExportError>)
    ensures
        result_view(c) == result_view(*r),
{
    match r {
        Ok(message) => Ok(message.clone()),
        Err(e) => Err(e.duplicate()),
    }
}

fn copy_option(o: &Option<String>) -> (c: Option<String>)
    ensures
        option_text(c) == option_text(*o),
{
    match o {
        Some(s) => Some(s.clone()),
        None => None,
    }
}

fn stage_len(plan: &ExportPlan, stage: Stage) -> (n: usize)
    ensures
        n == stage_steps(plan@, stage).len(),
{
    match stage {
        Stage::Preprocessing => plan.preprocessing.len(),
        Stage::AudioAssembling => plan.audio.len(),
        Stage::GraphBuilding => 0,
        Stage::Composing => 1,
    }
}

fn stage_work(plan: &ExportPlan, stage: Stage, k: usize) -> (work: Work)
    requires
        k < stage_steps(plan@, stage).len(),
    ensures
        work@ == stage_steps(plan@, stage)[k as int].work,
{
    match stage {
        Stage::Preprocessing => {
            assert(step_views(plan.preprocessing@)[k as int] == plan.preprocessing@[k as int]@);
            plan.preprocessing[k].work.duplicate()
        },
        Stage::AudioAssembling => {
            assert(step_views(plan.audio@)[k as int] == plan.audio@[k as int]@);
            plan.audio[k].work.duplicate()
        },
        Stage::GraphBuilding => Work::Run { invocation: plan.last.render() },
        Stage::Composing => Work::Run { invocation: plan.last.render() },
    }
}

fn make_failure(failure_prefix: &str, refusal_prefix: &str, tool: bool, event: Event) -> (e:
    ExportError)
    ensures
        e@ == failure_of(
            StepView {
                work: if tool {
                    WorkView::Run { args: Seq::empty() }
                } else {
                    WorkView::CreateDir { path: Seq::empty() }
                },
                failure_prefix: failure_prefix@,
                refusal_prefix: refusal_prefix@,
            },
            event@,
        ),
{
    match event {
        Event::Completed => {
            let e = ExportError::tool_failure(failure_prefix, "");
            proof {
                reveal_strlit("");
                assert(e@.message =~= failure_prefix@);
            }
            e
        },
        Event::ToolFailed { stderr } => ExportError::tool_failure(
            failure_prefix,
            decode_lossy(&stderr).as_str(),
        ),
        Event::Refused { reason } => ExportError::refusal(refusal_prefix, tool, reason.as_str()),
    }
}

fn stage_failure(plan: &ExportPlan, stage: Stage, cursor: usize, event: Event) -> (e: ExportError)
    ensures
        e@ == failure_of(current_step(plan@, stage, cursor), event@),
{
    let in_list = match stage {
        Stage::Preprocessing => cursor < plan.preprocessing.len(),
        Stage::AudioAssembling => cursor < plan.audio.len(),
        _ => false,
    };
    if in_list {
        let planned = match stage {
            Stage::Preprocessing => {
                assert(step_views(plan.preprocessing@)[cursor as int]
                    == plan.preprocessing@[cursor as int]@);
                &plan.preprocessing[cursor]
            },
            _ => {
                assert(step_views(plan.audio@)[cursor as int] == plan.audio@[cursor as int]@);
                &plan.audio[cursor]
            },
        };
        let tool = match &planned.work {
            Work::Run { .. } => true,
            _ => false,
        };
        make_failure(
            planned.failure_prefix.as_str(),
            planned.refusal_prefix.as_str(),
            tool,
            event,
        )
    } else {
        make_failure(plan.failure_prefix.as_str(), plan.refusal_prefix.as_str(), true, event)
    }
}

fn enter_stage(plan: ExportPlan, stage: Stage) -> (r: (ExportJob, Action))
    ensures
        (r.0@, r.1@) == enter(plan@, stage),
{
    let action = if stage_len(&plan, stage) > 0 {
        Action::Perform(stage_work(&plan, stage, 0))
    } else {
        Action::Proceed
    };
    (ExportJob::Running { plan, stage, cursor: 0 }, action)
}

fn begin_cleanup(plan: ExportPlan, result: Result<String, ExportError>) -> (r: (ExportJob, Action))
    ensures
        (r.0@, r.1@) == clean_up(plan@, result_view(result)),
{
    let action = match &plan.workspace {
        Some(dir) => Action::RemoveDir { path: dir.clone() },
        None => Action::Proceed,
    };
    (ExportJob::CleaningUp { plan, result }, action)
}

/// Words the warning of a scratch directory that could not be removed.
pub fn removal_warning(detail: &str) -> (text: String)
    ensures
        text@ == "Warning: Failed to clean up temp directory: "@ + detail@,
{
    let mut text = String::from_str("Warning: Failed to clean up temp directory: ");
    text.append(detail);
    text
}

fn warning_of(event: Event) -> (w: Option<String>)
    ensures
        option_text(w) == cleanup_warning(event@),
{
    match event {
        Event::Completed => None,
        Event::ToolFailed { stderr } => Some(removal_warning(decode_lossy(&stderr).as_str())),
        Event::Refused { reason } => Some(removal_warning(reason.as_str())),
    }
}

impl ExportJob {
    /// An export that has done nothing yet. Its first move checks the
    /// request and needs no event; any will do.
    pub fn new(request: ExportRequest) -> (job: ExportJob)
        ensures
            job@ == (JobView::Validating { request: request@ }),
    {
        ExportJob::Validating { request }
    }

    /// The phase the export is in.
    pub fn phase(&self) -> (p: Phase)
        ensures
            p == self@.phase(),
    {
        match self {
            ExportJob::Validating { .. } => Phase::Validating,
            ExportJob::Running { stage, .. } => match stage {
                Stage::Preprocessing => Phase::Preprocessing,
                Stage::AudioAssembling => Phase::AudioAssembling,
                Stage::GraphBuilding => Phase::GraphBuilding,
                Stage::Composing => Phase::Composing,
            },
            ExportJob::CleaningUp { .. } => Phase::CleaningUp,
            ExportJob::Done { .. } => Phase::Done,
        }
    }

    /// Moves the export on by one event and says what to do next.
    pub fn advance(self, event: Event) -> (r: (ExportJob, Action))
        ensures
            (r.0@, r.1@) == step(self@, event@),
    {
        match self {
            ExportJob::Validating { request } => match request.compile() {
                Err(e) => {
                    let copy = e.duplicate();
                    (
                        ExportJob::Done { result: Err(e), warning: None },
                        Action::Finish { result: Err(copy), warning: None },
                    )
                },
                Ok(plan) => enter_stage(plan, Stage::Preprocessing),
            },
            ExportJob::Running { plan, stage, cursor } => {
                let len = stage_len(&plan, stage);
                match event {
                    Event::Completed => {
                        if len > 0 && cursor < len - 1 {
                            let work = stage_work(&plan, stage, cursor + 1);
                            (
                                ExportJob::Running { plan, stage, cursor: cursor + 1 },
                                Action::Perform(work),
                            )
                        } else {
                            match stage {
                                Stage::Preprocessing => enter_stage(plan, Stage::AudioAssembling),
                                Stage::AudioAssembling => enter_stage(plan, Stage::GraphBuilding),
                                Stage::GraphBuilding => enter_stage(plan, Stage::Composing),
                                Stage::Composing => {
                                    let message = plan.success.clone();
                                    begin_cleanup(plan, Ok(message))
                                },
                            }
                        }
                    },
                    other => {
                        let error = stage_failure(&plan, stage, cursor, other);
                        begin_cleanup(plan, Err(error))
                    },
                }
            },
            ExportJob::CleaningUp { plan, result } => {
                let warning = warning_of(event);
                let result_copy = copy_result(&result);
                let warning_copy = copy_option(&warning);
                (
                    ExportJob::Done { result, warning },
                    Action::Finish { result: result_copy, warning: warning_copy },
                )
            },
            ExportJob::Done { result, warning } => {
                let result_copy = copy_result(&result);
                let warning_copy = copy_option(&warning);
                (
                    ExportJob::Done { result, warning },
                    Action::Finish { result: result_copy, warning: warning_copy },
                )
            },
        }
    }
}

} // verus!
