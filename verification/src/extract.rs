//! Extracting one subtree of a repository.
//!
//! The repository is cloned into a transient location, the subtree is looked
//! for in the clone, the destination is checked to be free, its parent
//! directories are created, the subtree is moved there, and the transient
//! clone is removed. Once the clone is there, the run always ends by removing
//! it, whatever happened in between. A move that succeeded is never undone.

use crate::error::{
    attributed, failure_at, failure_with, reports_cleanup_failure, ErrorKind, Failure,
    FailureView, FaultView, Step,
};
use crate::protocol::{
    continued_trace, effect_outcome, finished_trace, idle_trace, Action, ActionView, Next,
    NextView, Reply, ReplyView, Trace,
};
use vstd::prelude::*;
use vstd::string::*;

verus! {

/// The paths of one extraction.
///
/// `scratch` is where the transient clone lives and `located` is where the
/// subtree lies inside it. [`ExtractPlan::new`] derives both from the subtree
/// and a scratch area.
#[derive(Clone, Debug, PartialEq, Eq)]
pub struct ExtractPlan {
    pub source: String,
    pub subtree: String,
    pub destination: String,
    pub scratch: String,
    pub located: String,
}

/// The mathematical value of an [`ExtractPlan`].
pub struct ExtractPlanView {
    pub source: Seq<char>,
    pub subtree: Seq<char>,
    pub destination: Seq<char>,
    pub scratch: Seq<char>,
    pub located: Seq<char>,
}

impl View for ExtractPlan {
    type V = ExtractPlanView;

    open spec fn view(&self) -> ExtractPlanView {
        ExtractPlanView {
            source: self.source@,
            subtree: self.subtree@,
            destination: self.destination@,
            scratch: self.scratch@,
            located: self.located@,
        }
    }
}

/// The path of `name` directly under `base`.
pub open spec fn child_path(base: Seq<char>, name: Seq<char>) -> Seq<char> {
    base + "/"@ + name
}

/// The plan of an extraction: the transient clone is named after the
/// subtree and lies directly in the scratch area; the subtree is looked for
/// under its own name inside the clone.
pub open spec fn plan_for(
    source: Seq<char>,
    subtree: Seq<char>,
    destination: Seq<char>,
    scratch_area: Seq<char>,
) -> ExtractPlanView {
    ExtractPlanView {
        source,
        subtree,
        destination,
        scratch: child_path(scratch_area, subtree),
        located: child_path(child_path(scratch_area, subtree), subtree),
    }
}

/// Builds the path of `name` directly under `base`.
pub fn child_of(base: &str, name: &str) -> (path: String)
    ensures
        path@ == child_path(base@, name@),
{
    let mut path = String::from_str(base);
    path.append("/");
    path.append(name);
    path
}

impl ExtractPlan {
    /// Plans the extraction of `subtree` from `source` to `destination`,
    /// with the transient clone inside `scratch_area`.
    pub fn new(source: String, subtree: String, destination: String, scratch_area: &str) -> (plan:
        ExtractPlan)
        ensures
            plan@ == plan_for(source@, subtree@, destination@, scratch_area@),
    {
        let scratch = child_of(scratch_area, subtree.as_str());
        let located = child_of(scratch.as_str(), subtree.as_str());
        ExtractPlan { source, subtree, destination, scratch, located }
    }
}

/// The action of an extraction whose reply is awaited.
#[derive(Clone, Debug, PartialEq, Eq)]
pub enum ExtractStage {
    /// The clone into the transient location.
    Cloning,
    /// The probe for the subtree inside the clone.
    FindingSubtree,
    /// The probe for the destination.
    CheckingDestination,
    /// The creation of the destination's parent directories.
    CreatingParents,
    /// The move of the subtree to the destination.
    Moving,
    /// The removal of the transient clone, after the failure held here or,
    /// with `None`, after a successful move.
    Cleaning(Option<Failure>),
}

/// The mathematical value of an [`ExtractStage`].
pub enum ExtractStageView {
    Cloning,
    FindingSubtree,
    CheckingDestination,
    CreatingParents,
    Moving,
    Cleaning(Option<FailureView>),
}

impl View for ExtractStage {
    type V = ExtractStageView;

    open spec fn view(&self) -> ExtractStageView {
        match self {
            ExtractStage::Cloning => ExtractStageView::Cloning,
            ExtractStage::FindingSubtree => ExtractStageView::FindingSubtree,
            ExtractStage::CheckingDestination => ExtractStageView::CheckingDestination,
            ExtractStage::CreatingParents => ExtractStageView::CreatingParents,
            ExtractStage::Moving => ExtractStageView::Moving,
            ExtractStage::Cleaning(Some(failure)) => ExtractStageView::Cleaning(Some(failure@)),
            ExtractStage::Cleaning(None) => ExtractStageView::Cleaning(None),
        }
    }
}

/// An extraction under way.
#[derive(Clone, Debug, PartialEq, Eq)]
pub struct Extraction {
    pub plan: ExtractPlan,
    pub stage: ExtractStage,
}

/// The mathematical value of an [`Extraction`].
pub struct ExtractionView {
    pub plan: ExtractPlanView,
    pub stage: ExtractStageView,
}

impl View for Extraction {
    type V = ExtractionView;

    open spec fn view(&self) -> ExtractionView {
        ExtractionView { plan: self.plan@, stage: self.stage@ }
    }
}

/// The report of a successful extraction.
pub open spec fn extracted_message(subtree: Seq<char>, destination: Seq<char>) -> Seq<char> {
    "Folder '"@ + subtree + "' extracted to '"@ + destination + "'"@
}

/// The action that an extraction asks for on entering `stage`.
pub open spec fn extract_action(plan: ExtractPlanView, stage: ExtractStageView) -> ActionView {
    match stage {
        ExtractStageView::Cloning => ActionView::Clone {
            source: plan.source,
            destination: plan.scratch,
        },
        ExtractStageView::FindingSubtree => ActionView::Probe { path: plan.located },
        ExtractStageView::CheckingDestination => ActionView::Probe { path: plan.destination },
        ExtractStageView::CreatingParents => ActionView::CreateParents { of: plan.destination },
        ExtractStageView::Moving => ActionView::Move {
            from: plan.located,
            to: plan.destination,
        },
        ExtractStageView::Cleaning(_) => ActionView::RemoveTree { path: plan.scratch },
    }
}

/// The extraction goes on to `stage`.
pub open spec fn enter(plan: ExtractPlanView, stage: ExtractStageView) -> NextView<
    ExtractionView,
    Seq<char>,
> {
    NextView::Continue {
        state: ExtractionView { plan, stage },
        action: extract_action(plan, stage),
    }
}

/// The failure `failure`, with `report` of the transient clone that could
/// not be removed after it.
pub open spec fn with_residue(failure: FailureView, report: Seq<char>) -> FailureView {
    FailureView { residue: Some(report), ..failure }
}

/// The result of an extraction, from what came before the cleanup and how
/// the cleanup went.
pub open spec fn settle(
    plan: ExtractPlanView,
    earlier: Option<FailureView>,
    cleanup: Result<(), FaultView>,
) -> Result<Seq<char>, FailureView> {
    match (earlier, cleanup) {
        (None, Ok(_)) => Ok(extracted_message(plan.subtree, plan.destination)),
        (None, Err(fault)) => Err(failure_at(Step::RemoveScratch, fault)),
        (Some(failure), Ok(_)) => Err(failure),
        (Some(failure), Err(fault)) => Err(with_residue(failure, fault.text)),
    }
}

/// The transition of the extraction machine.
pub open spec fn extract_advance(run: ExtractionView, reply: ReplyView) -> NextView<
    ExtractionView,
    Seq<char>,
> {
    let plan = run.plan;
    match run.stage {
        ExtractStageView::Cloning => match effect_outcome(reply) {
            Ok(_) => enter(plan, ExtractStageView::FindingSubtree),
            Err(fault) => NextView::Finished(Err(failure_at(Step::Clone, fault))),
        },
        ExtractStageView::FindingSubtree => if reply is Present {
            enter(plan, ExtractStageView::CheckingDestination)
        } else {
            enter(
                plan,
                ExtractStageView::Cleaning(Some(failure_with(Step::FindSubtree, plan.subtree))),
            )
        },
        ExtractStageView::CheckingDestination => if reply is Present {
            enter(
                plan,
                ExtractStageView::Cleaning(
                    Some(failure_with(Step::ReserveDestination, plan.destination)),
                ),
            )
        } else {
            enter(plan, ExtractStageView::CreatingParents)
        },
        ExtractStageView::CreatingParents => match effect_outcome(reply) {
            Ok(_) => enter(plan, ExtractStageView::Moving),
            Err(fault) => enter(
                plan,
                ExtractStageView::Cleaning(Some(failure_at(Step::CreateParents, fault))),
            ),
        },
        ExtractStageView::Moving => match effect_outcome(reply) {
            Ok(_) => enter(plan, ExtractStageView::Cleaning(None)),
            Err(fault) => enter(
                plan,
                ExtractStageView::Cleaning(Some(failure_at(Step::MoveSubtree, fault))),
            ),
        },
        ExtractStageView::Cleaning(earlier) => NextView::Finished(
            settle(plan, earlier, effect_outcome(reply)),
        ),
    }
}

/// Writes the report of a successful extraction.
pub fn extracted_report(subtree: &str, destination: &str) -> (report: String)
    ensures
        report@ == extracted_message(subtree@, destination@),
{
    let mut report = String::from_str("Folder '");
    report.append(subtree);
    report.append("' extracted to '");
    report.append(destination);
    report.append("'");
    report
}

impl Extraction {
    /// The action that entering `stage` asks for.
    fn action_for(plan: &ExtractPlan, stage: &ExtractStage) -> (action: Action)
        ensures
            action@ == extract_action(plan@, stage@),
    {
        match stage {
            ExtractStage::Cloning => Action::Clone {
                source: plan.source.clone(),
                destination: plan.scratch.clone(),
            },
            ExtractStage::FindingSubtree => Action::Probe { path: plan.located.clone() },
            ExtractStage::CheckingDestination => Action::Probe { path: plan.destination.clone() },
            ExtractStage::CreatingParents => Action::CreateParents {
                of: plan.destination.clone(),
            },
            ExtractStage::Moving => Action::Move {
                from: plan.located.clone(),
                to: plan.destination.clone(),
            },
            ExtractStage::Cleaning(_) => Action::RemoveTree { path: plan.scratch.clone() },
        }
    }

    /// Goes on to `stage`.
    fn enter(plan: ExtractPlan, stage: ExtractStage) -> (next: Next<Extraction, String>)
        ensures
            next@ == enter(plan@, stage@),
    {
        let action = Extraction::action_for(&plan, &stage);
        Next::Continue { state: Extraction { plan, stage }, action }
    }

    /// Starts an extraction: the first action is the clone into the
    /// transient location.
    pub fn begin(plan: ExtractPlan) -> (start: (Extraction, Action))
        ensures
            start.0@ == (ExtractionView { plan: plan@, stage: ExtractStageView::Cloning }),
            start.1@ == extract_action(plan@, ExtractStageView::Cloning),
    {
        let action = Extraction::action_for(&plan, &ExtractStage::Cloning);
        (Extraction { plan, stage: ExtractStage::Cloning }, action)
    }

    /// Takes the reply to the awaited action and names the next action, or
    /// the result of the run.
    pub fn advance(self, reply: Reply) -> (next: Next<Extraction, String>)
        ensures
            next@ == extract_advance(self@, reply@),
    {
        let plan = self.plan;
        match self.stage {
            ExtractStage::Cloning => match reply.into_outcome() {
                Ok(_) => Extraction::enter(plan, ExtractStage::FindingSubtree),
                Err(fault) => Next::Finished(Err(Failure::at(Step::Clone, fault))),
            },
            ExtractStage::FindingSubtree => if reply.found() {
                Extraction::enter(plan, ExtractStage::CheckingDestination)
            } else {
                let missing = Failure::with_detail(Step::FindSubtree, plan.subtree.clone());
                Extraction::enter(plan, ExtractStage::Cleaning(Some(missing)))
            },
            ExtractStage::CheckingDestination => if reply.found() {
                let taken = Failure::with_detail(
                    Step::ReserveDestination,
                    plan.destination.clone(),
                );
                Extraction::enter(plan, ExtractStage::Cleaning(Some(taken)))
            } else {
                Extraction::enter(plan, ExtractStage::CreatingParents)
            },
            ExtractStage::CreatingParents => match reply.into_outcome() {
                Ok(_) => Extraction::enter(plan, ExtractStage::Moving),
                Err(fault) => Extraction::enter(
                    plan,
                    ExtractStage::Cleaning(Some(Failure::at(Step::CreateParents, fault))),
                ),
            },
            ExtractStage::Moving => match reply.into_outcome() {
                Ok(_) => Extraction::enter(plan, ExtractStage::Cleaning(None)),
                Err(fault) => Extraction::enter(
                    plan,
                    ExtractStage::Cleaning(Some(Failure::at(Step::MoveSubtree, fault))),
                ),
            },
            ExtractStage::Cleaning(earlier) => {
                let result = match (earlier, reply.into_outcome()) {
                    (None, Ok(_)) => Ok(
                        extracted_report(plan.subtree.as_str(), plan.destination.as_str()),
                    ),
                    (None, Err(fault)) => Err(Failure::at(Step::RemoveScratch, fault)),
                    (Some(failure), Ok(_)) => Err(failure),
                    (Some(failure), Err(fault)) => Err(
                        Failure {
                            kind: failure.kind,
                            step: failure.step,
                            detail: failure.detail,
                            residue: Some(fault.text),
                        },
                    ),
                };
                Next::Finished(result)
            },
        }
    }
}

/// The trace of the extraction machine from `run` over `replies`. Replies
/// that come after the run has finished are not read.
pub open spec fn extract_trace(run: ExtractionView, replies: Seq<ReplyView>) -> Trace<Seq<char>>
    decreases replies.len(),
{
    if replies.len() == 0 {
        idle_trace()
    } else {
        match extract_advance(run, replies[0]) {
            NextView::Finished(result) => finished_trace(result),
            NextView::Continue { state, action } => continued_trace(
                action,
                extract_trace(state, replies.drop_first()),
            ),
        }
    }
}

/// The state in which an extraction with `plan` starts.
pub open spec fn started(plan: ExtractPlanView) -> ExtractionView {
    ExtractionView { plan, stage: ExtractStageView::Cloning }
}

/// The removal of the transient clone.
pub open spec fn cleanup_action(plan: ExtractPlanView) -> ActionView {
    ActionView::RemoveTree { path: plan.scratch }
}

/// Whether `action` touches nothing but the paths of `plan`: it writes the
/// transient clone, looks at the subtree in it or at the destination,
/// creates the destination's parents, moves the subtree to the destination,
/// or removes the transient clone.
pub open spec fn confined(plan: ExtractPlanView, action: ActionView) -> bool {
    ||| action == ActionView::Clone { source: plan.source, destination: plan.scratch }
    ||| action == ActionView::Probe { path: plan.located }
    ||| action == ActionView::Probe { path: plan.destination }
    ||| action == ActionView::CreateParents { of: plan.destination }
    ||| action == ActionView::Move { from: plan.located, to: plan.destination }
    ||| action == cleanup_action(plan)
}

/// Whether the failure held while the transient clone is removed is one that
/// the machine itself put there: it has a kind that its step can have, is no
/// cleanup failure and carries no residue.
pub open spec fn stage_is_sound(stage: ExtractStageView) -> bool {
    stage matches ExtractStageView::Cleaning(Some(failure)) ==> attributed(failure)
        && failure.kind != ErrorKind::CleanupFailure && failure.residue is None
}

/// Whether `result` says that the transient clone was left behind.
pub open spec fn cleanup_reported(result: Result<Seq<char>, FailureView>) -> bool {
    result matches Err(failure) && reports_cleanup_failure(failure)
}

/// An extraction never leaves its plan: every action it asks for is
/// confined to the plan's paths, the only thing it ever removes is the
/// transient clone, and the plan stays as it is.
pub proof fn law_extraction_is_confined(run: ExtractionView, reply: ReplyView)
    ensures
        extract_advance(run, reply) matches NextView::Continue { state, action } ==> {
            &&& state.plan == run.plan
            &&& confined(run.plan, action)
            &&& !(action is RemoveFile)
            &&& action is RemoveTree ==> action == cleanup_action(run.plan)
        },
        stage_is_sound(run.stage) ==> (extract_advance(run, reply) matches NextView::Continue {
            state,
            ..
        } ==> stage_is_sound(state.stage)),
{
}

/// Every failure that an extraction ends with has a kind that its step can
/// have.
pub proof fn law_extraction_failure_is_attributed(run: ExtractionView, reply: ReplyView)
    requires
        stage_is_sound(run.stage),
    ensures
        extract_advance(run, reply) matches NextView::Finished(Err(failure)) ==> attributed(
            failure,
        ),
{
}

/// From any state past the clone step, a run that finishes has asked last
/// for the removal of the transient clone, and its result says that the
/// clone was left behind exactly if that removal was not carried out.
pub proof fn law_cleanup_closes_run(run: ExtractionView, replies: Seq<ReplyView>)
    requires
        !(run.stage is Cloning),
        stage_is_sound(run.stage),
        extract_trace(run, replies).result is Some,
    ensures
        ({
            let trace = extract_trace(run, replies);
            let asked = trace.actions.len() as int;
            &&& asked < replies.len()
            &&& run.stage is Cleaning <==> asked == 0
            &&& asked > 0 ==> trace.actions.last() == cleanup_action(run.plan)
            &&& replies[asked] is Done <==> !cleanup_reported(trace.result->0)
        }),
    decreases replies.len(),
{
    match extract_advance(run, replies[0]) {
        NextView::Finished(_) => {},
        NextView::Continue { state, action } => {
            let later = replies.drop_first();
            law_extraction_is_confined(run, replies[0]);
            law_cleanup_closes_run(state, later);
            let rest = extract_trace(state, later);
            let trace = extract_trace(run, replies);
            assert(trace.actions == seq![action] + rest.actions);
            assert(later[rest.actions.len() as int] == replies[trace.actions.len() as int]);
            if rest.actions.len() > 0 {
                assert(trace.actions.last() == rest.actions.last());
            }
        },
    }
}

/// After any extraction that got past the clone step and finished, the
/// last action asked for was the removal of the transient clone, and unless
/// the result reports that the clone was left behind, that removal was
/// carried out.
pub proof fn law_no_clone_left_behind(plan: ExtractPlanView, replies: Seq<ReplyView>)
    requires
        replies.len() > 0,
        replies[0] is Done,
        extract_trace(started(plan), replies).result is Some,
    ensures
        ({
            let trace = extract_trace(started(plan), replies);
            let asked = trace.actions.len() as int;
            &&& 0 < asked < replies.len()
            &&& trace.actions.last() == cleanup_action(plan)
            &&& replies[asked] is Done <==> !cleanup_reported(trace.result->0)
        }),
{
    let later = replies.drop_first();
    let found = ExtractionView { plan, stage: ExtractStageView::FindingSubtree };
    law_cleanup_closes_run(found, later);
    let rest = extract_trace(found, later);
    let trace = extract_trace(started(plan), replies);
    assert(trace.actions == seq![ActionView::Probe { path: plan.located }] + rest.actions);
    assert(later[rest.actions.len() as int] == replies[trace.actions.len() as int]);
    assert(trace.actions.last() == rest.actions.last());
}

/// Extraction is create-only: where the destination exists, the machine
/// asks neither for its parents to be created nor for the move, only for
/// the transient clone to be removed, and the run fails with `PathConflict`.
pub proof fn law_occupied_destination_is_kept(plan: ExtractPlanView, replies: Seq<ReplyView>)
    requires
        replies.len() >= 3,
        replies[0] is Done,
        replies[1] is Present,
        replies[2] is Present,
    ensures
        extract_trace(started(plan), replies).actions == seq![
            ActionView::Probe { path: plan.located },
            ActionView::Probe { path: plan.destination },
            cleanup_action(plan),
        ],
        replies.len() >= 4 ==> (extract_trace(started(plan), replies).result matches Some(
            Err(failure),
        ) && failure.kind == ErrorKind::PathConflict && failure.step
            == Step::ReserveDestination),
{
    reveal_with_fuel(extract_trace, 5);
    let r1 = replies.drop_first();
    let r2 = r1.drop_first();
    let r3 = r2.drop_first();
    assert(r1[0] == replies[1] && r2[0] == replies[2]);
    if replies.len() >= 4 {
        assert(r3[0] == replies[3]);
    }
    assert(extract_trace(started(plan), replies).actions =~= seq![
        ActionView::Probe { path: plan.located },
        ActionView::Probe { path: plan.destination },
        cleanup_action(plan),
    ]);
}

/// Where the subtree is not in the clone, the machine asks for the
/// transient clone to be removed and for nothing else, and the run fails
/// with `PathMissing`; where the removal is carried out, the failure names
/// the subtree.
pub proof fn law_missing_subtree_is_cleaned_up(plan: ExtractPlanView, replies: Seq<ReplyView>)
    requires
        replies.len() >= 3,
        replies[0] is Done,
        !(replies[1] is Present),
    ensures
        extract_trace(started(plan), replies).actions == seq![
            ActionView::Probe { path: plan.located },
            cleanup_action(plan),
        ],
        extract_trace(started(plan), replies).result matches Some(Err(failure)) && failure.kind
            == ErrorKind::PathMissing && failure.step == Step::FindSubtree,
        replies[2] is Done ==> extract_trace(started(plan), replies).result == Some(
            Err::<Seq<char>, FailureView>(failure_with(Step::FindSubtree, plan.subtree)),
        ),
{
    reveal_with_fuel(extract_trace, 4);
    let r1 = replies.drop_first();
    let r2 = r1.drop_first();
    assert(r1[0] == replies[1] && r2[0] == replies[2]);
    assert(extract_trace(started(plan), replies).actions =~= seq![
        ActionView::Probe { path: plan.located },
        cleanup_action(plan),
    ]);
}

/// Where every step goes well, the machine asks in order for the probe of
/// the subtree, the probe of the destination, the creation of its parents,
/// the move and the removal of the transient clone, and reports success
/// naming the subtree and the destination.
pub proof fn law_extraction_completes(plan: ExtractPlanView, replies: Seq<ReplyView>)
    requires
        replies.len() == 6,
        replies[0] is Done,
        replies[1] is Present,
        !(replies[2] is Present),
        replies[3] is Done,
        replies[4] is Done,
        replies[5] is Done,
    ensures
        extract_trace(started(plan), replies).actions == seq![
            ActionView::Probe { path: plan.located },
            ActionView::Probe { path: plan.destination },
            ActionView::CreateParents { of: plan.destination },
            ActionView::Move { from: plan.located, to: plan.destination },
            cleanup_action(plan),
        ],
        extract_trace(started(plan), replies).result == Some(
            Ok::<Seq<char>, FailureView>(extracted_message(plan.subtree, plan.destination)),
        ),
{
    reveal_with_fuel(extract_trace, 7);
    let r1 = replies.drop_first();
    let r2 = r1.drop_first();
    let r3 = r2.drop_first();
    let r4 = r3.drop_first();
    let r5 = r4.drop_first();
    assert(r1[0] == replies[1] && r2[0] == replies[2] && r3[0] == replies[3] && r4[0]
        == replies[4] && r5[0] == replies[5]);
    assert(extract_trace(started(plan), replies).actions =~= seq![
        ActionView::Probe { path: plan.located },
        ActionView::Probe { path: plan.destination },
        ActionView::CreateParents { of: plan.destination },
        ActionView::Move { from: plan.located, to: plan.destination },
        cleanup_action(plan),
    ]);
}

} // verus!
