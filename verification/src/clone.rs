//! Cloning a repository, optionally pinned to a commit.
//!
//! The clone comes first. Where a commit reference is given, it is then
//! resolved, the commit is looked up, HEAD is detached to it, its tree is
//! read and checked out with force, strictly in that order. The first step
//! that fails ends the run; nothing is rolled back.

use crate::error::{attributed, failure_at, ErrorKind, Failure, FailureView, Step};
use crate::protocol::{
    continued_trace, effect_outcome, finished_trace, idle_trace, reply_fault, Action,
    ActionView, Next, NextView, Reply, ReplyView, Trace,
};
use crate::reference::{parse_commit_id, resolution_view, resolved, well_formed_id, id_bytes, CommitId};
use vstd::prelude::*;
use vstd::string::*;

verus! {

/// What to clone, where to, and the commit to pin the working copy to.
#[derive(Clone, Debug, PartialEq, Eq)]
pub struct CloneRequest {
    pub source: String,
    pub destination: String,
    pub commit: Option<String>,
}

/// The mathematical value of a [`CloneRequest`].
pub struct CloneRequestView {
    pub source: Seq<char>,
    pub destination: Seq<char>,
    pub commit: Option<Seq<char>>,
}

impl View for CloneRequest {
    type V = CloneRequestView;

    open spec fn view(&self) -> CloneRequestView {
        CloneRequestView {
            source: self.source@,
            destination: self.destination@,
            commit: match self.commit {
                Some(reference) => Some(reference@),
                None => None,
            },
        }
    }
}

/// A pinning under way: the source, the reference as it was written, and the
/// identifier it resolved to.
#[derive(Clone, Debug, PartialEq, Eq)]
pub struct Pin {
    pub source: String,
    pub reference: String,
    pub id: CommitId,
}

/// The mathematical value of a [`Pin`].
pub struct PinView {
    pub source: Seq<char>,
    pub reference: Seq<char>,
    pub id: Seq<u8>,
}

impl View for Pin {
    type V = PinView;

    open spec fn view(&self) -> PinView {
        PinView { source: self.source@, reference: self.reference@, id: self.id@ }
    }
}

/// The action of a pinning whose reply is awaited.
#[derive(Clone, Copy, Debug, PartialEq, Eq, Structural, Hash)]
pub enum PinStage {
    FindingCommit,
    DetachingHead,
    ReadingTree,
    CheckingOut,
}

/// A clone under way. The state says which action's reply is awaited.
#[derive(Clone, Debug, PartialEq, Eq)]
pub enum CloneRun {
    /// The clone itself was asked for.
    Cloning(CloneRequest),
    /// The clone is there; the action of `stage` was asked for.
    Pinning { stage: PinStage, pin: Pin },
}

/// The mathematical value of a [`CloneRun`].
pub enum CloneRunView {
    Cloning(CloneRequestView),
    Pinning { stage: PinStage, pin: PinView },
}

impl View for CloneRun {
    type V = CloneRunView;

    open spec fn view(&self) -> CloneRunView {
        match self {
            CloneRun::Cloning(request) => CloneRunView::Cloning(request@),
            CloneRun::Pinning { stage, pin } => CloneRunView::Pinning { stage: *stage, pin: pin@ },
        }
    }
}

/// The text of `text` written as a quoted, escaped string.
pub uninterp spec fn debug_text(text: Seq<char>) -> Seq<char>;

/// Formats a string with the `Debug` formatting of `str`.
///
/// Trusted: the formatted text depends on the string alone.
#[verifier::external_body]
fn quote(text: &str) -> (quoted: String)
    ensures
        quoted@ == debug_text(text@),
{
    format!("{:?}", text)
}

/// The report of a clone without pinning; `place` is the destination as it
/// is shown.
pub open spec fn cloned_message(source: Seq<char>, place: Seq<char>) -> Seq<char> {
    "Cloned "@ + source + " into "@ + place
}

/// The report of a clone pinned to `reference`.
pub open spec fn pinned_message(source: Seq<char>, reference: Seq<char>) -> Seq<char> {
    "Cloned "@ + source + " and checked out commit "@ + reference
}

/// The action that a pinning asks for at `stage`.
pub open spec fn pin_action(stage: PinStage, id: Seq<u8>) -> ActionView {
    match stage {
        PinStage::FindingCommit => ActionView::FindCommit { id },
        PinStage::DetachingHead => ActionView::DetachHead { id },
        PinStage::ReadingTree => ActionView::ReadTree { id },
        PinStage::CheckingOut => ActionView::Checkout { id, force: true },
    }
}

/// The step to which a failure at `stage` is attributed.
pub open spec fn pin_step(stage: PinStage) -> Step {
    match stage {
        PinStage::FindingCommit => Step::FindCommit,
        PinStage::DetachingHead => Step::DetachHead,
        PinStage::ReadingTree => Step::ReadTree,
        PinStage::CheckingOut => Step::Checkout,
    }
}

/// The stage that follows `stage`, if any.
pub open spec fn stage_after(stage: PinStage) -> Option<PinStage> {
    match stage {
        PinStage::FindingCommit => Some(PinStage::DetachingHead),
        PinStage::DetachingHead => Some(PinStage::ReadingTree),
        PinStage::ReadingTree => Some(PinStage::CheckingOut),
        PinStage::CheckingOut => None,
    }
}

/// The first action of a clone: the clone itself.
pub open spec fn clone_action(request: CloneRequestView) -> ActionView {
    ActionView::Clone { source: request.source, destination: request.destination }
}

/// How a run goes on once `resolution` of the reference is known.
pub open spec fn pin_start(
    source: Seq<char>,
    reference: Seq<char>,
    resolution: Result<Seq<u8>, FailureView>,
) -> NextView<CloneRunView, Seq<char>> {
    match resolution {
        Ok(id) => NextView::Continue {
            state: CloneRunView::Pinning {
                stage: PinStage::FindingCommit,
                pin: PinView { source, reference, id },
            },
            action: pin_action(PinStage::FindingCommit, id),
        },
        Err(failure) => NextView::Finished(Err(failure)),
    }
}

/// How a run goes on after the clone has succeeded.
pub open spec fn after_clone(request: CloneRequestView) -> NextView<CloneRunView, Seq<char>> {
    match request.commit {
        None => NextView::Finished(
            Ok(cloned_message(request.source, debug_text(request.destination))),
        ),
        Some(reference) => pin_start(request.source, reference, resolved(reference)),
    }
}

/// How a pinning goes on after the action of `stage` has succeeded.
pub open spec fn after_pin_stage(stage: PinStage, pin: PinView) -> NextView<
    CloneRunView,
    Seq<char>,
> {
    match stage_after(stage) {
        Some(following) => NextView::Continue {
            state: CloneRunView::Pinning { stage: following, pin },
            action: pin_action(following, pin.id),
        },
        None => NextView::Finished(Ok(pinned_message(pin.source, pin.reference))),
    }
}

/// The transition of the clone machine: from the state and the reply to the
/// awaited action, to the next state and action or to the result.
pub open spec fn clone_advance(run: CloneRunView, reply: ReplyView) -> NextView<
    CloneRunView,
    Seq<char>,
> {
    match run {
        CloneRunView::Cloning(request) => match effect_outcome(reply) {
            Ok(_) => after_clone(request),
            Err(fault) => NextView::Finished(Err(failure_at(Step::Clone, fault))),
        },
        CloneRunView::Pinning { stage, pin } => match effect_outcome(reply) {
            Ok(_) => after_pin_stage(stage, pin),
            Err(fault) => NextView::Finished(Err(failure_at(pin_step(stage), fault))),
        },
    }
}

/// Writes the report of a clone without pinning.
pub fn cloned_report(source: &str, place: &str) -> (report: String)
    ensures
        report@ == cloned_message(source@, place@),
{
    let mut report = String::from_str("Cloned ");
    report.append(source);
    report.append(" into ");
    report.append(place);
    report
}

/// Writes the report of a clone pinned to `reference`.
pub fn pinned_report(source: &str, reference: &str) -> (report: String)
    ensures
        report@ == pinned_message(source@, reference@),
{
    let mut report = String::from_str("Cloned ");
    report.append(source);
    report.append(" and checked out commit ");
    report.append(reference);
    report
}

/// Starts the pinning once the reference has been resolved, or ends the run
/// with the failure of the resolution.
pub fn start_pin(source: String, reference: String, resolution: Result<CommitId, Failure>) -> (next:
    Next<CloneRun, String>)
    ensures
        next@ == pin_start(source@, reference@, resolution_view(resolution)),
{
    match resolution {
        Ok(id) => {
            let action = Action::FindCommit { id: id.clone() };
            Next::Continue {
                state: CloneRun::Pinning {
                    stage: PinStage::FindingCommit,
                    pin: Pin { source, reference, id },
                },
                action,
            }
        },
        Err(failure) => Next::Finished(Err(failure)),
    }
}

impl PinStage {
    /// The step to which a failure at this stage is attributed.
    pub fn step(self) -> (step: Step)
        ensures
            step == pin_step(self),
    {
        match self {
            PinStage::FindingCommit => Step::FindCommit,
            PinStage::DetachingHead => Step::DetachHead,
            PinStage::ReadingTree => Step::ReadTree,
            PinStage::CheckingOut => Step::Checkout,
        }
    }
}

impl CloneRun {
    /// Starts a clone: the first action is the clone itself.
    pub fn begin(request: CloneRequest) -> (start: (CloneRun, Action))
        ensures
            start.0@ == CloneRunView::Cloning(request@),
            start.1@ == clone_action(request@),
    {
        let action = Action::Clone {
            source: request.source.clone(),
            destination: request.destination.clone(),
        };
        (CloneRun::Cloning(request), action)
    }

    /// Starts pinning the working copy that was cloned from `source` to the
    /// commit that `reference` names: resolves the reference and asks for the
    /// lookup of the commit, or ends with `ReferenceInvalid` where the
    /// reference is not forty hexadecimal digits.
    pub fn pin(source: String, reference: String) -> (next: Next<CloneRun, String>)
        ensures
            next@ == pin_start(source@, reference@, resolved(reference@)),
    {
        let resolution = parse_commit_id(reference.as_str());
        start_pin(source, reference, resolution)
    }

    /// Takes the reply to the awaited action and names the next action, or
    /// the result of the run.
    pub fn advance(self, reply: Reply) -> (next: Next<CloneRun, String>)
        ensures
            next@ == clone_advance(self@, reply@),
    {
        match self {
            CloneRun::Cloning(request) => match reply.into_outcome() {
                Err(fault) => Next::Finished(Err(Failure::at(Step::Clone, fault))),
                Ok(_) => match request.commit {
                    None => {
                        let place = quote(request.destination.as_str());
                        Next::Finished(Ok(cloned_report(request.source.as_str(), place.as_str())))
                    },
                    Some(reference) => CloneRun::pin(request.source, reference),
                },
            },
            CloneRun::Pinning { stage, pin } => match reply.into_outcome() {
                Err(fault) => Next::Finished(Err(Failure::at(stage.step(), fault))),
                Ok(_) => match stage {
                    PinStage::FindingCommit => {
                        let action = Action::DetachHead { id: pin.id.clone() };
                        Next::Continue {
                            state: CloneRun::Pinning { stage: PinStage::DetachingHead, pin },
                            action,
                        }
                    },
                    PinStage::DetachingHead => {
                        let action = Action::ReadTree { id: pin.id.clone() };
                        Next::Continue {
                            state: CloneRun::Pinning { stage: PinStage::ReadingTree, pin },
                            action,
                        }
                    },
                    PinStage::ReadingTree => {
                        let action = Action::Checkout { id: pin.id.clone(), force: true };
                        Next::Continue {
                            state: CloneRun::Pinning { stage: PinStage::CheckingOut, pin },
                            action,
                        }
                    },
                    PinStage::CheckingOut => Next::Finished(
                        Ok(pinned_report(pin.source.as_str(), pin.reference.as_str())),
                    ),
                },
            },
        }
    }
}

/// The trace of the clone machine from `run` over `replies`. Replies that
/// come after the run has finished are not read.
pub open spec fn clone_trace(run: CloneRunView, replies: Seq<ReplyView>) -> Trace<Seq<char>>
    decreases replies.len(),
{
    if replies.len() == 0 {
        idle_trace()
    } else {
        match clone_advance(run, replies[0]) {
            NextView::Finished(result) => finished_trace(result),
            NextView::Continue { state, action } => continued_trace(
                action,
                clone_trace(state, replies.drop_first()),
            ),
        }
    }
}

/// The actions of a complete pinning to `id`, in order.
pub open spec fn pin_sequence(id: Seq<u8>) -> Seq<ActionView> {
    seq![
        pin_action(PinStage::FindingCommit, id),
        pin_action(PinStage::DetachingHead, id),
        pin_action(PinStage::ReadingTree, id),
        pin_action(PinStage::CheckingOut, id),
    ]
}

/// The number of actions of a pinning that come before that of `stage`.
pub open spec fn stage_index(stage: PinStage) -> int {
    match stage {
        PinStage::FindingCommit => 0,
        PinStage::DetachingHead => 1,
        PinStage::ReadingTree => 2,
        PinStage::CheckingOut => 3,
    }
}

/// Whether every one of `replies` is `Done`.
pub open spec fn all_done(replies: Seq<ReplyView>) -> bool {
    forall|i: int| 0 <= i < replies.len() ==> #[trigger] replies[i] is Done
}

/// From any stage of a pinning, whatever the replies, the actions asked for
/// are the ones that follow that stage in the fixed order, up to the point
/// where the run stopped.
pub proof fn law_pinning_keeps_order(stage: PinStage, pin: PinView, replies: Seq<ReplyView>)
    ensures
        clone_trace(CloneRunView::Pinning { stage, pin }, replies).actions.is_prefix_of(
            pin_sequence(pin.id).skip(stage_index(stage) + 1),
        ),
    decreases replies.len(),
{
    let run = CloneRunView::Pinning { stage, pin };
    let expected = pin_sequence(pin.id).skip(stage_index(stage) + 1);
    if replies.len() > 0 {
        match clone_advance(run, replies[0]) {
            NextView::Finished(_) => {},
            NextView::Continue { state, action } => {
                let following = stage_after(stage)->0;
                law_pinning_keeps_order(following, pin, replies.drop_first());
                let rest = clone_trace(state, replies.drop_first()).actions;
                let later = pin_sequence(pin.id).skip(stage_index(following) + 1);
                assert(expected =~= seq![action] + later);
                assert((seq![action] + rest).is_prefix_of(seq![action] + later));
            },
        }
    }
}

/// Whatever the replies, a clone asks, after the clone itself, for nothing
/// but the actions of a pinning to the identifier that the forty digits of
/// the reference spell, in their order: lookup, detachment, tree, checkout
/// with force.
pub proof fn law_clone_keeps_order(request: CloneRequestView, replies: Seq<ReplyView>)
    ensures
        request.commit is None ==> clone_trace(
            CloneRunView::Cloning(request),
            replies,
        ).actions.len() == 0,
        request.commit is Some && !well_formed_id(request.commit->0) ==> clone_trace(
            CloneRunView::Cloning(request),
            replies,
        ).actions.len() == 0,
        request.commit is Some && well_formed_id(request.commit->0) ==> clone_trace(
            CloneRunView::Cloning(request),
            replies,
        ).actions.is_prefix_of(pin_sequence(id_bytes(request.commit->0))),
{
    if replies.len() > 0 {
        match clone_advance(CloneRunView::Cloning(request), replies[0]) {
            NextView::Finished(_) => {},
            NextView::Continue { state, action } => {
                let reference = request.commit->0;
                let id = id_bytes(reference);
                let pin = PinView { source: request.source, reference, id };
                law_pinning_keeps_order(PinStage::FindingCommit, pin, replies.drop_first());
                let rest = clone_trace(state, replies.drop_first()).actions;
                let later = pin_sequence(id).skip(1);
                assert(pin_sequence(id) =~= seq![action] + later);
                assert((seq![action] + rest).is_prefix_of(seq![action] + later));
            },
        }
    }
}

/// Where the clone and every action of the pinning succeed, a clone with a
/// well-formed reference, forty hexadecimal digits, asks for the whole
/// pinning to the identifier that the digits spell, in order, and reports
/// success naming the source and the reference.
pub proof fn law_pinning_completes(request: CloneRequestView, replies: Seq<ReplyView>)
    requires
        request.commit matches Some(reference) && well_formed_id(reference),
        replies.len() == 5,
        all_done(replies),
    ensures
        clone_trace(CloneRunView::Cloning(request), replies).actions == pin_sequence(
            id_bytes(request.commit->0),
        ),
        clone_trace(CloneRunView::Cloning(request), replies).result == Some(
            Ok::<Seq<char>, FailureView>(pinned_message(request.source, request.commit->0)),
        ),
{
    reveal_with_fuel(clone_trace, 6);
    let r1 = replies.drop_first();
    let r2 = r1.drop_first();
    let r3 = r2.drop_first();
    let r4 = r3.drop_first();
    assert(replies[0] is Done && r1[0] is Done && r2[0] is Done && r3[0] is Done && r4[0] is Done);
    assert(clone_trace(CloneRunView::Cloning(request), replies).actions =~= pin_sequence(
        id_bytes(request.commit->0),
    ));
}

/// A clone with a malformed commit reference, which is any text but forty
/// hexadecimal digits, never asks for anything after the clone itself, so
/// the repository is left as the clone made it; and where the clone
/// succeeded, the run fails with `ReferenceInvalid`.
pub proof fn law_malformed_reference_leaves_clone(
    request: CloneRequestView,
    replies: Seq<ReplyView>,
)
    requires
        request.commit matches Some(reference) && !well_formed_id(reference),
    ensures
        clone_trace(CloneRunView::Cloning(request), replies).actions.len() == 0,
        replies.len() > 0 && replies[0] is Done ==> (clone_trace(
            CloneRunView::Cloning(request),
            replies,
        ).result matches Some(Err(failure)) && failure.kind == ErrorKind::ReferenceInvalid
            && failure.step == Step::ParseCommitId && failure.residue is None),
{
}

/// Where the clone succeeds and no commit is asked for, the run ends at
/// once with a report that names the source and the destination.
pub proof fn law_plain_clone_reports(request: CloneRequestView, replies: Seq<ReplyView>)
    requires
        request.commit is None,
        replies.len() > 0,
        replies[0] is Done,
    ensures
        clone_trace(CloneRunView::Cloning(request), replies) == finished_trace(
            Ok::<Seq<char>, FailureView>(
                cloned_message(request.source, debug_text(request.destination)),
            ),
        ),
{
}

/// The step whose reply a run awaits.
pub open spec fn awaited_step(run: CloneRunView) -> Step {
    match run {
        CloneRunView::Cloning(_) => Step::Clone,
        CloneRunView::Pinning { stage, .. } => pin_step(stage),
    }
}

/// A failed step ends the run at once with a failure attributed to that
/// step, which carries what the step reported.
pub proof fn law_failure_names_step(run: CloneRunView, reply: ReplyView)
    requires
        !(reply is Done),
    ensures
        clone_advance(run, reply) == NextView::<CloneRunView, Seq<char>>::Finished(
            Err(failure_at(awaited_step(run), reply_fault(reply))),
        ),
{
}

/// Every failure that a clone ends with has a kind that its step can have,
/// and is either that of the awaited step or that of resolving the
/// reference.
pub proof fn law_clone_failure_is_attributed(run: CloneRunView, reply: ReplyView)
    ensures
        clone_advance(run, reply) matches NextView::Finished(Err(failure)) ==> {
            &&& attributed(failure)
            &&& failure.residue is None
            &&& failure.step == awaited_step(run) || (run is Cloning && failure.step
                == Step::ParseCommitId)
        },
{
}

} // verus!
