//! Emptying a directory.
//!
//! The path must exist and be a directory. Its entries are listed once and
//! then removed one by one, in the order of the listing: directories with
//! all that is in them, everything else as a single entry. A symbolic link
//! is removed as a link and never followed. The first removal that fails
//! ends the run, and so does the first entry that could not be read; what
//! was removed before stays removed. Success means that every entry of the
//! listing was removed. The directory itself is kept.

use crate::error::{attributed, failure_at, failure_with, ErrorKind, Failure, FailureView, Step};
use crate::protocol::{
    continued_trace, effect_outcome, finished_trace, idle_trace, listing_view, reply_fault,
    Action, ActionView, EntryKind, Listed, ListedView, Next, NextView, Reply, ReplyView, Trace,
};
use vstd::prelude::*;

verus! {

/// A pruning under way. The state says which action's reply is awaited.
#[derive(Clone, Debug, PartialEq, Eq)]
pub enum Pruning {
    /// The probe of the directory.
    Probing { directory: String },
    /// The listing of the directory.
    Listing { directory: String },
    /// The removal of an entry of kind `kind`. The items of the listing
    /// before `position` are dealt with.
    Removing { items: Vec<Listed>, position: usize, kind: EntryKind },
}

/// The mathematical value of a [`Pruning`].
pub enum PruningView {
    Probing { directory: Seq<char> },
    Listing { directory: Seq<char> },
    Removing { items: Seq<ListedView>, position: int, kind: EntryKind },
}

impl View for Pruning {
    type V = PruningView;

    open spec fn view(&self) -> PruningView {
        match self {
            Pruning::Probing { directory } => PruningView::Probing { directory: directory@ },
            Pruning::Listing { directory } => PruningView::Listing { directory: directory@ },
            Pruning::Removing { items, position, kind } => PruningView::Removing {
                items: listing_view(items@),
                position: *position as int,
                kind: *kind,
            },
        }
    }
}

/// The removal of an entry: a directory goes with all that is in it,
/// anything else, a link too, goes as a single entry.
pub open spec fn removal(path: Seq<char>, kind: EntryKind) -> ActionView {
    match kind {
        EntryKind::Directory => ActionView::RemoveTree { path },
        _ => ActionView::RemoveFile { path },
    }
}

/// The step to which a failed removal of an entry of `kind` is attributed.
pub open spec fn removal_step(kind: EntryKind) -> Step {
    match kind {
        EntryKind::Directory => Step::RemoveDirectory,
        _ => Step::RemoveFile,
    }
}

/// How a pruning goes on with the item of the listing at `from`: with its
/// removal where it is a readable entry, with a failure where it could not
/// be read, with success where the listing is through.
pub open spec fn prune_resume(items: Seq<ListedView>, from: int) -> NextView<PruningView, ()> {
    if from < 0 || from >= items.len() {
        NextView::Finished(Ok(()))
    } else {
        match items[from] {
            ListedView::Entry { path, kind } => NextView::Continue {
                state: PruningView::Removing { items, position: from + 1, kind },
                action: removal(path, kind),
            },
            ListedView::Unreadable { report } => NextView::Finished(
                Err(failure_with(Step::ReadEntry, report)),
            ),
        }
    }
}

/// How a pruning goes on after the probe of `directory`.
pub open spec fn after_probe(directory: Seq<char>, reply: ReplyView) -> NextView<PruningView, ()> {
    match reply {
        ReplyView::Present(EntryKind::Directory) => NextView::Continue {
            state: PruningView::Listing { directory },
            action: ActionView::List { path: directory },
        },
        ReplyView::Present(_) => NextView::Finished(
            Err(failure_with(Step::RequireDirectory, directory)),
        ),
        _ => NextView::Finished(Err(failure_with(Step::FindDirectory, directory))),
    }
}

/// The transition of the pruning machine.
pub open spec fn prune_advance(run: PruningView, reply: ReplyView) -> NextView<PruningView, ()> {
    match run {
        PruningView::Probing { directory } => after_probe(directory, reply),
        PruningView::Listing { directory } => match reply {
            ReplyView::Listing(items) => prune_resume(items, 0),
            _ => NextView::Finished(Err(failure_at(Step::ListDirectory, reply_fault(reply)))),
        },
        PruningView::Removing { items, position, kind } => match effect_outcome(reply) {
            Ok(_) => prune_resume(items, position),
            Err(fault) => NextView::Finished(Err(failure_at(removal_step(kind), fault))),
        },
    }
}

impl EntryKind {
    /// The step to which a failed removal of an entry of this kind is
    /// attributed.
    pub fn removal_step(self) -> (step: Step)
        ensures
            step == removal_step(self),
    {
        match self {
            EntryKind::Directory => Step::RemoveDirectory,
            _ => Step::RemoveFile,
        }
    }
}

/// Asks for the removal of the entry at `path`.
pub fn remove_entry(path: String, kind: EntryKind) -> (action: Action)
    ensures
        action@ == removal(path@, kind),
{
    match kind {
        EntryKind::Directory => Action::RemoveTree { path },
        _ => Action::RemoveFile { path },
    }
}

/// Goes on with the item of the listing at `from`.
pub fn resume(items: Vec<Listed>, from: usize) -> (next: Next<Pruning, ()>)
    ensures
        next@ == prune_resume(listing_view(items@), from as int),
{
    if from >= items.len() {
        return Next::Finished(Ok(()));
    }
    match &items[from] {
        Listed::Entry { path, kind } => {
            let kind = *kind;
            let action = remove_entry(path.clone(), kind);
            Next::Continue { state: Pruning::Removing { items, position: from + 1, kind }, action }
        },
        Listed::Unreadable { report } => Next::Finished(
            Err(Failure::with_detail(Step::ReadEntry, report.clone())),
        ),
    }
}

impl Pruning {
    /// Starts a pruning: the first action is the probe of the directory.
    pub fn begin(directory: String) -> (start: (Pruning, Action))
        ensures
            start.0@ == (PruningView::Probing { directory: directory@ }),
            start.1@ == (ActionView::Probe { path: directory@ }),
    {
        let action = Action::Probe { path: directory.clone() };
        (Pruning::Probing { directory }, action)
    }

    /// Takes the reply to the awaited action and names the next action, or
    /// the result of the run.
    pub fn advance(self, reply: Reply) -> (next: Next<Pruning, ()>)
        ensures
            next@ == prune_advance(self@, reply@),
    {
        match self {
            Pruning::Probing { directory } => match reply {
                Reply::Present(EntryKind::Directory) => {
                    let action = Action::List { path: directory.clone() };
                    Next::Continue { state: Pruning::Listing { directory }, action }
                },
                Reply::Present(_) => Next::Finished(
                    Err(Failure::with_detail(Step::RequireDirectory, directory)),
                ),
                _ => Next::Finished(Err(Failure::with_detail(Step::FindDirectory, directory))),
            },
            Pruning::Listing { directory } => match reply {
                Reply::Listing(items) => resume(items, 0),
                other => Next::Finished(
                    Err(Failure::at(Step::ListDirectory, other.into_fault())),
                ),
            },
            Pruning::Removing { items, position, kind } => match reply.into_outcome() {
                Ok(_) => resume(items, position),
                Err(fault) => Next::Finished(Err(Failure::at(kind.removal_step(), fault))),
            },
        }
    }
}

/// The trace of the pruning machine from `run` over `replies`. Replies that
/// come after the run has finished are not read.
pub open spec fn prune_trace(run: PruningView, replies: Seq<ReplyView>) -> Trace<()>
    decreases replies.len(),
{
    if replies.len() == 0 {
        idle_trace()
    } else {
        match prune_advance(run, replies[0]) {
            NextView::Finished(result) => finished_trace(result),
            NextView::Continue { state, action } => continued_trace(
                action,
                prune_trace(state, replies.drop_first()),
            ),
        }
    }
}

/// The removal of the item at `at`, which must be a readable entry.
pub open spec fn removal_of(items: Seq<ListedView>, at: int) -> ActionView {
    removal(items[at]->path, items[at]->kind)
}

/// The removals of the first `count` items of the listing, in its order.
pub open spec fn removals(items: Seq<ListedView>, count: int) -> Seq<ActionView> {
    Seq::new(count as nat, |at: int| removal_of(items, at))
}

/// Whether the `count` items of the listing from `from` on are all readable
/// entries.
pub open spec fn readable_between(items: Seq<ListedView>, from: int, count: int) -> bool {
    &&& 0 <= from <= count <= items.len()
    &&& forall|at: int| from <= at < count ==> (#[trigger] items[at]) is Entry
}

/// The result of a pruning that got through the first `count` items: success
/// where that is the whole listing, else the failure to read the next item.
pub open spec fn result_after(items: Seq<ListedView>, count: int) -> Result<(), FailureView> {
    if 0 <= count < items.len() && items[count] is Unreadable {
        Err(failure_with(Step::ReadEntry, items[count]->report))
    } else {
        Ok(())
    }
}

/// While every removal is carried out, a pruning that awaits the removal of
/// the entry before `position` asks for the removals of the readable entries
/// that follow, up to `count`, and ends there.
proof fn lemma_removing_runs_through(
    items: Seq<ListedView>,
    position: int,
    count: int,
    kind: EntryKind,
    replies: Seq<ReplyView>,
)
    requires
        readable_between(items, position, count),
        count == items.len() || items[count] is Unreadable,
        replies.len() == count - position + 1,
        forall|i: int| 0 <= i < replies.len() ==> #[trigger] replies[i] is Done,
    ensures
        prune_trace(PruningView::Removing { items, position, kind }, replies).actions
            == Seq::new((count - position) as nat, |i: int| removal_of(items, position + i)),
        prune_trace(PruningView::Removing { items, position, kind }, replies).result == Some(
            result_after(items, count),
        ),
    decreases replies.len(),
{
    let run = PruningView::Removing { items, position, kind };
    assert(replies[0] is Done);
    if position < count {
        assert(items[position] is Entry);
        let later = replies.drop_first();
        assert forall|i: int| 0 <= i < later.len() implies #[trigger] later[i] is Done by {
            assert(replies[i + 1] is Done);
        }
        lemma_removing_runs_through(items, position + 1, count, items[position]->kind, later);
        assert(prune_trace(run, replies).actions =~= Seq::new(
            (count - position) as nat,
            |i: int| removal_of(items, position + i),
        ));
    } else {
        assert(prune_trace(run, replies).actions =~= Seq::new(
            (count - position) as nat,
            |i: int| removal_of(items, position + i),
        ));
    }
}

/// Where the path is a directory, the first `count` items of its listing
/// are readable entries and every removal is carried out, the machine asks
/// for the listing and then for the removal of each of those entries, in the
/// order of the listing, and for nothing else. It succeeds where that is the
/// whole listing, and fails with `FilesystemIO` where the next item could not
/// be read.
pub proof fn law_pruning_runs_through(
    directory: Seq<char>,
    items: Seq<ListedView>,
    count: int,
    replies: Seq<ReplyView>,
)
    requires
        readable_between(items, 0, count),
        count == items.len() || items[count] is Unreadable,
        replies.len() == count + 2,
        replies[0] == ReplyView::Present(EntryKind::Directory),
        replies[1] == ReplyView::Listing(items),
        forall|i: int| 2 <= i < replies.len() ==> #[trigger] replies[i] is Done,
    ensures
        prune_trace(PruningView::Probing { directory }, replies).actions == seq![
            ActionView::List { path: directory },
        ] + removals(items, count),
        prune_trace(PruningView::Probing { directory }, replies).result == Some(
            result_after(items, count),
        ),
{
    let r1 = replies.drop_first();
    let r2 = r1.drop_first();
    assert(r1[0] == replies[1]);
    let listing = PruningView::Listing { directory };
    assert(prune_trace(PruningView::Probing { directory }, replies) == continued_trace(
        ActionView::List { path: directory },
        prune_trace(listing, r1),
    ));
    if count == 0 {
        assert(prune_trace(listing, r1) == finished_trace(result_after(items, 0)));
        assert(seq![ActionView::List { path: directory }] + Seq::<ActionView>::empty()
            =~= seq![ActionView::List { path: directory }] + removals(items, 0));
    } else {
        assert(items[0] is Entry);
        assert forall|i: int| 0 <= i < r2.len() implies #[trigger] r2[i] is Done by {
            assert(replies[i + 2] is Done);
        }
        lemma_removing_runs_through(items, 1, count, items[0]->kind, r2);
        let rest = prune_trace(PruningView::Removing { items, position: 1, kind: items[0]->kind }, r2);
        assert(prune_trace(listing, r1) == continued_trace(removal_of(items, 0), rest));
        assert(seq![ActionView::List { path: directory }] + (seq![removal_of(items, 0)]
            + rest.actions) =~= seq![ActionView::List { path: directory }] + removals(
            items,
            count,
        ));
    }
}

/// Emptying a directory removes every entry: where the path is a directory,
/// every item of its listing is a readable entry and every removal is
/// carried out, the machine asks for one removal for each entry, in the
/// order of the listing, and succeeds. It asks for nothing that touches the
/// directory itself.
pub proof fn law_pruning_removes_every_entry(
    directory: Seq<char>,
    items: Seq<ListedView>,
    replies: Seq<ReplyView>,
)
    requires
        forall|at: int| 0 <= at < items.len() ==> (#[trigger] items[at]) is Entry,
        replies.len() == items.len() + 2,
        replies[0] == ReplyView::Present(EntryKind::Directory),
        replies[1] == ReplyView::Listing(items),
        forall|i: int| 2 <= i < replies.len() ==> #[trigger] replies[i] is Done,
    ensures
        prune_trace(PruningView::Probing { directory }, replies).actions == seq![
            ActionView::List { path: directory },
        ] + removals(items, items.len() as int),
        prune_trace(PruningView::Probing { directory }, replies).result == Some(
            Ok::<(), FailureView>(()),
        ),
{
    law_pruning_runs_through(directory, items, items.len() as int, replies);
}

/// An entry that could not be read is never passed over: where the first
/// `count` items of the listing are readable entries, the next one could not
/// be read and every removal is carried out, the run ends after the removals
/// of those entries with a `FilesystemIO` failure that carries the report of
/// the unreadable item. So a pruning only succeeds where every item of the
/// listing was a readable entry that it removed.
pub proof fn law_unreadable_entry_fails_pruning(
    directory: Seq<char>,
    items: Seq<ListedView>,
    count: int,
    replies: Seq<ReplyView>,
)
    requires
        readable_between(items, 0, count),
        count < items.len(),
        items[count] is Unreadable,
        replies.len() == count + 2,
        replies[0] == ReplyView::Present(EntryKind::Directory),
        replies[1] == ReplyView::Listing(items),
        forall|i: int| 2 <= i < replies.len() ==> #[trigger] replies[i] is Done,
    ensures
        prune_trace(PruningView::Probing { directory }, replies).actions == seq![
            ActionView::List { path: directory },
        ] + removals(items, count),
        prune_trace(PruningView::Probing { directory }, replies).result == Some(
            Err::<(), FailureView>(failure_with(Step::ReadEntry, items[count]->report)),
        ),
        failure_with(Step::ReadEntry, items[count]->report).kind == ErrorKind::FilesystemIO,
{
    law_pruning_runs_through(directory, items, count, replies);
}

/// Emptying a directory whose listing is empty asks for no removal and
/// succeeds: emptying an empty directory does nothing.
pub proof fn law_empty_directory_is_left_alone(directory: Seq<char>)
    ensures
        prune_advance(
            PruningView::Listing { directory },
            ReplyView::Listing(Seq::<ListedView>::empty()),
        ) == NextView::<PruningView, ()>::Finished(Ok(())),
{
}

/// A path that does not exist is rejected with `PathMissing`, one that is
/// not a directory with `NotADirectory`; in both cases nothing is asked
/// for.
pub proof fn law_pruning_rejects_bad_target(directory: Seq<char>, reply: ReplyView)
    ensures
        !(reply is Present) ==> prune_advance(PruningView::Probing { directory }, reply)
            == NextView::<PruningView, ()>::Finished(
            Err(failure_with(Step::FindDirectory, directory)),
        ) && failure_with(Step::FindDirectory, directory).kind == ErrorKind::PathMissing,
        reply is Present && reply != ReplyView::Present(EntryKind::Directory) ==> prune_advance(
            PruningView::Probing { directory },
            reply,
        ) == NextView::<PruningView, ()>::Finished(
            Err(failure_with(Step::RequireDirectory, directory)),
        ) && failure_with(Step::RequireDirectory, directory).kind == ErrorKind::NotADirectory,
{
}

/// The first removal that fails ends the run at once, with a `FilesystemIO`
/// failure that carries what the removal reported.
pub proof fn law_pruning_stops_at_first_failure(
    items: Seq<ListedView>,
    position: int,
    kind: EntryKind,
    reply: ReplyView,
)
    requires
        !(reply is Done),
    ensures
        prune_advance(PruningView::Removing { items, position, kind }, reply) matches
            NextView::Finished(Err(failure)) && failure.kind == ErrorKind::FilesystemIO
            && failure.step == removal_step(kind) && failure.detail == reply_fault(reply).text,
{
}

/// A pruning succeeds only at the end of the listing: where a step ends the
/// run with success, the items before the awaited position are dealt with
/// and no item is left behind them.
pub proof fn law_pruning_succeeds_only_at_the_end(run: PruningView, reply: ReplyView)
    requires
        prune_advance(run, reply) == NextView::<PruningView, ()>::Finished(Ok(())),
    ensures
        run is Listing ==> (reply matches ReplyView::Listing(items) && items.len() == 0),
        run matches PruningView::Removing { items, position, .. } ==> (reply is Done && (position
            < 0 || position >= items.len())),
        !(run is Probing),
{
}

/// Every failure that a pruning ends with has a kind that its step can
/// have.
pub proof fn law_pruning_failure_is_attributed(run: PruningView, reply: ReplyView)
    ensures
        prune_advance(run, reply) matches NextView::Finished(Err(failure)) ==> attributed(failure)
            && failure.residue is None,
{
}

/// The listing that a pruning works on after `reply`: the one it holds, or
/// the one that the reply brings.
pub open spec fn listing_in_hand(run: PruningView, reply: ReplyView) -> Option<Seq<ListedView>> {
    match run {
        PruningView::Probing { .. } => None,
        PruningView::Listing { .. } => match reply {
            ReplyView::Listing(items) => Some(items),
            _ => None,
        },
        PruningView::Removing { items, .. } => Some(items),
    }
}

/// A pruning touches nothing but the directory and what was listed in it:
/// after the probe it asks for the listing of the directory, and from then
/// on for nothing but the removal of a readable entry of that listing.
pub proof fn law_pruning_removes_only_listed(run: PruningView, reply: ReplyView)
    ensures
        prune_advance(run, reply) matches NextView::Continue { state, action } ==> (match run {
            PruningView::Probing { directory } => action == (ActionView::List { path: directory }),
            _ => {
                &&& listing_in_hand(run, reply) matches Some(items)
                &&& state matches PruningView::Removing { items: kept, position, kind }
                &&& kept == items
                &&& 0 < position <= items.len()
                &&& items[position - 1] is Entry
                &&& kind == items[position - 1]->kind
                &&& action == removal_of(items, position - 1)
            },
        }),
{
}

} // verus!
