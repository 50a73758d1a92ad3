//! What the machines ask for, and what they are told.
//!
//! A machine hands out one [`Action`] at a time. The caller performs it and
//! answers with a [`Reply`]. The machine then either names the next action or
//! finishes: see [`Next`].

use crate::error::{silent_fault, Failure, FailureView, Fault, FaultView};
use crate::reference::CommitId;
use vstd::prelude::*;

verus! {

/// What lies at a path.
///
/// A probe follows symbolic links and so never answers `Link`. The entries
/// of a listing are told apart without following links.
#[derive(Clone, Copy, Debug, PartialEq, Eq, Structural, Hash)]
pub enum EntryKind {
    /// A regular file, or anything else that is neither of the other two.
    File,
    /// A directory.
    Directory,
    /// A symbolic link, whatever it points to.
    Link,
}

/// One item of a directory listing.
#[derive(Clone, Debug, PartialEq, Eq)]
pub enum Listed {
    /// An entry, with its full path.
    Entry { path: String, kind: EntryKind },
    /// An entry that could not be read, with what reading it reported.
    Unreadable { report: String },
}

/// The mathematical value of a [`Listed`].
pub enum ListedView {
    Entry { path: Seq<char>, kind: EntryKind },
    Unreadable { report: Seq<char> },
}

impl View for Listed {
    type V = ListedView;

    open spec fn view(&self) -> ListedView {
        match self {
            Listed::Entry { path, kind } => ListedView::Entry { path: path@, kind: *kind },
            Listed::Unreadable { report } => ListedView::Unreadable { report: report@ },
        }
    }
}

/// The mathematical value of a listing.
pub open spec fn listing_view(items: Seq<Listed>) -> Seq<ListedView> {
    items.map_values(|item: Listed| item@)
}

/// One unit of work on disk or over the network.
#[derive(Clone, Debug, PartialEq, Eq)]
pub enum Action {
    /// Clone the repository at `source` into `destination`.
    Clone { source: String, destination: String },
    /// Look the commit `id` up in the object store of the working copy.
    FindCommit { id: CommitId },
    /// Point HEAD directly at the commit `id`; move or create no branch.
    DetachHead { id: CommitId },
    /// Read the tree of the commit `id`.
    ReadTree { id: CommitId },
    /// Write the tree of the commit `id` onto the working directory. With
    /// `force`, local changes to tracked files are overwritten.
    Checkout { id: CommitId, force: bool },
    /// Find out what exists at `path`, following symbolic links.
    Probe { path: String },
    /// Create the missing parent directories of `of`.
    CreateParents { of: String },
    /// Rename `from` to `to`.
    Move { from: String, to: String },
    /// Remove the directory `path` and all that is in it.
    RemoveTree { path: String },
    /// Remove the single entry `path`; a link is removed, not followed.
    RemoveFile { path: String },
    /// List the immediate entries of the directory `path`.
    List { path: String },
}

/// The mathematical value of an [`Action`].
pub enum ActionView {
    Clone { source: Seq<char>, destination: Seq<char> },
    FindCommit { id: Seq<u8> },
    DetachHead { id: Seq<u8> },
    ReadTree { id: Seq<u8> },
    Checkout { id: Seq<u8>, force: bool },
    Probe { path: Seq<char> },
    CreateParents { of: Seq<char> },
    Move { from: Seq<char>, to: Seq<char> },
    RemoveTree { path: Seq<char> },
    RemoveFile { path: Seq<char> },
    List { path: Seq<char> },
}

impl View for Action {
    type V = ActionView;

    open spec fn view(&self) -> ActionView {
        match self {
            Action::Clone { source, destination } => ActionView::Clone {
                source: source@,
                destination: destination@,
            },
            Action::FindCommit { id } => ActionView::FindCommit { id: id@ },
            Action::DetachHead { id } => ActionView::DetachHead { id: id@ },
            Action::ReadTree { id } => ActionView::ReadTree { id: id@ },
            Action::Checkout { id, force } => ActionView::Checkout { id: id@, force: *force },
            Action::Probe { path } => ActionView::Probe { path: path@ },
            Action::CreateParents { of } => ActionView::CreateParents { of: of@ },
            Action::Move { from, to } => ActionView::Move { from: from@, to: to@ },
            Action::RemoveTree { path } => ActionView::RemoveTree { path: path@ },
            Action::RemoveFile { path } => ActionView::RemoveFile { path: path@ },
            Action::List { path } => ActionView::List { path: path@ },
        }
    }
}

/// The answer to an action.
///
/// `Probe` is answered by `Absent` or `Present`, `List` by `Listing` or
/// `Failed`, every other action by `Done` or `Failed`. A machine reads an
/// answer of another shape as the unfavourable one: as a failure that
/// reported nothing, or as absence.
#[derive(Clone, Debug, PartialEq, Eq)]
pub enum Reply {
    /// The action was carried out.
    Done,
    /// The action failed.
    Failed(Fault),
    /// Nothing exists at the probed path.
    Absent,
    /// Something exists at the probed path.
    Present(EntryKind),
    /// The entries of the listed directory.
    Listing(Vec<Listed>),
}

/// The mathematical value of a [`Reply`].
pub enum ReplyView {
    Done,
    Failed(FaultView),
    Absent,
    Present(EntryKind),
    Listing(Seq<ListedView>),
}

impl View for Reply {
    type V = ReplyView;

    open spec fn view(&self) -> ReplyView {
        match self {
            Reply::Done => ReplyView::Done,
            Reply::Failed(fault) => ReplyView::Failed(fault@),
            Reply::Absent => ReplyView::Absent,
            Reply::Present(kind) => ReplyView::Present(*kind),
            Reply::Listing(items) => ReplyView::Listing(listing_view(items@)),
        }
    }
}

/// The fault that a reply carries; the silent fault where it carries none.
pub open spec fn reply_fault(reply: ReplyView) -> FaultView {
    match reply {
        ReplyView::Failed(fault) => fault,
        _ => silent_fault(),
    }
}

/// A reply read as the answer to an action that is carried out or fails.
pub open spec fn effect_outcome(reply: ReplyView) -> Result<(), FaultView> {
    if reply is Done {
        Ok(())
    } else {
        Err(reply_fault(reply))
    }
}

/// The mathematical value of an outcome.
pub open spec fn outcome_view(outcome: Result<(), Fault>) -> Result<(), FaultView> {
    match outcome {
        Ok(_) => Ok(()),
        Err(fault) => Err(fault@),
    }
}

impl Reply {
    /// The fault that the reply carries; the silent fault where it carries
    /// none.
    pub fn into_fault(self) -> (fault: Fault)
        ensures
            fault@ == reply_fault(self@),
    {
        match self {
            Reply::Failed(fault) => fault,
            _ => Fault::silent(),
        }
    }

    /// Reads the reply as the answer to an action that is carried out or
    /// fails: only `Done` is success.
    pub fn into_outcome(self) -> (outcome: Result<(), Fault>)
        ensures
            outcome_view(outcome) == effect_outcome(self@),
    {
        match self {
            Reply::Done => Ok(()),
            other => Err(other.into_fault()),
        }
    }

    /// Reads the reply as the answer to a probe: only `Present` says that
    /// the path exists.
    pub fn found(&self) -> (found: bool)
        ensures
            found == (self@ is Present),
    {
        match self {
            Reply::Present(_) => true,
            _ => false,
        }
    }
}

/// How a machine goes on after a reply.
#[derive(Debug, PartialEq, Eq)]
pub enum Next<S, T> {
    /// Perform `action`, then advance `state` with the reply.
    Continue { state: S, action: Action },
    /// The operation is over, with this result.
    Finished(Result<T, Failure>),
}

/// The mathematical value of a [`Next`].
pub enum NextView<S, T> {
    Continue { state: S, action: ActionView },
    Finished(Result<T, FailureView>),
}

impl<S: View, T: View> View for Next<S, T> {
    type V = NextView<S::V, T::V>;

    open spec fn view(&self) -> NextView<S::V, T::V> {
        match self {
            Next::Continue { state, action } => NextView::Continue {
                state: state@,
                action: action@,
            },
            Next::Finished(Ok(value)) => NextView::Finished(Ok(value@)),
            Next::Finished(Err(failure)) => NextView::Finished(Err(failure@)),
        }
    }
}

/// What a machine did over a run of replies: the actions it asked for after
/// the first one, in order, and its result if it finished.
pub struct Trace<T> {
    pub actions: Seq<ActionView>,
    pub result: Option<Result<T, FailureView>>,
}

/// The trace of a run that got no reply.
pub open spec fn idle_trace<T>() -> Trace<T> {
    Trace { actions: Seq::empty(), result: None }
}

/// The trace of a run that finished at once with `result`.
pub open spec fn finished_trace<T>(result: Result<T, FailureView>) -> Trace<T> {
    Trace { actions: Seq::empty(), result: Some(result) }
}

/// The trace of a run that asked for `action` and then went on as `rest`.
pub open spec fn continued_trace<T>(action: ActionView, rest: Trace<T>) -> Trace<T> {
    Trace { actions: seq![action] + rest.actions, result: rest.result }
}

} // verus!
