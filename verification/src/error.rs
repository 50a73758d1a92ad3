//! The structured failure taxonomy, and its rendering as text.
//!
//! A failure records its kind, the step that failed and the detail that the
//! step reported. Text is produced only by [`Failure::message`].

use vstd::prelude::*;
use vstd::string::*;

verus! {

/// The kinds of failure. A kind says what went wrong, independently of the
/// text shown to a caller.
#[derive(Clone, Copy, Debug, PartialEq, Eq, Structural, Hash)]
pub enum ErrorKind {
    /// The repository source could not be reached or resolved.
    SourceUnreachable,
    /// A commit identifier is not forty hexadecimal digits.
    ReferenceInvalid,
    /// A well-formed commit identifier names nothing in the object store.
    ReferenceNotFound,
    /// Changing the repository's state failed after the reference was resolved.
    RepositoryStateFailure,
    /// A destination is already occupied.
    PathConflict,
    /// An expected subtree or directory is absent.
    PathMissing,
    /// A path that must be a directory is something else.
    NotADirectory,
    /// A generic failure reported by the operating system.
    FilesystemIO,
    /// A transient clone could not be removed after otherwise successful work.
    CleanupFailure,
}

/// The steps that can fail. Each failure is attributed to exactly one step.
#[derive(Clone, Copy, Debug, PartialEq, Eq, Structural, Hash)]
pub enum Step {
    /// Cloning the repository.
    Clone,
    /// Reading the commit identifier as hexadecimal.
    ParseCommitId,
    /// Looking the commit up in the object store.
    FindCommit,
    /// Detaching HEAD to the commit.
    DetachHead,
    /// Reading the tree of the commit.
    ReadTree,
    /// Checking the tree out onto the working directory.
    Checkout,
    /// Locating the requested subtree inside the transient clone.
    FindSubtree,
    /// Making sure that the destination is free.
    ReserveDestination,
    /// Creating the missing parent directories of the destination.
    CreateParents,
    /// Moving the subtree to the destination.
    MoveSubtree,
    /// Removing the transient clone.
    RemoveScratch,
    /// Locating the directory to empty.
    FindDirectory,
    /// Making sure that the path to empty is a directory.
    RequireDirectory,
    /// Listing the entries of the directory.
    ListDirectory,
    /// Reading one entry of the listing.
    ReadEntry,
    /// Removing an entry that is a directory.
    RemoveDirectory,
    /// Removing an entry that is not a directory.
    RemoveFile,
}

/// Code that libgit2 gives to "the object or reference was not found".
pub const GIT_NOT_FOUND: i32 = -3;

/// Code that libgit2 gives to "the target already exists".
pub const GIT_EXISTS: i32 = -4;

/// Class that libgit2 gives to errors of the operating system.
pub const GIT_CLASS_OS: i32 = 2;

/// Class that libgit2 gives to errors of the local filesystem.
pub const GIT_CLASS_FILESYSTEM: i32 = 30;

/// What an action reported when it failed: its text and, where git reported
/// it, libgit2's raw error code and error class (both 0 elsewhere).
#[derive(Clone, Debug, PartialEq, Eq)]
pub struct Fault {
    pub code: i32,
    pub class: i32,
    pub text: String,
}

/// The mathematical value of a [`Fault`].
pub struct FaultView {
    pub code: int,
    pub class: int,
    pub text: Seq<char>,
}

impl View for Fault {
    type V = FaultView;

    open spec fn view(&self) -> FaultView {
        FaultView { code: self.code as int, class: self.class as int, text: self.text@ }
    }
}

/// The fault that stands for "nothing was reported".
pub open spec fn silent_fault() -> FaultView {
    FaultView { code: 0, class: 0, text: Seq::empty() }
}

impl Fault {
    /// A fault that carries text only.
    pub fn plain(text: String) -> (fault: Fault)
        ensures
            fault@ == (FaultView { code: 0, class: 0, text: text@ }),
    {
        Fault { code: 0, class: 0, text }
    }

    /// A fault reported by git, with libgit2's raw code and class.
    pub fn git(code: i32, class: i32, text: String) -> (fault: Fault)
        ensures
            fault@ == (FaultView { code: code as int, class: class as int, text: text@ }),
    {
        Fault { code, class, text }
    }

    /// The fault that stands for "nothing was reported".
    pub fn silent() -> (fault: Fault)
        ensures
            fault@ == silent_fault(),
    {
        Fault { code: 0, class: 0, text: String::new() }
    }
}

/// The kind of a failed clone, from what libgit2 reported:
/// an occupied destination is a conflict; an operating-system or filesystem
/// error is local I/O, unless it says that something was not found, which is
/// the source failing to resolve; everything else is an unreachable source.
pub open spec fn clone_failure_kind(code: int, class: int) -> ErrorKind {
    if code == GIT_EXISTS {
        ErrorKind::PathConflict
    } else if (class == GIT_CLASS_OS || class == GIT_CLASS_FILESYSTEM) && code != GIT_NOT_FOUND {
        ErrorKind::FilesystemIO
    } else {
        ErrorKind::SourceUnreachable
    }
}

/// The kind of a failure of `step`, given the code and class of the fault.
/// Only a failed clone looks at them.
pub open spec fn kind_at(step: Step, code: int, class: int) -> ErrorKind {
    match step {
        Step::Clone => clone_failure_kind(code, class),
        Step::ParseCommitId => ErrorKind::ReferenceInvalid,
        Step::FindCommit => ErrorKind::ReferenceNotFound,
        Step::DetachHead => ErrorKind::RepositoryStateFailure,
        Step::ReadTree => ErrorKind::RepositoryStateFailure,
        Step::Checkout => ErrorKind::RepositoryStateFailure,
        Step::FindSubtree => ErrorKind::PathMissing,
        Step::ReserveDestination => ErrorKind::PathConflict,
        Step::CreateParents => ErrorKind::FilesystemIO,
        Step::MoveSubtree => ErrorKind::FilesystemIO,
        Step::RemoveScratch => ErrorKind::CleanupFailure,
        Step::FindDirectory => ErrorKind::PathMissing,
        Step::RequireDirectory => ErrorKind::NotADirectory,
        Step::ListDirectory => ErrorKind::FilesystemIO,
        Step::ReadEntry => ErrorKind::FilesystemIO,
        Step::RemoveDirectory => ErrorKind::FilesystemIO,
        Step::RemoveFile => ErrorKind::FilesystemIO,
    }
}

/// Classifies a failed clone.
pub fn classify_clone_fault(code: i32, class: i32) -> (kind: ErrorKind)
    ensures
        kind == clone_failure_kind(code as int, class as int),
{
    if code == GIT_EXISTS {
        ErrorKind::PathConflict
    } else if (class == GIT_CLASS_OS || class == GIT_CLASS_FILESYSTEM) && code != GIT_NOT_FOUND {
        ErrorKind::FilesystemIO
    } else {
        ErrorKind::SourceUnreachable
    }
}

/// Gives the kind of a failure of `step`.
pub fn classify(step: Step, code: i32, class: i32) -> (kind: ErrorKind)
    ensures
        kind == kind_at(step, code as int, class as int),
{
    match step {
        Step::Clone => classify_clone_fault(code, class),
        Step::ParseCommitId => ErrorKind::ReferenceInvalid,
        Step::FindCommit => ErrorKind::ReferenceNotFound,
        Step::DetachHead => ErrorKind::RepositoryStateFailure,
        Step::ReadTree => ErrorKind::RepositoryStateFailure,
        Step::Checkout => ErrorKind::RepositoryStateFailure,
        Step::FindSubtree => ErrorKind::PathMissing,
        Step::ReserveDestination => ErrorKind::PathConflict,
        Step::CreateParents => ErrorKind::FilesystemIO,
        Step::MoveSubtree => ErrorKind::FilesystemIO,
        Step::RemoveScratch => ErrorKind::CleanupFailure,
        Step::FindDirectory => ErrorKind::PathMissing,
        Step::RequireDirectory => ErrorKind::NotADirectory,
        Step::ListDirectory => ErrorKind::FilesystemIO,
        Step::ReadEntry => ErrorKind::FilesystemIO,
        Step::RemoveDirectory => ErrorKind::FilesystemIO,
        Step::RemoveFile => ErrorKind::FilesystemIO,
    }
}

/// A failed operation: what kind of failure, at which step, with which
/// detail. `residue` holds the report of a transient clone that could not be
/// removed after the step had already failed.
#[derive(Clone, Debug, PartialEq, Eq)]
pub struct Failure {
    pub kind: ErrorKind,
    pub step: Step,
    pub detail: String,
    pub residue: Option<String>,
}

/// The mathematical value of a [`Failure`].
pub struct FailureView {
    pub kind: ErrorKind,
    pub step: Step,
    pub detail: Seq<char>,
    pub residue: Option<Seq<char>>,
}

impl View for Failure {
    type V = FailureView;

    open spec fn view(&self) -> FailureView {
        FailureView {
            kind: self.kind,
            step: self.step,
            detail: self.detail@,
            residue: match self.residue {
                Some(text) => Some(text@),
                None => None,
            },
        }
    }
}

/// The failure of `step` that reported `fault`.
pub open spec fn failure_at(step: Step, fault: FaultView) -> FailureView {
    FailureView {
        kind: kind_at(step, fault.code, fault.class),
        step: step,
        detail: fault.text,
        residue: None,
    }
}

/// The failure of `step` with `detail` as its only report.
pub open spec fn failure_with(step: Step, detail: Seq<char>) -> FailureView {
    failure_at(step, FaultView { code: 0, class: 0, text: detail })
}

/// The text of a failure of `step` with `detail`.
pub open spec fn step_message(step: Step, detail: Seq<char>) -> Seq<char> {
    match step {
        Step::Clone => "Failed to clone repo: "@ + detail,
        Step::ParseCommitId => "Invalid commit SHA: "@ + detail,
        Step::FindCommit => "Commit not found: "@ + detail,
        Step::DetachHead => "Failed to detach HEAD: "@ + detail,
        Step::ReadTree => "Failed to get tree: "@ + detail,
        Step::Checkout => "Failed to checkout commit tree: "@ + detail,
        Step::FindSubtree => "Folder '"@ + detail + "' not found in repository."@,
        Step::ReserveDestination => "Destination path already exists."@,
        Step::CreateParents => "Failed to create parent directories: "@ + detail,
        Step::MoveSubtree => "Failed to move folder: "@ + detail,
        Step::RemoveScratch => "Failed to delete temp repo: "@ + detail,
        Step::FindDirectory => "Directory does not exist."@,
        Step::RequireDirectory => "Provided path is not a directory."@,
        Step::ListDirectory => "Failed to read directory: "@ + detail,
        Step::ReadEntry => "Failed to read directory entry: "@ + detail,
        Step::RemoveDirectory => "Failed to remove dir: "@ + detail,
        Step::RemoveFile => "Failed to remove file: "@ + detail,
    }
}

/// The text of a failure: that of its step, followed in brackets by the
/// report of the transient clone that could not be removed, if there is one.
pub open spec fn failure_message(failure: FailureView) -> Seq<char> {
    match failure.residue {
        None => step_message(failure.step, failure.detail),
        Some(report) => step_message(failure.step, failure.detail) + " ("@ + step_message(
            Step::RemoveScratch,
            report,
        ) + ")"@,
    }
}

/// Whether the kind of a failure is one that its step can have: the one
/// kind of the step or, for a failed clone, one of the three that a clone
/// can fail with.
pub open spec fn attributed(failure: FailureView) -> bool {
    if failure.step == Step::Clone {
        ||| failure.kind == ErrorKind::SourceUnreachable
        ||| failure.kind == ErrorKind::PathConflict
        ||| failure.kind == ErrorKind::FilesystemIO
    } else {
        failure.kind == kind_at(failure.step, 0, 0)
    }
}

/// Whether the failure says that a transient clone was left behind.
pub open spec fn reports_cleanup_failure(failure: FailureView) -> bool {
    failure.kind == ErrorKind::CleanupFailure || failure.residue is Some
}

/// Joins two pieces of text.
fn prefixed(lead: &str, detail: &str) -> (text: String)
    ensures
        text@ == lead@ + detail@,
{
    let mut text = String::from_str(lead);
    text.append(detail);
    text
}

/// Joins three pieces of text.
fn framed(lead: &str, middle: &str, tail: &str) -> (text: String)
    ensures
        text@ == lead@ + middle@ + tail@,
{
    let mut text = String::from_str(lead);
    text.append(middle);
    text.append(tail);
    text
}

/// Renders the text of a failure of `step` with `detail`.
pub fn render_step(step: Step, detail: &str) -> (text: String)
    ensures
        text@ == step_message(step, detail@),
{
    match step {
        Step::Clone => prefixed("Failed to clone repo: ", detail),
        Step::ParseCommitId => prefixed("Invalid commit SHA: ", detail),
        Step::FindCommit => prefixed("Commit not found: ", detail),
        Step::DetachHead => prefixed("Failed to detach HEAD: ", detail),
        Step::ReadTree => prefixed("Failed to get tree: ", detail),
        Step::Checkout => prefixed("Failed to checkout commit tree: ", detail),
        Step::FindSubtree => framed("Folder '", detail, "' not found in repository."),
        Step::ReserveDestination => String::from_str("Destination path already exists."),
        Step::CreateParents => prefixed("Failed to create parent directories: ", detail),
        Step::MoveSubtree => prefixed("Failed to move folder: ", detail),
        Step::RemoveScratch => prefixed("Failed to delete temp repo: ", detail),
        Step::FindDirectory => String::from_str("Directory does not exist."),
        Step::RequireDirectory => String::from_str("Provided path is not a directory."),
        Step::ListDirectory => prefixed("Failed to read directory: ", detail),
        Step::ReadEntry => prefixed("Failed to read directory entry: ", detail),
        Step::RemoveDirectory => prefixed("Failed to remove dir: ", detail),
        Step::RemoveFile => prefixed("Failed to remove file: ", detail),
    }
}

impl Failure {
    /// The failure of `step` that reported `fault`.
    pub fn at(step: Step, fault: Fault) -> (failure: Failure)
        ensures
            failure@ == failure_at(step, fault@),
    {
        Failure {
            kind: classify(step, fault.code, fault.class),
            step,
            detail: fault.text,
            residue: None,
        }
    }

    /// The failure of `step` with `detail` as its only report.
    pub fn with_detail(step: Step, detail: String) -> (failure: Failure)
        ensures
            failure@ == failure_with(step, detail@),
    {
        Failure { kind: classify(step, 0, 0), step, detail, residue: None }
    }

    /// The text shown to a caller.
    pub fn message(&self) -> (text: String)
        ensures
            text@ == failure_message(self@),
    {
        let mut text = render_step(self.step, self.detail.as_str());
        match &self.residue {
            None => text,
            Some(report) => {
                let cleanup = render_step(Step::RemoveScratch, report.as_str());
                text.append(" (");
                text.append(cleanup.as_str());
                text.append(")");
                text
            },
        }
    }

    /// Whether the failure says that a transient clone was left behind.
    pub fn left_residue(&self) -> (left: bool)
        ensures
            left == reports_cleanup_failure(self@),
    {
        match self.kind {
            ErrorKind::CleanupFailure => true,
            _ => self.residue.is_some(),
        }
    }
}

} // verus!
