use repo_fetch::error::{
    classify, classify_clone_fault, render_step, ErrorKind, Failure, Fault, Step, GIT_CLASS_FILESYSTEM,
    GIT_CLASS_OS, GIT_EXISTS, GIT_NOT_FOUND,
};
use repo_fetch::secret::read_secret;

#[test]
fn libgit2_constants_match_git2() {
    assert_eq!(GIT_NOT_FOUND, git2::Error::new(git2::ErrorCode::NotFound, git2::ErrorClass::None, "").raw_code() as i32);
    assert_eq!(GIT_EXISTS, git2::Error::new(git2::ErrorCode::Exists, git2::ErrorClass::None, "").raw_code() as i32);
    assert_eq!(GIT_CLASS_OS, git2::Error::new(git2::ErrorCode::GenericError, git2::ErrorClass::Os, "").raw_class() as i32);
    assert_eq!(
        GIT_CLASS_FILESYSTEM,
        git2::Error::new(git2::ErrorCode::GenericError, git2::ErrorClass::Filesystem, "").raw_class() as i32
    );
}

#[test]
fn occupied_destination_is_a_conflict() {
    assert_eq!(classify_clone_fault(-4, 3), ErrorKind::PathConflict);
    assert_eq!(classify_clone_fault(-4, 2), ErrorKind::PathConflict);
    assert_eq!(classify_clone_fault(-4, 0), ErrorKind::PathConflict);
}

#[test]
fn local_errors_are_filesystem_io() {
    assert_eq!(classify_clone_fault(-1, 2), ErrorKind::FilesystemIO);
    assert_eq!(classify_clone_fault(-1, 30), ErrorKind::FilesystemIO);
    assert_eq!(classify_clone_fault(0, 2), ErrorKind::FilesystemIO);
}

#[test]
fn everything_else_is_an_unreachable_source() {
    assert_eq!(classify_clone_fault(-1, 12), ErrorKind::SourceUnreachable);
    assert_eq!(classify_clone_fault(-16, 34), ErrorKind::SourceUnreachable);
    assert_eq!(classify_clone_fault(-17, 16), ErrorKind::SourceUnreachable);
    assert_eq!(classify_clone_fault(-1, 23), ErrorKind::SourceUnreachable);
    assert_eq!(classify_clone_fault(0, 0), ErrorKind::SourceUnreachable);
    assert_eq!(classify_clone_fault(-3, 2), ErrorKind::SourceUnreachable);
    assert_eq!(classify_clone_fault(-3, 30), ErrorKind::SourceUnreachable);
}

#[test]
fn every_step_has_its_kind() {
    let expected = [
        (Step::ParseCommitId, ErrorKind::ReferenceInvalid),
        (Step::FindCommit, ErrorKind::ReferenceNotFound),
        (Step::DetachHead, ErrorKind::RepositoryStateFailure),
        (Step::ReadTree, ErrorKind::RepositoryStateFailure),
        (Step::Checkout, ErrorKind::RepositoryStateFailure),
        (Step::FindSubtree, ErrorKind::PathMissing),
        (Step::ReserveDestination, ErrorKind::PathConflict),
        (Step::CreateParents, ErrorKind::FilesystemIO),
        (Step::MoveSubtree, ErrorKind::FilesystemIO),
        (Step::RemoveScratch, ErrorKind::CleanupFailure),
        (Step::FindDirectory, ErrorKind::PathMissing),
        (Step::RequireDirectory, ErrorKind::NotADirectory),
        (Step::ListDirectory, ErrorKind::FilesystemIO),
        (Step::ReadEntry, ErrorKind::FilesystemIO),
        (Step::RemoveDirectory, ErrorKind::FilesystemIO),
        (Step::RemoveFile, ErrorKind::FilesystemIO),
    ];
    for (step, kind) in expected {
        assert_eq!(classify(step, -4, 2), kind);
        assert_eq!(classify(step, 0, 0), kind);
    }
    assert_eq!(classify(Step::Clone, -4, 2), ErrorKind::PathConflict);
    assert_eq!(classify(Step::Clone, 0, 0), ErrorKind::SourceUnreachable);
}

#[test]
fn every_step_has_its_text() {
    let expected = [
        (Step::Clone, "Failed to clone repo: X"),
        (Step::ParseCommitId, "Invalid commit SHA: X"),
        (Step::FindCommit, "Commit not found: X"),
        (Step::DetachHead, "Failed to detach HEAD: X"),
        (Step::ReadTree, "Failed to get tree: X"),
        (Step::Checkout, "Failed to checkout commit tree: X"),
        (Step::FindSubtree, "Folder 'X' not found in repository."),
        (Step::ReserveDestination, "Destination path already exists."),
        (Step::CreateParents, "Failed to create parent directories: X"),
        (Step::MoveSubtree, "Failed to move folder: X"),
        (Step::RemoveScratch, "Failed to delete temp repo: X"),
        (Step::FindDirectory, "Directory does not exist."),
        (Step::RequireDirectory, "Provided path is not a directory."),
        (Step::ListDirectory, "Failed to read directory: X"),
        (Step::ReadEntry, "Failed to read directory entry: X"),
        (Step::RemoveDirectory, "Failed to remove dir: X"),
        (Step::RemoveFile, "Failed to remove file: X"),
    ];
    for (step, text) in expected {
        assert_eq!(render_step(step, "X"), text);
    }
}

#[test]
fn failure_at_keeps_the_report() {
    let failure = Failure::at(Step::Clone, Fault::git(-1, 12, String::from("no route")));
    assert_eq!(
        failure,
        Failure {
            kind: ErrorKind::SourceUnreachable,
            step: Step::Clone,
            detail: String::from("no route"),
            residue: None,
        }
    );
    assert_eq!(failure.message(), "Failed to clone repo: no route");
    assert!(!failure.left_residue());
}

#[test]
fn failure_with_detail_has_the_kind_of_its_step() {
    let failure = Failure::with_detail(Step::FindSubtree, String::from("docs"));
    assert_eq!(failure.kind, ErrorKind::PathMissing);
    assert_eq!(failure.message(), "Folder 'docs' not found in repository.");
}

#[test]
fn residue_is_shown_in_brackets() {
    let failure = Failure {
        kind: ErrorKind::PathConflict,
        step: Step::ReserveDestination,
        detail: String::from("/srv/out"),
        residue: Some(String::from("busy")),
    };
    assert_eq!(
        failure.message(),
        "Destination path already exists. (Failed to delete temp repo: busy)"
    );
    assert!(failure.left_residue());
}

#[test]
fn cleanup_failure_counts_as_residue() {
    let failure = Failure::at(Step::RemoveScratch, Fault::plain(String::from("busy")));
    assert_eq!(failure.kind, ErrorKind::CleanupFailure);
    assert!(failure.left_residue());
    assert_eq!(failure.message(), "Failed to delete temp repo: busy");
}

#[test]
fn faults_hold_what_they_are_given() {
    assert_eq!(Fault::plain(String::from("t")), Fault { code: 0, class: 0, text: String::from("t") });
    assert_eq!(Fault::git(-3, 9, String::from("t")), Fault { code: -3, class: 9, text: String::from("t") });
    assert_eq!(Fault::silent(), Fault { code: 0, class: 0, text: String::new() });
}

#[test]
fn secret_found_is_handed_out() {
    assert_eq!(read_secret(Some(String::from("s3cr3t"))), "s3cr3t");
    assert_eq!(read_secret(Some(String::new())), "");
}

#[test]
fn secret_missing_falls_back() {
    assert_eq!(read_secret(None), "default");
}
