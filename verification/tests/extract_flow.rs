use repo_fetch::error::{ErrorKind, Failure, Fault, Step};
use repo_fetch::extract::{child_of, extracted_report, ExtractPlan, ExtractStage, Extraction};
use repo_fetch::protocol::{Action, EntryKind, Next, Reply};

const SOURCE: &str = "https://example.test/repo.git";

fn plan() -> ExtractPlan {
    ExtractPlan::new(String::from(SOURCE), String::from("docs"), String::from("/srv/site/docs"), "/tmp")
}

fn run_extract(plan: ExtractPlan, replies: Vec<Reply>) -> (Vec<Action>, Option<Result<String, Failure>>) {
    let (mut run, first) = Extraction::begin(plan);
    let mut actions = vec![first];
    for reply in replies {
        match run.advance(reply) {
            Next::Continue { state, action } => {
                run = state;
                actions.push(action);
            }
            Next::Finished(result) => return (actions, Some(result)),
        }
    }
    (actions, None)
}

fn probe(path: &str) -> Action {
    Action::Probe { path: String::from(path) }
}

fn cleanup() -> Action {
    Action::RemoveTree { path: String::from("/tmp/docs") }
}

fn present() -> Reply {
    Reply::Present(EntryKind::Directory)
}

fn failed(text: &str) -> Reply {
    Reply::Failed(Fault::plain(String::from(text)))
}

#[test]
fn plan_derives_the_transient_clone_from_the_subtree() {
    let plan = plan();
    assert_eq!(plan.source, SOURCE);
    assert_eq!(plan.subtree, "docs");
    assert_eq!(plan.destination, "/srv/site/docs");
    assert_eq!(plan.scratch, "/tmp/docs");
    assert_eq!(plan.located, "/tmp/docs/docs");
}

#[test]
fn plan_keeps_nested_subtrees_inside_the_scratch_area() {
    let plan = ExtractPlan::new(String::from("s"), String::from("a/b"), String::from("d"), "/var/tmp");
    assert_eq!(plan.scratch, "/var/tmp/a/b");
    assert_eq!(plan.located, "/var/tmp/a/b/a/b");
    let rooted = ExtractPlan::new(String::from("s"), String::from("/etc"), String::from("d"), "/var/tmp");
    assert_eq!(rooted.scratch, "/var/tmp//etc");
}

#[test]
fn child_path_joins_with_a_slash() {
    assert_eq!(child_of("/tmp", "x"), "/tmp/x");
    assert_eq!(child_of("", "x"), "/x");
    assert_eq!(child_of("a", ""), "a/");
}

#[test]
fn extraction_starts_with_the_clone_into_scratch() {
    let (run, action) = Extraction::begin(plan());
    assert_eq!(run, Extraction { plan: plan(), stage: ExtractStage::Cloning });
    assert_eq!(action, Action::Clone { source: String::from(SOURCE), destination: String::from("/tmp/docs") });
}

#[test]
fn extraction_runs_in_order() {
    let replies = vec![Reply::Done, present(), Reply::Absent, Reply::Done, Reply::Done, Reply::Done];
    let (actions, result) = run_extract(plan(), replies);
    assert_eq!(
        actions,
        vec![
            Action::Clone { source: String::from(SOURCE), destination: String::from("/tmp/docs") },
            probe("/tmp/docs/docs"),
            probe("/srv/site/docs"),
            Action::CreateParents { of: String::from("/srv/site/docs") },
            Action::Move { from: String::from("/tmp/docs/docs"), to: String::from("/srv/site/docs") },
            cleanup(),
        ]
    );
    assert_eq!(result.unwrap().unwrap(), "Folder 'docs' extracted to '/srv/site/docs'");
}

#[test]
fn missing_subtree_is_path_missing_and_the_clone_is_removed() {
    let (actions, result) = run_extract(plan(), vec![Reply::Done, Reply::Absent, Reply::Done]);
    assert_eq!(actions.len(), 3);
    assert_eq!(actions[1], probe("/tmp/docs/docs"));
    assert_eq!(actions[2], cleanup());
    let failure = result.unwrap().unwrap_err();
    assert_eq!(failure.kind, ErrorKind::PathMissing);
    assert_eq!(failure.step, Step::FindSubtree);
    assert_eq!(failure.residue, None);
    assert!(!failure.left_residue());
    assert_eq!(failure.message(), "Folder 'docs' not found in repository.");
}

#[test]
fn second_extraction_to_the_same_destination_is_a_conflict() {
    let first = vec![Reply::Done, present(), Reply::Absent, Reply::Done, Reply::Done, Reply::Done];
    let (_, result) = run_extract(plan(), first);
    assert!(result.unwrap().is_ok());
    let second = vec![Reply::Done, present(), present(), Reply::Done];
    let (actions, result) = run_extract(plan(), second);
    assert_eq!(actions.len(), 4);
    assert_eq!(actions[2], probe("/srv/site/docs"));
    assert_eq!(actions[3], cleanup());
    assert!(!actions.iter().any(|action| matches!(action, Action::Move { .. } | Action::CreateParents { .. })));
    let failure = result.unwrap().unwrap_err();
    assert_eq!(failure.kind, ErrorKind::PathConflict);
    assert_eq!(failure.step, Step::ReserveDestination);
    assert_eq!(failure.message(), "Destination path already exists.");
}

#[test]
fn occupied_destination_of_any_kind_is_a_conflict() {
    for kind in [EntryKind::File, EntryKind::Directory, EntryKind::Link] {
        let replies = vec![Reply::Done, present(), Reply::Present(kind), Reply::Done];
        let (_, result) = run_extract(plan(), replies);
        assert_eq!(result.unwrap().unwrap_err().kind, ErrorKind::PathConflict);
    }
}

#[test]
fn failed_clone_ends_the_run_without_cleanup() {
    let fault = Fault::git(-1, 12, String::from("unreachable"));
    let (actions, result) = run_extract(plan(), vec![Reply::Failed(fault)]);
    assert_eq!(actions.len(), 1);
    let failure = result.unwrap().unwrap_err();
    assert_eq!(failure.kind, ErrorKind::SourceUnreachable);
    assert_eq!(failure.step, Step::Clone);
    assert_eq!(failure.message(), "Failed to clone repo: unreachable");
}

#[test]
fn failed_parents_are_filesystem_io_and_the_clone_is_removed() {
    let replies = vec![Reply::Done, present(), Reply::Absent, failed("denied"), Reply::Done];
    let (actions, result) = run_extract(plan(), replies);
    assert_eq!(actions.len(), 5);
    assert_eq!(actions[4], cleanup());
    let failure = result.unwrap().unwrap_err();
    assert_eq!(failure.kind, ErrorKind::FilesystemIO);
    assert_eq!(failure.step, Step::CreateParents);
    assert_eq!(failure.message(), "Failed to create parent directories: denied");
}

#[test]
fn failed_move_is_filesystem_io_and_the_clone_is_removed() {
    let replies = vec![Reply::Done, present(), Reply::Absent, Reply::Done, failed("cross-device"), Reply::Done];
    let (actions, result) = run_extract(plan(), replies);
    assert_eq!(actions.len(), 6);
    assert_eq!(actions[5], cleanup());
    let failure = result.unwrap().unwrap_err();
    assert_eq!(failure.kind, ErrorKind::FilesystemIO);
    assert_eq!(failure.step, Step::MoveSubtree);
    assert_eq!(failure.message(), "Failed to move folder: cross-device");
}

#[test]
fn failed_cleanup_after_the_move_is_a_cleanup_failure() {
    let replies = vec![Reply::Done, present(), Reply::Absent, Reply::Done, Reply::Done, failed("busy")];
    let (actions, result) = run_extract(plan(), replies);
    assert!(matches!(actions[4], Action::Move { .. }));
    let failure = result.unwrap().unwrap_err();
    assert_eq!(failure.kind, ErrorKind::CleanupFailure);
    assert_eq!(failure.step, Step::RemoveScratch);
    assert!(failure.left_residue());
    assert_eq!(failure.message(), "Failed to delete temp repo: busy");
}

#[test]
fn failed_cleanup_after_a_failure_is_reported_beside_it() {
    let replies = vec![Reply::Done, Reply::Absent, failed("busy")];
    let (_, result) = run_extract(plan(), replies);
    let failure = result.unwrap().unwrap_err();
    assert_eq!(failure.kind, ErrorKind::PathMissing);
    assert_eq!(failure.step, Step::FindSubtree);
    assert_eq!(failure.residue, Some(String::from("busy")));
    assert!(failure.left_residue());
    assert_eq!(
        failure.message(),
        "Folder 'docs' not found in repository. (Failed to delete temp repo: busy)"
    );
}

#[test]
fn only_the_transient_clone_is_ever_removed() {
    let scripts = vec![
        vec![Reply::Done, Reply::Absent, Reply::Done],
        vec![Reply::Done, present(), present(), Reply::Done],
        vec![Reply::Done, present(), Reply::Absent, failed("x"), Reply::Done],
        vec![Reply::Done, present(), Reply::Absent, Reply::Done, failed("x"), failed("y")],
        vec![Reply::Done, present(), Reply::Absent, Reply::Done, Reply::Done, Reply::Done],
    ];
    for replies in scripts {
        let (actions, result) = run_extract(plan(), replies);
        assert!(result.is_some());
        assert_eq!(actions.last(), Some(&cleanup()));
        for action in &actions {
            match action {
                Action::RemoveTree { path } => assert_eq!(path, "/tmp/docs"),
                Action::RemoveFile { .. } => panic!("an extraction removes no single entry"),
                _ => {}
            }
        }
    }
}

#[test]
fn probe_answered_by_anything_but_present_reads_as_absent() {
    let replies = vec![Reply::Done, Reply::Done, Reply::Done];
    let (actions, result) = run_extract(plan(), replies);
    assert_eq!(actions.len(), 3);
    assert_eq!(result.unwrap().unwrap_err().kind, ErrorKind::PathMissing);
}

#[test]
fn extraction_report_is_spelled_out() {
    assert_eq!(extracted_report("a", "b"), "Folder 'a' extracted to 'b'");
}
