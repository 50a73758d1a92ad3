use repo_fetch::error::{ErrorKind, Failure, Fault, Step};
use repo_fetch::protocol::{Action, EntryKind, Listed, Next, Reply};
use repo_fetch::prune::{remove_entry, resume, Pruning};

fn entry(path: &str, kind: EntryKind) -> Listed {
    Listed::Entry { path: String::from(path), kind }
}

fn unreadable(report: &str) -> Listed {
    Listed::Unreadable { report: String::from(report) }
}

fn listing() -> Vec<Listed> {
    vec![
        entry("/data/a", EntryKind::Directory),
        entry("/data/b.txt", EntryKind::File),
        entry("/data/c", EntryKind::Link),
        entry("/data/d/e", EntryKind::Directory),
    ]
}

fn run_prune(directory: &str, replies: Vec<Reply>) -> (Vec<Action>, Option<Result<(), Failure>>) {
    let (mut run, first) = Pruning::begin(String::from(directory));
    let mut actions = vec![first];
    for reply in replies {
        match run.advance(reply) {
            Next::Continue { state, action } => {
                run = state;
                actions.push(action);
            }
            Next::Finished(result) => return (actions, Some(result)),
        }
    }
    (actions, None)
}

fn tree(path: &str) -> Action {
    Action::RemoveTree { path: String::from(path) }
}

fn file(path: &str) -> Action {
    Action::RemoveFile { path: String::from(path) }
}

#[test]
fn pruning_starts_with_the_probe() {
    let (run, action) = Pruning::begin(String::from("/data"));
    assert_eq!(run, Pruning::Probing { directory: String::from("/data") });
    assert_eq!(action, Action::Probe { path: String::from("/data") });
}

#[test]
fn missing_directory_is_path_missing() {
    let (actions, result) = run_prune("/nowhere", vec![Reply::Absent]);
    assert_eq!(actions.len(), 1);
    let failure = result.unwrap().unwrap_err();
    assert_eq!(failure.kind, ErrorKind::PathMissing);
    assert_eq!(failure.step, Step::FindDirectory);
    assert_eq!(failure.detail, "/nowhere");
    assert_eq!(failure.message(), "Directory does not exist.");
}

#[test]
fn regular_file_is_not_a_directory() {
    let (actions, result) = run_prune("/etc/hosts", vec![Reply::Present(EntryKind::File)]);
    assert_eq!(actions.len(), 1);
    let failure = result.unwrap().unwrap_err();
    assert_eq!(failure.kind, ErrorKind::NotADirectory);
    assert_eq!(failure.step, Step::RequireDirectory);
    assert_eq!(failure.message(), "Provided path is not a directory.");
}

#[test]
fn unfollowed_link_is_not_a_directory() {
    let (_, result) = run_prune("/l", vec![Reply::Present(EntryKind::Link)]);
    assert_eq!(result.unwrap().unwrap_err().kind, ErrorKind::NotADirectory);
}

#[test]
fn nested_entries_are_all_removed_and_the_directory_is_kept() {
    let replies = vec![
        Reply::Present(EntryKind::Directory),
        Reply::Listing(listing()),
        Reply::Done,
        Reply::Done,
        Reply::Done,
        Reply::Done,
    ];
    let (actions, result) = run_prune("/data", replies);
    assert_eq!(
        actions,
        vec![
            Action::Probe { path: String::from("/data") },
            Action::List { path: String::from("/data") },
            tree("/data/a"),
            file("/data/b.txt"),
            file("/data/c"),
            tree("/data/d/e"),
        ]
    );
    assert_eq!(result, Some(Ok(())));
    assert!(!actions.contains(&tree("/data")));
    assert!(!actions.contains(&file("/data")));
}

#[test]
fn pruning_an_empty_directory_does_nothing() {
    let replies = vec![Reply::Present(EntryKind::Directory), Reply::Listing(Vec::new())];
    let (actions, result) = run_prune("/data", replies);
    assert_eq!(actions.len(), 2);
    assert_eq!(result, Some(Ok(())));
}

#[test]
fn pruning_is_not_finished_before_the_last_removal() {
    let replies = vec![Reply::Present(EntryKind::Directory), Reply::Listing(listing()), Reply::Done, Reply::Done];
    let (actions, result) = run_prune("/data", replies);
    assert_eq!(actions.len(), 5);
    assert_eq!(result, None);
}

#[test]
fn unreadable_entry_fails_the_run() {
    let replies = vec![Reply::Present(EntryKind::Directory), Reply::Listing(vec![unreadable("EIO")])];
    let (actions, result) = run_prune("/data", replies);
    assert_eq!(actions.len(), 2);
    let failure = result.unwrap().unwrap_err();
    assert_eq!(failure.kind, ErrorKind::FilesystemIO);
    assert_eq!(failure.step, Step::ReadEntry);
    assert_eq!(failure.detail, "EIO");
    assert_eq!(failure.message(), "Failed to read directory entry: EIO");
}

#[test]
fn unreadable_entry_fails_after_the_removals_before_it() {
    let items = vec![
        entry("/data/a", EntryKind::Directory),
        entry("/data/b.txt", EntryKind::File),
        unreadable("stale handle"),
        entry("/data/c", EntryKind::Link),
        unreadable("never reached"),
    ];
    let replies = vec![
        Reply::Present(EntryKind::Directory),
        Reply::Listing(items),
        Reply::Done,
        Reply::Done,
        Reply::Done,
    ];
    let (actions, result) = run_prune("/data", replies);
    assert_eq!(
        actions,
        vec![
            Action::Probe { path: String::from("/data") },
            Action::List { path: String::from("/data") },
            tree("/data/a"),
            file("/data/b.txt"),
        ]
    );
    let failure = result.unwrap().unwrap_err();
    assert_eq!(failure.kind, ErrorKind::FilesystemIO);
    assert_eq!(failure.step, Step::ReadEntry);
    assert_eq!(failure.message(), "Failed to read directory entry: stale handle");
}

#[test]
fn unreadable_entry_is_not_reached_after_a_failed_removal() {
    let items = vec![entry("/data/a", EntryKind::File), unreadable("EIO")];
    let replies = vec![
        Reply::Present(EntryKind::Directory),
        Reply::Listing(items),
        Reply::Failed(Fault::plain(String::from("denied"))),
    ];
    let (_, result) = run_prune("/data", replies);
    assert_eq!(result.unwrap().unwrap_err().step, Step::RemoveFile);
}

#[test]
fn failed_listing_is_filesystem_io() {
    let replies = vec![Reply::Present(EntryKind::Directory), Reply::Failed(Fault::plain(String::from("EACCES")))];
    let (actions, result) = run_prune("/data", replies);
    assert_eq!(actions.len(), 2);
    let failure = result.unwrap().unwrap_err();
    assert_eq!(failure.kind, ErrorKind::FilesystemIO);
    assert_eq!(failure.step, Step::ListDirectory);
    assert_eq!(failure.message(), "Failed to read directory: EACCES");
}

#[test]
fn failed_removal_of_a_directory_stops_the_run() {
    let replies = vec![
        Reply::Present(EntryKind::Directory),
        Reply::Listing(listing()),
        Reply::Failed(Fault::plain(String::from("busy"))),
        Reply::Done,
    ];
    let (actions, result) = run_prune("/data", replies);
    assert_eq!(actions.len(), 3);
    assert_eq!(actions[2], tree("/data/a"));
    let failure = result.unwrap().unwrap_err();
    assert_eq!(failure.kind, ErrorKind::FilesystemIO);
    assert_eq!(failure.step, Step::RemoveDirectory);
    assert_eq!(failure.message(), "Failed to remove dir: busy");
}

#[test]
fn failed_removal_of_a_file_keeps_what_was_removed() {
    let replies = vec![
        Reply::Present(EntryKind::Directory),
        Reply::Listing(listing()),
        Reply::Done,
        Reply::Failed(Fault::plain(String::from("denied"))),
    ];
    let (actions, result) = run_prune("/data", replies);
    assert_eq!(actions.len(), 4);
    assert_eq!(actions[3], file("/data/b.txt"));
    let failure = result.unwrap().unwrap_err();
    assert_eq!(failure.kind, ErrorKind::FilesystemIO);
    assert_eq!(failure.step, Step::RemoveFile);
    assert_eq!(failure.message(), "Failed to remove file: denied");
}

#[test]
fn failed_removal_of_a_link_is_that_of_a_file() {
    let replies = vec![
        Reply::Present(EntryKind::Directory),
        Reply::Listing(vec![entry("/data/l", EntryKind::Link)]),
        Reply::Failed(Fault::plain(String::from("x"))),
    ];
    let (_, result) = run_prune("/data", replies);
    assert_eq!(result.unwrap().unwrap_err().step, Step::RemoveFile);
}

#[test]
fn links_are_removed_and_not_followed() {
    assert_eq!(remove_entry(String::from("/l"), EntryKind::Link), file("/l"));
    assert_eq!(remove_entry(String::from("/f"), EntryKind::File), file("/f"));
    assert_eq!(remove_entry(String::from("/d"), EntryKind::Directory), tree("/d"));
}

#[test]
fn removal_steps_follow_the_kind() {
    assert_eq!(EntryKind::Directory.removal_step(), Step::RemoveDirectory);
    assert_eq!(EntryKind::File.removal_step(), Step::RemoveFile);
    assert_eq!(EntryKind::Link.removal_step(), Step::RemoveFile);
}

#[test]
fn resume_asks_for_the_removal_of_the_next_entry() {
    let next = resume(listing(), 1);
    assert_eq!(
        next,
        Next::Continue {
            state: Pruning::Removing { items: listing(), position: 2, kind: EntryKind::File },
            action: file("/data/b.txt"),
        }
    );
}

#[test]
fn resume_stops_at_an_unreadable_entry() {
    let items = vec![entry("/data/a", EntryKind::File), unreadable("EIO")];
    match resume(items, 1) {
        Next::Finished(Err(failure)) => {
            assert_eq!(failure.kind, ErrorKind::FilesystemIO);
            assert_eq!(failure.step, Step::ReadEntry);
            assert_eq!(failure.detail, "EIO");
        }
        other => panic!("{:?}", other),
    }
}

#[test]
fn resume_past_the_end_is_done() {
    assert_eq!(resume(listing(), 4), Next::Finished(Ok(())));
    assert_eq!(resume(listing(), 77), Next::Finished(Ok(())));
    assert_eq!(resume(Vec::new(), 0), Next::Finished(Ok(())));
}

#[test]
fn replies_are_read_unfavourably() {
    assert_eq!(Reply::Done.into_outcome(), Ok(()));
    assert_eq!(Reply::Failed(Fault::plain(String::from("x"))).into_outcome(), Err(Fault::plain(String::from("x"))));
    assert_eq!(Reply::Absent.into_outcome(), Err(Fault::silent()));
    assert_eq!(Reply::Present(EntryKind::File).into_outcome(), Err(Fault::silent()));
    assert_eq!(Reply::Listing(Vec::new()).into_outcome(), Err(Fault::silent()));
    assert_eq!(Reply::Done.into_fault(), Fault::silent());
    assert!(Reply::Present(EntryKind::Link).found());
    assert!(!Reply::Absent.found());
    assert!(!Reply::Done.found());
    assert!(!Reply::Failed(Fault::silent()).found());
}
