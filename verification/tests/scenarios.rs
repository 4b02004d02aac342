//! Whole scans over small trees held in memory.

use dirscan::pattern::FilePattern;
use dirscan::progress::ProgressUpdate;
use dirscan::scanner::{
    plan_scan, PartialResult, RootProbe, ScanError, ScanResult, ScannerConfig,
};
use dirscan::walk::{DirectoryWalk, EntryKind, TargetKind, WalkAction, WalkEvent};
use std::path::{Path, PathBuf};
use std::time::Duration;

enum Node {
    File(u64),
    UnreadableFile,
    Dir(Vec<(&'static str, Node)>),
    UnreadableDir,
    LinkToFile(u64),
    LinkToDir(Vec<(&'static str, Node)>),
    BrokenLink,
    Socket,
    UnknownKind,
    CrashingDir,
}

fn denied() -> std::io::Error {
    std::io::Error::new(std::io::ErrorKind::PermissionDenied, "permission denied")
}

fn config(follow_symlinks: bool, include_hidden: bool, pattern: Option<&str>) -> ScannerConfig {
    ScannerConfig {
        target_path: PathBuf::from("/data"),
        max_concurrent_tasks: 2,
        follow_symlinks,
        include_hidden,
        progress_updates: true,
        verbose: false,
        file_pattern: pattern.map(|text| FilePattern::parse(text).unwrap()),
    }
}

fn find<'a>(dir: &Path, entries: &'a [(&'static str, Node)], child: &Path) -> &'a Node {
    for (name, node) in entries {
        if dir.join(name) == child {
            return node;
        }
    }
    unreachable!()
}

/// Plays the caller's part for one directory and, recursively, for the
/// sub-directories the walk asks for. `None` as listing is a directory
/// that cannot be opened; `None` as result is a traversal that crashed.
fn traverse(
    config: &ScannerConfig,
    dir: PathBuf,
    listing: Option<&[(&'static str, Node)]>,
    said: &mut Vec<ProgressUpdate>,
) -> PartialResult {
    let empty: Vec<(&'static str, Node)> = Vec::new();
    let entries: &[(&'static str, Node)] = listing.unwrap_or(&empty);
    let mut step = DirectoryWalk::begin(dir.clone());
    let mut index: usize = 0;
    let mut current: Option<&Node> = None;
    let mut awaited: usize = 0;
    loop {
        said.extend(step.emitted.iter().copied());
        let reads = matches!(
            step.action,
            WalkAction::OpenListing
                | WalkAction::NextEntry
                | WalkAction::ProbeKind
                | WalkAction::ResolveTarget
                | WalkAction::ReadSize
        );
        if reads {
            assert!(step.walk.holds_slot());
        }
        let event = match step.action {
            WalkAction::AcquireSlot => WalkEvent::SlotGranted,
            WalkAction::OpenListing => match listing {
                Some(_) => WalkEvent::ListingOpened,
                None => WalkEvent::ListingFailed(denied()),
            },
            WalkAction::NextEntry => {
                if index < entries.len() {
                    let (name, node) = &entries[index];
                    index += 1;
                    current = Some(node);
                    WalkEvent::EntryFound { path: dir.join(name), name: Some(name.to_string()) }
                } else {
                    WalkEvent::ListingExhausted
                }
            }
            WalkAction::ProbeKind => match current.unwrap() {
                Node::File(_) | Node::UnreadableFile => WalkEvent::KindProbed(EntryKind::File),
                Node::Dir(_) | Node::UnreadableDir | Node::CrashingDir => {
                    WalkEvent::KindProbed(EntryKind::Directory)
                }
                Node::LinkToFile(_) | Node::LinkToDir(_) | Node::BrokenLink => {
                    WalkEvent::KindProbed(EntryKind::Symlink)
                }
                Node::Socket => WalkEvent::KindProbed(EntryKind::Other),
                Node::UnknownKind => WalkEvent::KindUnknown(denied()),
            },
            WalkAction::ResolveTarget => match current.unwrap() {
                Node::LinkToFile(len) => {
                    WalkEvent::TargetResolved { kind: TargetKind::File, len: *len }
                }
                Node::LinkToDir(_) => {
                    WalkEvent::TargetResolved { kind: TargetKind::Directory, len: 4096 }
                }
                Node::BrokenLink => WalkEvent::TargetUnresolved(denied()),
                _ => unreachable!(),
            },
            WalkAction::ReadSize => match current.unwrap() {
                Node::File(len) => WalkEvent::SizeRead(*len),
                Node::UnreadableFile => WalkEvent::SizeUnreadable(denied()),
                _ => unreachable!(),
            },
            WalkAction::ReleaseSlot => WalkEvent::SlotReleased,
            WalkAction::AwaitChild => {
                assert!(!step.walk.holds_slot());
                let child = step.walk.children()[awaited].clone();
                awaited += 1;
                match find(&dir, entries, &child) {
                    Node::Dir(inner) | Node::LinkToDir(inner) => WalkEvent::ChildFinished(
                        traverse(config, child, Some(inner.as_slice()), said),
                    ),
                    Node::UnreadableDir => {
                        WalkEvent::ChildFinished(traverse(config, child, None, said))
                    }
                    Node::CrashingDir => WalkEvent::ChildLost,
                    _ => unreachable!(),
                }
            }
            WalkAction::Complete => {
                assert!(!step.walk.holds_slot());
                assert_eq!(step.walk.outstanding(), 0);
                return step.walk.into_result();
            }
        };
        step = step.walk.step(config, event).unwrap();
    }
}

fn scan(config: &ScannerConfig, root: Node) -> (ScanResult, Vec<ProgressUpdate>) {
    let plan = plan_scan(config, RootProbe::Directory).unwrap();
    let mut said: Vec<ProgressUpdate> = plan.opening.clone();
    let partial = match &root {
        Node::Dir(entries) => traverse(config, plan.root.clone(), Some(entries.as_slice()), &mut said),
        Node::UnreadableDir => traverse(config, plan.root.clone(), None, &mut said),
        _ => unreachable!(),
    };
    said.extend(plan.closing.iter().copied());
    let result = ScanResult::from_partial(partial, Duration::from_millis(7)).unwrap();
    (result, said)
}

fn items(said: &[ProgressUpdate]) -> u64 {
    said.iter().filter(|u| matches!(u, ProgressUpdate::NewItemFound)).count() as u64
}

fn bytes(said: &[ProgressUpdate]) -> u64 {
    said.iter()
        .map(|u| match u {
            ProgressUpdate::BytesProcessed(n) => *n,
            _ => 0,
        })
        .sum()
}

fn errors(said: &[ProgressUpdate]) -> usize {
    said.iter().filter(|u| matches!(u, ProgressUpdate::ErrorEncountered)).count()
}

fn small_tree() -> Node {
    Node::Dir(vec![
        ("a.bin", Node::File(10)),
        ("b.bin", Node::File(20)),
        ("sub", Node::Dir(vec![("c.bin", Node::File(5))])),
    ])
}

#[test]
fn two_files_and_a_subdirectory_with_one_file() {
    let (result, said) = scan(&config(false, true, None), small_tree());
    assert_eq!(result.total_files, 3);
    assert_eq!(result.total_directories, 2);
    assert_eq!(result.total_size, 35);
    assert!(result.errors.is_empty());
    assert!(result.matching_files.is_empty());
    assert_eq!(result.scan_duration, Duration::from_millis(7));
    assert_eq!(said.last(), Some(&ProgressUpdate::ScanCompleted));
}

#[test]
fn every_counted_entry_is_announced_once() {
    let (result, said) = scan(&config(false, true, None), small_tree());
    assert_eq!(result.total_files + result.total_directories, items(&said));
    assert_eq!(result.total_size, bytes(&said));
    assert_eq!(errors(&said), 0);
    assert!(result.total_directories >= 1);
}

#[test]
fn empty_root_counts_only_itself() {
    let (result, said) = scan(&config(false, true, None), Node::Dir(vec![]));
    assert_eq!(result.total_files, 0);
    assert_eq!(result.total_directories, 1);
    assert_eq!(result.total_size, 0);
    assert!(result.errors.is_empty());
    assert_eq!(said, vec![ProgressUpdate::NewItemFound, ProgressUpdate::ScanCompleted]);
}

#[test]
fn unreadable_subdirectory_is_one_error_and_the_rest_is_intact() {
    let tree = Node::Dir(vec![
        ("a.bin", Node::File(10)),
        ("locked", Node::UnreadableDir),
        ("sub", Node::Dir(vec![("c.bin", Node::File(5))])),
    ]);
    let (result, said) = scan(&config(false, true, None), tree);
    assert_eq!(result.errors.len(), 1);
    assert!(matches!(
        &result.errors[0],
        ScanError::IoError { path, .. } if path == &PathBuf::from("/data/locked")
    ));
    assert_eq!(result.total_files, 2);
    assert_eq!(result.total_directories, 3);
    assert_eq!(result.total_size, 15);
    assert_eq!(errors(&said), 1);
}

#[test]
fn root_that_cannot_be_listed_still_gives_a_result() {
    let (result, said) = scan(&config(false, true, None), Node::UnreadableDir);
    assert_eq!(result.total_files, 0);
    assert_eq!(result.total_directories, 1);
    assert_eq!(result.errors.len(), 1);
    assert!(matches!(
        &result.errors[0],
        ScanError::IoError { path, .. } if path == &PathBuf::from("/data")
    ));
    assert_eq!(errors(&said), 1);
}

#[test]
fn root_that_is_no_directory_is_refused() {
    let outcome = plan_scan(&config(false, true, None), RootProbe::NotDirectory);
    assert!(matches!(
        outcome,
        Err(ScanError::NotADirectory { path }) if path == PathBuf::from("/data")
    ));
}

#[test]
fn root_that_cannot_be_looked_at_is_refused() {
    let outcome = plan_scan(&config(false, true, None), RootProbe::Unreadable(denied()));
    assert!(matches!(
        outcome,
        Err(ScanError::IoError { path, source })
            if path == PathBuf::from("/data")
                && source.kind() == std::io::ErrorKind::PermissionDenied
    ));
}

#[test]
fn plan_follows_the_configuration() {
    let mut quiet = config(false, true, None);
    quiet.progress_updates = false;
    quiet.max_concurrent_tasks = 9;
    let plan = plan_scan(&quiet, RootProbe::Directory).unwrap();
    assert_eq!(plan.root, PathBuf::from("/data"));
    assert_eq!(plan.slots, 9);
    assert!(!plan.reporting);
    assert_eq!(plan.opening, vec![ProgressUpdate::NewItemFound]);
    assert_eq!(plan.closing, vec![ProgressUpdate::ScanCompleted]);
    let plan = plan_scan(&config(false, true, None), RootProbe::Directory).unwrap();
    assert!(plan.reporting);
    assert_eq!(plan.slots, 2);
}

fn tree_with_git() -> Node {
    Node::Dir(vec![
        (".git", Node::Dir(vec![("HEAD", Node::File(41)), ("objects", Node::Dir(vec![]))])),
        (".env", Node::File(3)),
        ("main.rs", Node::File(100)),
    ])
}

#[test]
fn hidden_directory_is_skipped_when_hidden_entries_are_excluded() {
    let (result, said) = scan(&config(false, false, Some("HEAD")), tree_with_git());
    assert_eq!(result.total_files, 1);
    assert_eq!(result.total_directories, 1);
    assert_eq!(result.total_size, 100);
    assert!(result.matching_files.is_empty());
    assert_eq!(items(&said), 2);
}

#[test]
fn hidden_directory_is_traversed_when_hidden_entries_are_included() {
    let (result, said) = scan(&config(false, true, Some("HEAD")), tree_with_git());
    assert_eq!(result.total_files, 3);
    assert_eq!(result.total_directories, 3);
    assert_eq!(result.total_size, 144);
    assert_eq!(result.matching_files, vec![PathBuf::from("/data/.git/HEAD")]);
    assert_eq!(items(&said), 6);
}

fn tree_with_links() -> Node {
    Node::Dir(vec![
        ("real.txt", Node::File(8)),
        ("to_file", Node::LinkToFile(64)),
        ("to_dir", Node::LinkToDir(vec![("inner.txt", Node::File(2))])),
        ("dangling", Node::BrokenLink),
    ])
}

#[test]
fn symbolic_links_count_nothing_when_not_followed() {
    let (result, said) = scan(&config(false, true, None), tree_with_links());
    assert_eq!(result.total_files, 1);
    assert_eq!(result.total_directories, 1);
    assert_eq!(result.total_size, 8);
    assert!(result.errors.is_empty());
    assert_eq!(items(&said), 2);
}

#[test]
fn followed_links_count_their_targets_once() {
    let (result, said) = scan(&config(true, true, None), tree_with_links());
    assert_eq!(result.total_files, 3);
    assert_eq!(result.total_directories, 2);
    assert_eq!(result.total_size, 8 + 64 + 2);
    assert_eq!(result.errors.len(), 1);
    assert!(matches!(
        &result.errors[0],
        ScanError::MetadataError { path, .. } if path == &PathBuf::from("/data/dangling")
    ));
    assert_eq!(items(&said), 5);
    assert_eq!(bytes(&said), 74);
    assert_eq!(errors(&said), 1);
}

#[test]
fn followed_link_to_a_file_is_not_matched_against_the_pattern() {
    let (result, _) = scan(&config(true, true, Some("to_file|real")), tree_with_links());
    assert_eq!(result.matching_files, vec![PathBuf::from("/data/real.txt")]);
}

#[test]
fn report_file_is_matched_iff_the_pattern_matches_its_name() {
    let tree = || {
        Node::Dir(vec![
            ("report_2024.txt", Node::File(1)),
            ("notes.txt", Node::File(1)),
            ("report_2024", Node::Dir(vec![("summary.md", Node::File(1))])),
        ])
    };
    let (result, _) = scan(&config(false, true, Some(r"^report_\d{4}\.txt$")), tree());
    assert_eq!(result.matching_files, vec![PathBuf::from("/data/report_2024.txt")]);
    let (result, _) = scan(&config(false, true, Some(r"^summary")), tree());
    assert_eq!(result.matching_files, vec![PathBuf::from("/data/report_2024/summary.md")]);
    let (result, _) = scan(&config(false, true, Some(r"\.csv$")), tree());
    assert!(result.matching_files.is_empty());
    let (result, _) = scan(&config(false, true, None), tree());
    assert!(result.matching_files.is_empty());
    assert_eq!(result.total_files, 3);
}

#[test]
fn files_are_matched_by_name_not_by_path() {
    let tree = Node::Dir(vec![(
        "report_2024",
        Node::Dir(vec![("data.bin", Node::File(1)), ("report.bin", Node::File(1))]),
    )]);
    let (result, _) = scan(&config(false, true, Some("report")), tree);
    assert_eq!(result.matching_files, vec![PathBuf::from("/data/report_2024/report.bin")]);
}

#[test]
fn other_kinds_of_entries_are_passed_over_in_silence() {
    let tree = Node::Dir(vec![("ctl.sock", Node::Socket), ("x", Node::File(1))]);
    let (result, said) = scan(&config(true, true, None), tree);
    assert_eq!(result.total_files, 1);
    assert_eq!(result.total_directories, 1);
    assert!(result.errors.is_empty());
    assert_eq!(errors(&said), 0);
}

#[test]
fn unreadable_metadata_and_unknown_kind_are_recorded() {
    let tree = Node::Dir(vec![
        ("secret", Node::UnreadableFile),
        ("odd", Node::UnknownKind),
        ("fine", Node::File(4)),
    ]);
    let (result, said) = scan(&config(false, true, None), tree);
    assert_eq!(result.total_files, 1);
    assert_eq!(result.total_size, 4);
    assert_eq!(result.errors.len(), 2);
    assert!(matches!(
        &result.errors[0],
        ScanError::MetadataError { path, .. } if path == &PathBuf::from("/data/secret")
    ));
    assert!(matches!(
        &result.errors[1],
        ScanError::IoError { path, .. } if path == &PathBuf::from("/data/odd")
    ));
    assert_eq!(errors(&said), 2);
}

#[test]
fn crashed_child_is_announced_and_the_siblings_still_count() {
    let tree = Node::Dir(vec![
        ("bad", Node::CrashingDir),
        ("good", Node::Dir(vec![("f", Node::File(9))])),
    ]);
    let (result, said) = scan(&config(false, true, None), tree);
    assert_eq!(result.total_files, 1);
    assert_eq!(result.total_directories, 3);
    assert_eq!(result.total_size, 9);
    assert!(result.errors.is_empty());
    assert_eq!(errors(&said), 1);
}

#[test]
fn tree_deeper_than_the_task_limit_is_scanned_to_the_bottom() {
    let mut tree = Node::Dir(vec![("leaf", Node::File(1))]);
    for _ in 0..12 {
        tree = Node::Dir(vec![("leaf", Node::File(1)), ("down", tree)]);
    }
    let mut narrow = config(false, true, None);
    narrow.max_concurrent_tasks = 1;
    let (result, said) = scan(&narrow, tree);
    assert_eq!(result.total_files, 13);
    assert_eq!(result.total_directories, 13);
    assert_eq!(result.total_size, 13);
    assert_eq!(items(&said), 26);
}

#[test]
fn scanning_twice_gives_the_same_totals_and_matches() {
    let (first, said_first) = scan(&config(true, false, Some("txt")), tree_with_links());
    let (second, said_second) = scan(&config(true, false, Some("txt")), tree_with_links());
    assert_eq!(first.total_files, second.total_files);
    assert_eq!(first.total_directories, second.total_directories);
    assert_eq!(first.total_size, second.total_size);
    assert_eq!(first.errors.len(), second.errors.len());
    let mut a = first.matching_files.clone();
    let mut b = second.matching_files.clone();
    a.sort();
    b.sort();
    assert_eq!(a, b);
    assert_eq!(said_first, said_second);
}
