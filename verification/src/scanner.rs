//! Configuration, errors and results of a scan.

use vstd::prelude::*;
use std::path::PathBuf;
use std::time::Duration;
use crate::paths::duplicate_path;
use crate::pattern::FilePattern;
use crate::progress::ProgressUpdate;

verus! {

/// Everything a scan is told once and never changes while it runs.
#[derive(Debug)]
pub struct ScannerConfig {
    /// Root of the tree to scan.
    pub target_path: PathBuf,
    /// How many directories may be listed at the same time.
    pub max_concurrent_tasks: usize,
    /// Whether symbolic links are resolved and their targets counted.
    pub follow_symlinks: bool,
    /// Whether entries whose name starts with a dot are visited.
    pub include_hidden: bool,
    /// Whether a reporter listens to the progress events.
    pub progress_updates: bool,
    /// Whether the caller wants a detailed log.
    pub verbose: bool,
    /// Files whose name matches are collected.
    pub file_pattern: Option<FilePattern>,
}

/// A failure met during a scan.
#[derive(Debug)]
pub enum ScanError {
    /// A directory could not be listed, or an entry of it could not be read.
    IoError { path: PathBuf, source: std::io::Error },
    /// The root of the scan is not a directory.
    NotADirectory { path: PathBuf },
    /// The metadata of a file or of a link's target could not be read.
    MetadataError { path: PathBuf, source: std::io::Error },
}

/// The counts of a partial or complete result as mathematical values.
pub struct Tally {
    pub files: nat,
    pub directories: nat,
    pub size: nat,
    pub errors: Seq<ScanError>,
    pub matching_files: Seq<PathBuf>,
}

impl Tally {
    /// Nothing counted.
    pub open spec fn empty() -> Tally {
        Tally {
            files: 0,
            directories: 0,
            size: 0,
            errors: Seq::empty(),
            matching_files: Seq::empty(),
        }
    }

    /// One more file of `len` bytes.
    pub open spec fn with_file(self, len: nat) -> Tally {
        Tally { files: self.files + 1, size: self.size + len, ..self }
    }

    /// One more directory.
    pub open spec fn with_directory(self) -> Tally {
        Tally { directories: self.directories + 1, ..self }
    }

    /// One more error, after those already recorded.
    pub open spec fn with_error(self, error: ScanError) -> Tally {
        Tally { errors: self.errors.push(error), ..self }
    }

    /// One more matching file, after those already collected.
    pub open spec fn with_match(self, path: PathBuf) -> Tally {
        Tally { matching_files: self.matching_files.push(path), ..self }
    }

    /// This tally followed by `other`: counts and sizes add up, the lists
    /// of `other` come after this one's.
    pub open spec fn merged(self, other: Tally) -> Tally {
        Tally {
            files: self.files + other.files,
            directories: self.directories + other.directories,
            size: self.size + other.size,
            errors: self.errors + other.errors,
            matching_files: self.matching_files + other.matching_files,
        }
    }

    /// Whether every count fits a `u64`.
    pub open spec fn fits(self) -> bool {
        &&& self.files <= u64::MAX
        &&& self.directories <= u64::MAX
        &&& self.size <= u64::MAX
    }

    /// Number of entries counted, files and directories together.
    pub open spec fn entries(self) -> nat {
        self.files + self.directories
    }
}

/// Merging is associative: how partial results are grouped before they are
/// merged makes no difference at all.
pub proof fn merge_is_associative(a: Tally, b: Tally, c: Tally)
    ensures
        a.merged(b).merged(c) == a.merged(b.merged(c)),
        Tally::empty().merged(a) == a,
        a.merged(Tally::empty()) == a,
{
    assert(a.merged(b).merged(c).errors =~= a.merged(b.merged(c)).errors);
    assert(a.merged(b).merged(c).matching_files =~= a.merged(b.merged(c)).matching_files);
    assert(Tally::empty().merged(a).errors =~= a.errors);
    assert(Tally::empty().merged(a).matching_files =~= a.matching_files);
    assert(a.merged(Tally::empty()).errors =~= a.errors);
    assert(a.merged(Tally::empty()).matching_files =~= a.matching_files);
}

/// Merging is commutative up to the order of the lists: whichever of two
/// partial results comes first, the counts and the byte total are the
/// same, and the same errors and the same matching files are listed, each
/// as often as before.
pub proof fn merge_order_is_immaterial(a: Tally, b: Tally)
    ensures
        a.merged(b).files == b.merged(a).files,
        a.merged(b).directories == b.merged(a).directories,
        a.merged(b).size == b.merged(a).size,
        a.merged(b).errors.to_multiset() == b.merged(a).errors.to_multiset(),
        a.merged(b).matching_files.to_multiset() == b.merged(a).matching_files.to_multiset(),
        a.merged(b).matching_files.to_set() == b.merged(a).matching_files.to_set(),
{
    vstd::seq_lib::lemma_seq_union_to_multiset_commutative(a.errors, b.errors);
    vstd::seq_lib::lemma_seq_union_to_multiset_commutative(a.matching_files, b.matching_files);
    let ab = a.merged(b).matching_files;
    let ba = b.merged(a).matching_files;
    assert forall|path: PathBuf| ab.to_set().contains(path) == ba.to_set().contains(path) by {
        vstd::seq_lib::to_multiset_contains(ab, path);
        vstd::seq_lib::to_multiset_contains(ba, path);
    }
    assert(ab.to_set() =~= ba.to_set());
}

/// What one directory's traversal has counted, alone or with the results
/// of its sub-directories merged in.
#[derive(Debug)]
pub struct PartialResult {
    pub files: u64,
    pub directories: u64,
    pub size: u64,
    pub errors: Vec<ScanError>,
    pub matching_files: Vec<PathBuf>,
}

impl View for PartialResult {
    type V = Tally;

    open spec fn view(&self) -> Tally {
        Tally {
            files: self.files as nat,
            directories: self.directories as nat,
            size: self.size as nat,
            errors: self.errors@,
            matching_files: self.matching_files@,
        }
    }
}

impl PartialResult {
    /// A result with nothing counted.
    pub fn new() -> (partial: PartialResult)
        ensures
            partial@ == Tally::empty(),
    {
        PartialResult {
            files: 0,
            directories: 0,
            size: 0,
            errors: Vec::new(),
            matching_files: Vec::new(),
        }
    }

    /// Counts one file of `len` bytes; with `selected`, its path joins the
    /// matching files. `None`, when a count would no longer fit.
    pub fn count_file(self, path: PathBuf, len: u64, selected: bool) -> (counted: Option<
        PartialResult,
    >)
        ensures
            counted is Some <==> self@.with_file(len as nat).fits(),
            counted matches Some(next) ==> next@ == if selected {
                self@.with_file(len as nat).with_match(path)
            } else {
                self@.with_file(len as nat)
            },
    {
        let mut next = self;
        match next.files.checked_add(1) {
            Some(files) => match next.size.checked_add(len) {
                Some(size) => {
                    next.files = files;
                    next.size = size;
                    if selected {
                        next.matching_files.push(path);
                    }
                    Some(next)
                },
                None => None,
            },
            None => None,
        }
    }

    /// Counts one directory. `None`, when the count would no longer fit.
    pub fn count_directory(self) -> (counted: Option<PartialResult>)
        ensures
            counted is Some <==> self@.with_directory().fits(),
            counted matches Some(next) ==> next@ == self@.with_directory(),
    {
        let mut next = self;
        match next.directories.checked_add(1) {
            Some(directories) => {
                next.directories = directories;
                Some(next)
            },
            None => None,
        }
    }

    /// Records one error after those already there.
    pub fn record_error(self, error: ScanError) -> (next: PartialResult)
        ensures
            next@ == self@.with_error(error),
    {
        let mut next = self;
        next.errors.push(error);
        next
    }

    /// Merges the result of a sub-directory into this one. `None`, when a
    /// sum would no longer fit.
    pub fn merge(self, child: PartialResult) -> (merged: Option<PartialResult>)
        ensures
            merged is Some <==> self@.merged(child@).fits(),
            merged matches Some(next) ==> next@ == self@.merged(child@),
    {
        let mut next = self;
        let mut child = child;
        let files = next.files.checked_add(child.files);
        let directories = next.directories.checked_add(child.directories);
        let size = next.size.checked_add(child.size);
        match (files, directories, size) {
            (Some(files), Some(directories), Some(size)) => {
                next.files = files;
                next.directories = directories;
                next.size = size;
                next.errors.append(&mut child.errors);
                next.matching_files.append(&mut child.matching_files);
                Some(next)
            },
            _ => None,
        }
    }
}

/// The final outcome of a scan.
#[derive(Debug)]
pub struct ScanResult {
    pub total_files: u64,
    /// Directories found, the root included.
    pub total_directories: u64,
    pub total_size: u64,
    pub scan_duration: Duration,
    pub errors: Vec<ScanError>,
    pub matching_files: Vec<PathBuf>,
}

impl ScanResult {
    /// Whether this is the result of a scan whose root traversal ended with
    /// `root` after `elapsed`: the root itself is one more directory,
    /// everything else is taken as it is.
    pub open spec fn completes(self, root: Tally, elapsed: Duration) -> bool {
        &&& self.total_files == root.files
        &&& self.total_directories == root.directories + 1
        &&& self.total_size == root.size
        &&& self.scan_duration == elapsed
        &&& self.errors@ == root.errors
        &&& self.matching_files@ == root.matching_files
    }

    /// Turns the root's merged partial result into the scan's result.
    /// `None`, when the directory count, with the root added, would no
    /// longer fit.
    pub fn from_partial(partial: PartialResult, scan_duration: Duration) -> (result: Option<
        ScanResult,
    >)
        ensures
            result is Some <==> partial.directories < u64::MAX,
            result matches Some(r) ==> r.completes(partial@, scan_duration),
    {
        match partial.directories.checked_add(1) {
            Some(total_directories) => Some(
                ScanResult {
                    total_files: partial.files,
                    total_directories,
                    total_size: partial.size,
                    scan_duration,
                    errors: partial.errors,
                    matching_files: partial.matching_files,
                },
            ),
            None => None,
        }
    }
}

/// What looking at the root of a scan gave.
#[derive(Debug)]
pub enum RootProbe {
    /// The root exists and is a directory.
    Directory,
    /// The root exists and is something else.
    NotDirectory,
    /// The root could not be looked at.
    Unreadable(std::io::Error),
}

/// How to run a scan whose root was found fit.
#[derive(Debug)]
pub struct ScanPlan {
    /// The directory at which the traversal starts.
    pub root: PathBuf,
    /// Capacity of the concurrency limiter.
    pub slots: usize,
    /// Whether a reporter is started and progress events are sent to it.
    pub reporting: bool,
    /// What is announced before the traversal starts.
    pub opening: Vec<ProgressUpdate>,
    /// What is announced once the traversal is over.
    pub closing: Vec<ProgressUpdate>,
}

/// Decides whether a scan can start, and how.
///
/// A root that is a directory gives the plan: the traversal starts at the
/// root, the limiter gets the configured capacity, a reporter listens if
/// progress is wanted, the root is announced as the first item and the
/// completion as the last event. Any other root is refused before anything
/// is traversed.
pub fn plan_scan(config: &ScannerConfig, probe: RootProbe) -> (outcome: Result<
    ScanPlan,
    ScanError,
>)
    ensures
        match probe {
            RootProbe::Directory => {
                &&& outcome matches Ok(plan)
                &&& plan.root == config.target_path
                &&& plan.slots == config.max_concurrent_tasks
                &&& plan.reporting == config.progress_updates
                &&& plan.opening@ == seq![ProgressUpdate::NewItemFound]
                &&& plan.closing@ == seq![ProgressUpdate::ScanCompleted]
            },
            RootProbe::NotDirectory => outcome == Err::<ScanPlan, ScanError>(
                ScanError::NotADirectory { path: config.target_path },
            ),
            RootProbe::Unreadable(source) => outcome == Err::<ScanPlan, ScanError>(
                ScanError::IoError { path: config.target_path, source },
            ),
        },
{
    let root = duplicate_path(&config.target_path);
    match probe {
        RootProbe::Directory => {
            let mut opening = Vec::new();
            opening.push(ProgressUpdate::NewItemFound);
            let mut closing = Vec::new();
            closing.push(ProgressUpdate::ScanCompleted);
            Ok(
                ScanPlan {
                    root,
                    slots: config.max_concurrent_tasks,
                    reporting: config.progress_updates,
                    opening,
                    closing,
                },
            )
        },
        RootProbe::NotDirectory => Err(ScanError::NotADirectory { path: root }),
        RootProbe::Unreadable(source) => Err(ScanError::IoError { path: root, source }),
    }
}

} // verus!
