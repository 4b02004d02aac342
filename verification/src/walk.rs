//! The traversal of one directory, as a machine driven by events.
//!
//! A [`DirectoryWalk`] covers one directory: it waits for a slot of the
//! concurrency limiter, lists the directory entry by entry while it holds
//! the slot, gives the slot back, and then takes in the results of the
//! sub-directories it found. The caller performs each [`WalkAction`] and
//! reports what happened as the next [`WalkEvent`].

use vstd::prelude::*;
use std::path::PathBuf;
use crate::paths::duplicate_path;
use crate::pattern::{hidden_name, is_hidden_name, pattern_selects, selects};
use crate::progress::ProgressUpdate;
use crate::scanner::{PartialResult, ScanError, ScannerConfig, Tally};

verus! {

/// What an entry is, found out without following symbolic links.
#[derive(Debug, Clone, Copy, PartialEq, Eq, Structural)]
pub enum EntryKind {
    File,
    Directory,
    Symlink,
    /// A device, socket, pipe or anything else.
    Other,
}

/// What a symbolic link points to in the end.
#[derive(Debug, Clone, Copy, PartialEq, Eq, Structural)]
pub enum TargetKind {
    File,
    Directory,
    /// Neither a regular file nor a directory.
    Other,
}

/// Where a walk stands.
#[derive(Debug, Clone, Copy, PartialEq, Eq, Structural)]
pub enum WalkPhase {
    /// Waiting for a slot of the limiter.
    Waiting,
    /// Slot held; the directory is being opened.
    Opening,
    /// Slot held; the next entry is being read.
    Listing,
    /// Slot held; the kind of the current entry is being found out.
    Probing,
    /// Slot held; the target of the current symbolic link is being resolved.
    Resolving,
    /// Slot held; the size of the current file is being read.
    Sizing,
    /// The listing is over; the slot is being given back.
    Releasing,
    /// Slot given back; results of sub-directories are being taken in.
    Joining,
    /// Nothing more to do.
    Finished,
}

impl WalkPhase {
    /// Whether a walk in this phase holds a slot of the limiter.
    pub open spec fn holds_slot(self) -> bool {
        self is Opening || self is Listing || self is Probing || self is Resolving
            || self is Sizing || self is Releasing
    }
}

/// The outcome of the operation that the walk asked for last.
#[derive(Debug)]
pub enum WalkEvent {
    /// The limiter granted a slot.
    SlotGranted,
    /// The limiter was shut down before it granted a slot.
    SlotRefused,
    /// The directory was opened for listing.
    ListingOpened,
    /// The directory could not be opened.
    ListingFailed(std::io::Error),
    /// The listing yielded an entry. `name` is its file name where that is
    /// valid text.
    EntryFound { path: PathBuf, name: Option<String> },
    /// The listing failed to yield its next entry.
    EntryUnreadable(std::io::Error),
    /// The listing has no more entries.
    ListingExhausted,
    /// The kind of the current entry.
    KindProbed(EntryKind),
    /// The kind of the current entry could not be found out.
    KindUnknown(std::io::Error),
    /// What the current symbolic link points to, and the target's size.
    TargetResolved { kind: TargetKind, len: u64 },
    /// The current symbolic link could not be resolved.
    TargetUnresolved(std::io::Error),
    /// The size of the current file.
    SizeRead(u64),
    /// The metadata of the current file could not be read.
    SizeUnreadable(std::io::Error),
    /// The slot was given back.
    SlotReleased,
    /// A sub-directory's traversal ended with this result.
    ChildFinished(PartialResult),
    /// A sub-directory's traversal crashed or was cancelled.
    ChildLost,
}

impl WalkEvent {
    /// Whether the event reports something that could not be read.
    pub open spec fn is_failure(self) -> bool {
        self is ListingFailed || self is EntryUnreadable || self is KindUnknown
            || self is TargetUnresolved || self is SizeUnreadable || self is ChildLost
    }
}

/// What the caller has to do next.
#[derive(Debug, Clone, Copy, PartialEq, Eq, Structural)]
pub enum WalkAction {
    /// Wait for a slot of the limiter.
    AcquireSlot,
    /// Open the walk's directory for listing.
    OpenListing,
    /// Read the next entry of the listing.
    NextEntry,
    /// Find out the kind of the current entry without following links.
    ProbeKind,
    /// Read the metadata of what the current symbolic link points to.
    ResolveTarget,
    /// Read the metadata of the current file.
    ReadSize,
    /// Give the slot back, then start a traversal for each child.
    ReleaseSlot,
    /// Wait for the next child, in the order in which they were found.
    AwaitChild,
    /// The walk is over; its result can be taken.
    Complete,
}

impl WalkAction {
    /// Whether the action reads from the directory being walked.
    pub open spec fn reads_directory(self) -> bool {
        self is OpenListing || self is NextEntry || self is ProbeKind || self is ResolveTarget
            || self is ReadSize
    }
}

/// Why a walk refused an event.
#[derive(Debug, Clone, Copy, PartialEq, Eq, Structural)]
pub enum WalkFault {
    /// The event does not answer what the walk asked for.
    OutOfTurn,
    /// A count would no longer fit its counter.
    CounterOverflow,
}

/// An entry that the listing yielded and that is being examined.
#[derive(Debug)]
pub struct FoundEntry {
    pub path: PathBuf,
    pub name: Option<String>,
}

/// A walk as mathematical values.
pub struct WalkView {
    /// The directory being walked.
    pub path: PathBuf,
    pub phase: WalkPhase,
    /// What has been counted so far.
    pub tally: Tally,
    /// Sub-directories found, in the order of the listing.
    pub children: Seq<PathBuf>,
    /// The entry under examination, if any.
    pub entry: Option<FoundEntry>,
    /// Children whose outcome has not been taken in yet.
    pub outstanding: nat,
}

/// One step of a walk as mathematical values.
pub struct WalkStepView {
    pub walk: WalkView,
    pub action: WalkAction,
    pub emitted: Seq<ProgressUpdate>,
}

/// Whether the configuration passes over an entry because of its name.
pub open spec fn hides(config: ScannerConfig, name: Option<String>) -> bool {
    !config.include_hidden && (name matches Some(n) && is_hidden_name(n@))
}

/// A fresh walk of `path`, waiting for its slot.
pub open spec fn walk_start(path: PathBuf) -> WalkView {
    WalkView {
        path,
        phase: WalkPhase::Waiting,
        tally: Tally::empty(),
        children: Seq::empty(),
        entry: None,
        outstanding: 0,
    }
}

/// A step that counts nothing and announces nothing.
pub open spec fn silent(walk: WalkView, action: WalkAction) -> Result<WalkStepView, WalkFault> {
    Ok(WalkStepView { walk, action, emitted: Seq::empty() })
}

/// The step that ends the examination of the current entry with `tally`
/// and asks for the next one; a fault, if `tally` does not fit.
pub open spec fn entry_done(w: WalkView, tally: Tally, emitted: Seq<ProgressUpdate>) -> Result<
    WalkStepView,
    WalkFault,
> {
    if tally.fits() {
        Ok(
            WalkStepView {
                walk: WalkView { phase: WalkPhase::Listing, tally, entry: None, ..w },
                action: WalkAction::NextEntry,
                emitted,
            },
        )
    } else {
        Err(WalkFault::CounterOverflow)
    }
}

/// The step that counts the current entry `entry` as a directory and queues
/// it for descent.
pub open spec fn directory_done(w: WalkView, entry: FoundEntry) -> Result<
    WalkStepView,
    WalkFault,
> {
    entry_done(
        WalkView { children: w.children.push(entry.path), ..w },
        w.tally.with_directory(),
        seq![ProgressUpdate::NewItemFound],
    )
}

/// The step that ends the listing: the slot goes back, and every child
/// found is outstanding from now on.
pub open spec fn listing_done(w: WalkView, tally: Tally, emitted: Seq<ProgressUpdate>) -> Result<
    WalkStepView,
    WalkFault,
> {
    Ok(
        WalkStepView {
            walk: WalkView {
                phase: WalkPhase::Releasing,
                tally,
                entry: None,
                outstanding: w.children.len(),
                ..w
            },
            action: WalkAction::ReleaseSlot,
            emitted,
        },
    )
}

/// The step that takes in one child's outcome, leaving `tally`.
pub open spec fn child_done(w: WalkView, tally: Tally, emitted: Seq<ProgressUpdate>) -> Result<
    WalkStepView,
    WalkFault,
> {
    if w.outstanding == 0 {
        Err(WalkFault::OutOfTurn)
    } else if !tally.fits() {
        Err(WalkFault::CounterOverflow)
    } else if w.outstanding == 1 {
        Ok(
            WalkStepView {
                walk: WalkView { phase: WalkPhase::Finished, tally, outstanding: 0, ..w },
                action: WalkAction::Complete,
                emitted,
            },
        )
    } else {
        Ok(
            WalkStepView {
                walk: WalkView { tally, outstanding: (w.outstanding - 1) as nat, ..w },
                action: WalkAction::AwaitChild,
                emitted,
            },
        )
    }
}

/// The transition of a walk: what it becomes on `event`, what it asks for
/// next and what it announces; or why it refuses the event.
pub open spec fn walk_next(w: WalkView, config: ScannerConfig, event: WalkEvent) -> Result<
    WalkStepView,
    WalkFault,
> {
    match (w.phase, event) {
        (WalkPhase::Waiting, WalkEvent::SlotGranted) => silent(
            WalkView { phase: WalkPhase::Opening, ..w },
            WalkAction::OpenListing,
        ),
        (WalkPhase::Waiting, WalkEvent::SlotRefused) => silent(
            WalkView { phase: WalkPhase::Finished, ..w },
            WalkAction::Complete,
        ),
        (WalkPhase::Opening, WalkEvent::ListingOpened) => silent(
            WalkView { phase: WalkPhase::Listing, ..w },
            WalkAction::NextEntry,
        ),
        (WalkPhase::Opening, WalkEvent::ListingFailed(source)) => listing_done(
            w,
            w.tally.with_error(ScanError::IoError { path: w.path, source }),
            seq![ProgressUpdate::ErrorEncountered],
        ),
        (WalkPhase::Listing, WalkEvent::EntryFound { path, name }) => if hides(config, name) {
            silent(w, WalkAction::NextEntry)
        } else {
            silent(
                WalkView {
                    phase: WalkPhase::Probing,
                    entry: Some(FoundEntry { path, name }),
                    ..w
                },
                WalkAction::ProbeKind,
            )
        },
        (WalkPhase::Listing, WalkEvent::EntryUnreadable(source)) => entry_done(
            w,
            w.tally.with_error(ScanError::IoError { path: w.path, source }),
            seq![ProgressUpdate::ErrorEncountered],
        ),
        (WalkPhase::Listing, WalkEvent::ListingExhausted) => listing_done(
            w,
            w.tally,
            Seq::empty(),
        ),
        (WalkPhase::Probing, WalkEvent::KindProbed(kind)) => match w.entry {
            Some(entry) => match kind {
                EntryKind::Symlink => if config.follow_symlinks {
                    silent(
                        WalkView { phase: WalkPhase::Resolving, ..w },
                        WalkAction::ResolveTarget,
                    )
                } else {
                    entry_done(w, w.tally, Seq::empty())
                },
                EntryKind::File => silent(
                    WalkView { phase: WalkPhase::Sizing, ..w },
                    WalkAction::ReadSize,
                ),
                EntryKind::Directory => directory_done(w, entry),
                EntryKind::Other => entry_done(w, w.tally, Seq::empty()),
            },
            None => Err(WalkFault::OutOfTurn),
        },
        (WalkPhase::Probing, WalkEvent::KindUnknown(source)) => match w.entry {
            Some(entry) => entry_done(
                w,
                w.tally.with_error(ScanError::IoError { path: entry.path, source }),
                seq![ProgressUpdate::ErrorEncountered],
            ),
            None => Err(WalkFault::OutOfTurn),
        },
        (WalkPhase::Resolving, WalkEvent::TargetResolved { kind, len }) => match w.entry {
            Some(entry) => match kind {
                TargetKind::File => entry_done(
                    w,
                    w.tally.with_file(len as nat),
                    seq![ProgressUpdate::NewItemFound, ProgressUpdate::BytesProcessed(len)],
                ),
                TargetKind::Directory => directory_done(w, entry),
                TargetKind::Other => entry_done(w, w.tally, Seq::empty()),
            },
            None => Err(WalkFault::OutOfTurn),
        },
        (WalkPhase::Resolving, WalkEvent::TargetUnresolved(source)) => match w.entry {
            Some(entry) => entry_done(
                w,
                w.tally.with_error(ScanError::MetadataError { path: entry.path, source }),
                seq![ProgressUpdate::ErrorEncountered],
            ),
            None => Err(WalkFault::OutOfTurn),
        },
        (WalkPhase::Sizing, WalkEvent::SizeRead(len)) => match w.entry {
            Some(entry) => entry_done(
                w,
                if selects(config.file_pattern, entry.name) {
                    w.tally.with_file(len as nat).with_match(entry.path)
                } else {
                    w.tally.with_file(len as nat)
                },
                seq![ProgressUpdate::NewItemFound, ProgressUpdate::BytesProcessed(len)],
            ),
            None => Err(WalkFault::OutOfTurn),
        },
        (WalkPhase::Sizing, WalkEvent::SizeUnreadable(source)) => match w.entry {
            Some(entry) => entry_done(
                w,
                w.tally.with_error(ScanError::MetadataError { path: entry.path, source }),
                seq![ProgressUpdate::ErrorEncountered],
            ),
            None => Err(WalkFault::OutOfTurn),
        },
        (WalkPhase::Releasing, WalkEvent::SlotReleased) => if w.outstanding == 0 {
            silent(WalkView { phase: WalkPhase::Finished, ..w }, WalkAction::Complete)
        } else {
            silent(WalkView { phase: WalkPhase::Joining, ..w }, WalkAction::AwaitChild)
        },
        (WalkPhase::Joining, WalkEvent::ChildFinished(child)) => child_done(
            w,
            w.tally.merged(child@),
            Seq::empty(),
        ),
        (WalkPhase::Joining, WalkEvent::ChildLost) => child_done(
            w,
            w.tally,
            seq![ProgressUpdate::ErrorEncountered],
        ),
        _ => Err(WalkFault::OutOfTurn),
    }
}

/// The traversal of one directory.
#[derive(Debug)]
pub struct DirectoryWalk {
    path: PathBuf,
    phase: WalkPhase,
    tally: PartialResult,
    children: Vec<PathBuf>,
    entry: Option<FoundEntry>,
    outstanding: usize,
}

impl View for DirectoryWalk {
    type V = WalkView;

    closed spec fn view(&self) -> WalkView {
        WalkView {
            path: self.path,
            phase: self.phase,
            tally: self.tally@,
            children: self.children@,
            entry: self.entry,
            outstanding: self.outstanding as nat,
        }
    }
}

/// A walk after one step, with what the caller has to do and to announce.
#[derive(Debug)]
pub struct WalkStep {
    pub walk: DirectoryWalk,
    pub action: WalkAction,
    pub emitted: Vec<ProgressUpdate>,
}

impl View for WalkStep {
    type V = WalkStepView;

    open spec fn view(&self) -> WalkStepView {
        WalkStepView { walk: self.walk@, action: self.action, emitted: self.emitted@ }
    }
}

fn announce_item() -> (emitted: Vec<ProgressUpdate>)
    ensures
        emitted@ == seq![ProgressUpdate::NewItemFound],
{
    let mut emitted = Vec::new();
    emitted.push(ProgressUpdate::NewItemFound);
    emitted
}

fn announce_file(len: u64) -> (emitted: Vec<ProgressUpdate>)
    ensures
        emitted@ == seq![ProgressUpdate::NewItemFound, ProgressUpdate::BytesProcessed(len)],
{
    let mut emitted = Vec::new();
    emitted.push(ProgressUpdate::NewItemFound);
    emitted.push(ProgressUpdate::BytesProcessed(len));
    emitted
}

fn announce_error() -> (emitted: Vec<ProgressUpdate>)
    ensures
        emitted@ == seq![ProgressUpdate::ErrorEncountered],
{
    let mut emitted = Vec::new();
    emitted.push(ProgressUpdate::ErrorEncountered);
    emitted
}

impl DirectoryWalk {
    /// Starts the walk of `path`: the first thing to do is to wait for a
    /// slot.
    pub fn begin(path: PathBuf) -> (step: WalkStep)
        ensures
            step@ == (WalkStepView {
                walk: walk_start(path),
                action: WalkAction::AcquireSlot,
                emitted: Seq::empty(),
            }),
    {
        WalkStep {
            walk: DirectoryWalk {
                path,
                phase: WalkPhase::Waiting,
                tally: PartialResult::new(),
                children: Vec::new(),
                entry: None,
                outstanding: 0,
            },
            action: WalkAction::AcquireSlot,
            emitted: Vec::new(),
        }
    }

    /// The directory being walked.
    pub fn path(&self) -> (path: &PathBuf)
        ensures
            *path == self@.path,
    {
        &self.path
    }

    /// Where the walk stands.
    pub fn phase(&self) -> (phase: WalkPhase)
        ensures
            phase == self@.phase,
    {
        self.phase
    }

    /// Whether the walk holds a slot of the limiter.
    pub fn holds_slot(&self) -> (held: bool)
        ensures
            held == self@.phase.holds_slot(),
    {
        match self.phase {
            WalkPhase::Opening
            | WalkPhase::Listing
            | WalkPhase::Probing
            | WalkPhase::Resolving
            | WalkPhase::Sizing
            | WalkPhase::Releasing => true,
            _ => false,
        }
    }

    /// The sub-directories found so far, in the order of the listing. Once
    /// the walk asks to release its slot, these are the children to start.
    pub fn children(&self) -> (children: &Vec<PathBuf>)
        ensures
            children@ == self@.children,
    {
        &self.children
    }

    /// How many children have not reported yet.
    pub fn outstanding(&self) -> (n: usize)
        ensures
            n == self@.outstanding,
    {
        self.outstanding
    }

    /// Ends the walk and hands out what it has counted.
    pub fn into_result(self) -> (partial: PartialResult)
        ensures
            partial@ == self@.tally,
    {
        self.tally
    }

    /// Takes the outcome of the last action and decides what comes next.
    ///
    /// The step is the one that [`walk_next`] describes. An event that does
    /// not answer the last action, or a count that would overflow, is a
    /// fault; the walk is then lost.
    pub fn step(self, config: &ScannerConfig, event: WalkEvent) -> (outcome: Result<
        WalkStep,
        WalkFault,
    >)
        ensures
            match walk_next(self@, *config, event) {
                Ok(expected) => outcome matches Ok(step) && step@ == expected,
                Err(fault) => outcome == Err::<WalkStep, WalkFault>(fault),
            },
    {
        let DirectoryWalk { path, phase, tally, children, entry, outstanding } = self;
        match phase {
            WalkPhase::Waiting => match event {
                WalkEvent::SlotGranted => Ok(
                    WalkStep {
                        walk: DirectoryWalk {
                            path,
                            phase: WalkPhase::Opening,
                            tally,
                            children,
                            entry,
                            outstanding,
                        },
                        action: WalkAction::OpenListing,
                        emitted: Vec::new(),
                    },
                ),
                WalkEvent::SlotRefused => Ok(
                    WalkStep {
                        walk: DirectoryWalk {
                            path,
                            phase: WalkPhase::Finished,
                            tally,
                            children,
                            entry,
                            outstanding,
                        },
                        action: WalkAction::Complete,
                        emitted: Vec::new(),
                    },
                ),
                _ => Err(WalkFault::OutOfTurn),
            },
            WalkPhase::Opening => match event {
                WalkEvent::ListingOpened => Ok(
                    WalkStep {
                        walk: DirectoryWalk {
                            path,
                            phase: WalkPhase::Listing,
                            tally,
                            children,
                            entry,
                            outstanding,
                        },
                        action: WalkAction::NextEntry,
                        emitted: Vec::new(),
                    },
                ),
                WalkEvent::ListingFailed(source) => {
                    let error = ScanError::IoError { path: duplicate_path(&path), source };
                    Ok(Self::end_listing(path, tally.record_error(error), children, announce_error()))
                },
                _ => Err(WalkFault::OutOfTurn),
            },
            WalkPhase::Listing => match event {
                WalkEvent::EntryFound { path: entry_path, name } => {
                    let passed_over = !config.include_hidden && match &name {
                        Some(n) => hidden_name(n.as_str()),
                        None => false,
                    };
                    if passed_over {
                        Ok(
                            WalkStep {
                                walk: DirectoryWalk {
                                    path,
                                    phase,
                                    tally,
                                    children,
                                    entry,
                                    outstanding,
                                },
                                action: WalkAction::NextEntry,
                                emitted: Vec::new(),
                            },
                        )
                    } else {
                        Ok(
                            WalkStep {
                                walk: DirectoryWalk {
                                    path,
                                    phase: WalkPhase::Probing,
                                    tally,
                                    children,
                                    entry: Some(FoundEntry { path: entry_path, name }),
                                    outstanding,
                                },
                                action: WalkAction::ProbeKind,
                                emitted: Vec::new(),
                            },
                        )
                    }
                },
                WalkEvent::EntryUnreadable(source) => {
                    let error = ScanError::IoError { path: duplicate_path(&path), source };
                    Ok(
                        Self::next_entry(
                            path,
                            tally.record_error(error),
                            children,
                            outstanding,
                            announce_error(),
                        ),
                    )
                },
                WalkEvent::ListingExhausted => Ok(
                    Self::end_listing(path, tally, children, Vec::new()),
                ),
                _ => Err(WalkFault::OutOfTurn),
            },
            WalkPhase::Probing => match (entry, event) {
                (Some(found), WalkEvent::KindProbed(kind)) => match kind {
                    EntryKind::Symlink => if config.follow_symlinks {
                        Ok(
                            WalkStep {
                                walk: DirectoryWalk {
                                    path,
                                    phase: WalkPhase::Resolving,
                                    tally,
                                    children,
                                    entry: Some(found),
                                    outstanding,
                                },
                                action: WalkAction::ResolveTarget,
                                emitted: Vec::new(),
                            },
                        )
                    } else {
                        Ok(Self::next_entry(path, tally, children, outstanding, Vec::new()))
                    },
                    EntryKind::File => Ok(
                        WalkStep {
                            walk: DirectoryWalk {
                                path,
                                phase: WalkPhase::Sizing,
                                tally,
                                children,
                                entry: Some(found),
                                outstanding,
                            },
                            action: WalkAction::ReadSize,
                            emitted: Vec::new(),
                        },
                    ),
                    EntryKind::Directory => Self::enter_directory(
                        path,
                        tally,
                        children,
                        found,
                        outstanding,
                    ),
                    EntryKind::Other => Ok(
                        Self::next_entry(path, tally, children, outstanding, Vec::new()),
                    ),
                },
                (Some(found), WalkEvent::KindUnknown(source)) => {
                    let error = ScanError::IoError { path: found.path, source };
                    Ok(
                        Self::next_entry(
                            path,
                            tally.record_error(error),
                            children,
                            outstanding,
                            announce_error(),
                        ),
                    )
                },
                _ => Err(WalkFault::OutOfTurn),
            },
            WalkPhase::Resolving => match (entry, event) {
                (Some(found), WalkEvent::TargetResolved { kind, len }) => match kind {
                    TargetKind::File => match tally.count_file(found.path, len, false) {
                        Some(counted) => Ok(
                            Self::next_entry(
                                path,
                                counted,
                                children,
                                outstanding,
                                announce_file(len),
                            ),
                        ),
                        None => Err(WalkFault::CounterOverflow),
                    },
                    TargetKind::Directory => Self::enter_directory(
                        path,
                        tally,
                        children,
                        found,
                        outstanding,
                    ),
                    TargetKind::Other => Ok(
                        Self::next_entry(path, tally, children, outstanding, Vec::new()),
                    ),
                },
                (Some(found), WalkEvent::TargetUnresolved(source)) => {
                    let error = ScanError::MetadataError { path: found.path, source };
                    Ok(
                        Self::next_entry(
                            path,
                            tally.record_error(error),
                            children,
                            outstanding,
                            announce_error(),
                        ),
                    )
                },
                _ => Err(WalkFault::OutOfTurn),
            },
            WalkPhase::Sizing => match (entry, event) {
                (Some(found), WalkEvent::SizeRead(len)) => {
                    let selected = pattern_selects(&config.file_pattern, &found.name);
                    match tally.count_file(found.path, len, selected) {
                        Some(counted) => Ok(
                            Self::next_entry(
                                path,
                                counted,
                                children,
                                outstanding,
                                announce_file(len),
                            ),
                        ),
                        None => Err(WalkFault::CounterOverflow),
                    }
                },
                (Some(found), WalkEvent::SizeUnreadable(source)) => {
                    let error = ScanError::MetadataError { path: found.path, source };
                    Ok(
                        Self::next_entry(
                            path,
                            tally.record_error(error),
                            children,
                            outstanding,
                            announce_error(),
                        ),
                    )
                },
                _ => Err(WalkFault::OutOfTurn),
            },
            WalkPhase::Releasing => match event {
                WalkEvent::SlotReleased => if outstanding == 0 {
                    Ok(
                        WalkStep {
                            walk: DirectoryWalk {
                                path,
                                phase: WalkPhase::Finished,
                                tally,
                                children,
                                entry,
                                outstanding,
                            },
                            action: WalkAction::Complete,
                            emitted: Vec::new(),
                        },
                    )
                } else {
                    Ok(
                        WalkStep {
                            walk: DirectoryWalk {
                                path,
                                phase: WalkPhase::Joining,
                                tally,
                                children,
                                entry,
                                outstanding,
                            },
                            action: WalkAction::AwaitChild,
                            emitted: Vec::new(),
                        },
                    )
                },
                _ => Err(WalkFault::OutOfTurn),
            },
            WalkPhase::Joining => match event {
                WalkEvent::ChildFinished(child) => if outstanding == 0 {
                    Err(WalkFault::OutOfTurn)
                } else {
                    match tally.merge(child) {
                        Some(merged) => Ok(
                            Self::after_child(
                                path,
                                merged,
                                children,
                                entry,
                                outstanding,
                                Vec::new(),
                            ),
                        ),
                        None => Err(WalkFault::CounterOverflow),
                    }
                },
                WalkEvent::ChildLost => if outstanding == 0 {
                    Err(WalkFault::OutOfTurn)
                } else {
                    Ok(
                        Self::after_child(
                            path,
                            tally,
                            children,
                            entry,
                            outstanding,
                            announce_error(),
                        ),
                    )
                },
                _ => Err(WalkFault::OutOfTurn),
            },
            WalkPhase::Finished => Err(WalkFault::OutOfTurn),
        }
    }

    /// Back to the listing, with the current entry dealt with.
    fn next_entry(
        path: PathBuf,
        tally: PartialResult,
        children: Vec<PathBuf>,
        outstanding: usize,
        emitted: Vec<ProgressUpdate>,
    ) -> (step: WalkStep)
        ensures
            step@ == (WalkStepView {
                walk: WalkView {
                    path,
                    phase: WalkPhase::Listing,
                    tally: tally@,
                    children: children@,
                    entry: None,
                    outstanding: outstanding as nat,
                },
                action: WalkAction::NextEntry,
                emitted: emitted@,
            }),
    {
        WalkStep {
            walk: DirectoryWalk {
                path,
                phase: WalkPhase::Listing,
                tally,
                children,
                entry: None,
                outstanding,
            },
            action: WalkAction::NextEntry,
            emitted,
        }
    }

    /// Counts the current entry as a directory and queues it for descent.
    fn enter_directory(
        path: PathBuf,
        tally: PartialResult,
        children: Vec<PathBuf>,
        found: FoundEntry,
        outstanding: usize,
    ) -> (outcome: Result<WalkStep, WalkFault>)
        ensures
            match directory_done(
                WalkView {
                    path,
                    phase: WalkPhase::Listing,
                    tally: tally@,
                    children: children@,
                    entry: None,
                    outstanding: outstanding as nat,
                },
                found,
            ) {
                Ok(expected) => outcome matches Ok(step) && step@ == expected,
                Err(fault) => outcome == Err::<WalkStep, WalkFault>(fault),
            },
    {
        match tally.count_directory() {
            Some(counted) => {
                let mut children = children;
                children.push(found.path);
                Ok(Self::next_entry(path, counted, children, outstanding, announce_item()))
            },
            None => Err(WalkFault::CounterOverflow),
        }
    }

    /// The listing is over: every child found is outstanding from now on.
    fn end_listing(
        path: PathBuf,
        tally: PartialResult,
        children: Vec<PathBuf>,
        emitted: Vec<ProgressUpdate>,
    ) -> (step: WalkStep)
        ensures
            step@ == (WalkStepView {
                walk: WalkView {
                    path,
                    phase: WalkPhase::Releasing,
                    tally: tally@,
                    children: children@,
                    entry: None,
                    outstanding: children@.len(),
                },
                action: WalkAction::ReleaseSlot,
                emitted: emitted@,
            }),
    {
        let outstanding = children.len();
        WalkStep {
            walk: DirectoryWalk {
                path,
                phase: WalkPhase::Releasing,
                tally,
                children,
                entry: None,
                outstanding,
            },
            action: WalkAction::ReleaseSlot,
            emitted,
        }
    }

    /// One child fewer to wait for.
    fn after_child(
        path: PathBuf,
        tally: PartialResult,
        children: Vec<PathBuf>,
        entry: Option<FoundEntry>,
        outstanding: usize,
        emitted: Vec<ProgressUpdate>,
    ) -> (step: WalkStep)
        requires
            outstanding > 0,
        ensures
            step@ == (WalkStepView {
                walk: WalkView {
                    path,
                    phase: if outstanding == 1 {
                        WalkPhase::Finished
                    } else {
                        WalkPhase::Joining
                    },
                    tally: tally@,
                    children: children@,
                    entry,
                    outstanding: (outstanding - 1) as nat,
                },
                action: if outstanding == 1 {
                    WalkAction::Complete
                } else {
                    WalkAction::AwaitChild
                },
                emitted: emitted@,
            }),
    {
        let rest: usize = outstanding - 1;
        if rest == 0 {
            WalkStep {
                walk: DirectoryWalk {
                    path,
                    phase: WalkPhase::Finished,
                    tally,
                    children,
                    entry,
                    outstanding: rest,
                },
                action: WalkAction::Complete,
                emitted,
            }
        } else {
            WalkStep {
                walk: DirectoryWalk {
                    path,
                    phase: WalkPhase::Joining,
                    tally,
                    children,
                    entry,
                    outstanding: rest,
                },
                action: WalkAction::AwaitChild,
                emitted,
            }
        }
    }
}

} // verus!
