//! What holds of every walk, whatever the filesystem answers.
//!
//! The statements here are about [`walk_next`], the transition that
//! [`DirectoryWalk::step`](crate::walk::DirectoryWalk::step) implements,
//! and about whole sequences of events taken one after the other.

use vstd::prelude::*;
use std::path::PathBuf;
use crate::pattern::{is_hidden_name, selects};
use crate::progress::{bytes_in, errors_in, items_in, tallies_of_concatenation, ProgressUpdate};
use crate::scanner::{PartialResult, ScanResult, ScannerConfig, Tally};
use std::time::Duration;
use crate::walk::{
    hides, silent, walk_next, walk_start, EntryKind, FoundEntry, TargetKind, WalkAction, WalkEvent,
    WalkFault, WalkPhase, WalkView,
};

verus! {

/// A walk and everything it has announced.
pub struct WalkRun {
    pub walk: WalkView,
    pub said: Seq<ProgressUpdate>,
}

/// The walk reached from `w` by taking `events` one after the other, with
/// all that was announced on the way; or the first fault.
pub open spec fn walk_run(w: WalkView, config: ScannerConfig, events: Seq<WalkEvent>) -> Result<
    WalkRun,
    WalkFault,
>
    decreases events.len(),
{
    if events.len() == 0 {
        Ok(WalkRun { walk: w, said: Seq::empty() })
    } else {
        match walk_run(w, config, events.drop_last()) {
            Ok(before) => match walk_next(before.walk, config, events.last()) {
                Ok(step) => Ok(WalkRun { walk: step.walk, said: before.said + step.emitted }),
                Err(fault) => Err(fault),
            },
            Err(fault) => Err(fault),
        }
    }
}

/// The results of the children that `events` report as finished, merged in
/// the order in which they arrive.
pub open spec fn absorbed(events: Seq<WalkEvent>) -> Tally
    decreases events.len(),
{
    if events.len() == 0 {
        Tally::empty()
    } else {
        match events.last() {
            WalkEvent::ChildFinished(child) => absorbed(events.drop_last()).merged(child@),
            _ => absorbed(events.drop_last()),
        }
    }
}

/// Number of entries that `events` settle as a file or as a directory.
pub open spec fn visited(events: Seq<WalkEvent>) -> nat
    decreases events.len(),
{
    if events.len() == 0 {
        0
    } else {
        visited(events.drop_last()) + match events.last() {
            WalkEvent::KindProbed(EntryKind::Directory) => 1nat,
            WalkEvent::TargetResolved { kind: TargetKind::File, .. } => 1nat,
            WalkEvent::TargetResolved { kind: TargetKind::Directory, .. } => 1nat,
            WalkEvent::SizeRead(_) => 1nat,
            _ => 0nat,
        }
    }
}

/// Number of children that `events` report as lost.
pub open spec fn lost(events: Seq<WalkEvent>) -> nat
    decreases events.len(),
{
    if events.len() == 0 {
        0
    } else {
        lost(events.drop_last()) + if events.last() is ChildLost {
            1nat
        } else {
            0nat
        }
    }
}

/// Whether nothing in `events` reports a failure.
pub open spec fn trouble_free(events: Seq<WalkEvent>) -> bool {
    forall|i: int| 0 <= i < events.len() ==> !(#[trigger] events[i]).is_failure()
}

proof fn announcement_tallies(len: u64)
    ensures
        items_in(Seq::<ProgressUpdate>::empty()) == 0,
        bytes_in(Seq::<ProgressUpdate>::empty()) == 0,
        errors_in(Seq::<ProgressUpdate>::empty()) == 0,
        items_in(seq![ProgressUpdate::NewItemFound]) == 1,
        bytes_in(seq![ProgressUpdate::NewItemFound]) == 0,
        errors_in(seq![ProgressUpdate::NewItemFound]) == 0,
        items_in(seq![ProgressUpdate::ErrorEncountered]) == 0,
        bytes_in(seq![ProgressUpdate::ErrorEncountered]) == 0,
        errors_in(seq![ProgressUpdate::ErrorEncountered]) == 1,
        items_in(seq![ProgressUpdate::NewItemFound, ProgressUpdate::BytesProcessed(len)]) == 1,
        bytes_in(seq![ProgressUpdate::NewItemFound, ProgressUpdate::BytesProcessed(len)]) == len,
        errors_in(seq![ProgressUpdate::NewItemFound, ProgressUpdate::BytesProcessed(len)]) == 0,
{
    reveal_with_fuel(items_in, 3);
    reveal_with_fuel(bytes_in, 3);
    reveal_with_fuel(errors_in, 3);
    let pair = seq![ProgressUpdate::NewItemFound, ProgressUpdate::BytesProcessed(len)];
    assert(pair.drop_last() =~= seq![ProgressUpdate::NewItemFound]);
    assert(seq![ProgressUpdate::NewItemFound].drop_last() =~= Seq::<ProgressUpdate>::empty());
    assert(seq![ProgressUpdate::ErrorEncountered].drop_last() =~= Seq::<
        ProgressUpdate,
    >::empty());
}

/// What one step adds: the entries, bytes and errors it counts are the
/// ones it announces, apart from what a finished child brings along and
/// from a lost child, which is announced as an error but recorded nowhere.
/// Before the slot is given back, the children found are exactly the
/// directories counted, and nothing is outstanding while the listing runs.
pub proof fn step_counts_what_it_announces(w: WalkView, config: ScannerConfig, event: WalkEvent)
    requires
        walk_next(w, config, event) is Ok,
    ensures
        ({
            let step = walk_next(w, config, event)->Ok_0;
            let brought = match event {
                WalkEvent::ChildFinished(child) => child@,
                _ => Tally::empty(),
            };
            let settled: nat = match event {
                WalkEvent::KindProbed(EntryKind::Directory) => 1,
                WalkEvent::TargetResolved { kind: TargetKind::File, .. } => 1,
                WalkEvent::TargetResolved { kind: TargetKind::Directory, .. } => 1,
                WalkEvent::SizeRead(_) => 1,
                _ => 0,
            };
            &&& step.walk.tally.entries() == w.tally.entries() + items_in(step.emitted)
                + brought.entries()
            &&& items_in(step.emitted) == settled
            &&& step.walk.tally.size == w.tally.size + bytes_in(step.emitted) + brought.size
            &&& step.walk.tally.errors.len() + (if event is ChildLost {
                1nat
            } else {
                0nat
            }) == w.tally.errors.len() + errors_in(step.emitted) + brought.errors.len()
            &&& !event.is_failure() ==> step.walk.tally.errors == w.tally.errors + brought.errors
            &&& step.walk.path == w.path
        }),
{
    let len: u64 = match event {
        WalkEvent::TargetResolved { len, .. } => len,
        WalkEvent::SizeRead(len) => len,
        _ => 0,
    };
    announcement_tallies(len);
    let step = walk_next(w, config, event)->Ok_0;
    if !event.is_failure() {
        let brought = match event {
            WalkEvent::ChildFinished(child) => child@,
            _ => Tally::empty(),
        };
        assert(step.walk.tally.errors =~= w.tally.errors + brought.errors);
    }
}

/// A walk that starts fresh counts what it announces.
///
/// After any sequence of events taken without fault, the entries counted
/// are the items announced plus the entries that finished children
/// brought; they are also the entries that the events settled as a file or
/// a directory. Bytes add up in the same way. Every error announced is on
/// the error list, except that a lost child is announced and not listed.
pub proof fn walk_counts_what_it_announces(
    path: PathBuf,
    config: ScannerConfig,
    events: Seq<WalkEvent>,
)
    requires
        walk_run(walk_start(path), config, events) is Ok,
    ensures
        ({
            let run = walk_run(walk_start(path), config, events)->Ok_0;
            let brought = absorbed(events);
            &&& run.walk.path == path
            &&& run.walk.tally.entries() == items_in(run.said) + brought.entries()
            &&& items_in(run.said) == visited(events)
            &&& run.walk.tally.size == bytes_in(run.said) + brought.size
            &&& run.walk.tally.errors.len() + lost(events) == errors_in(run.said)
                + brought.errors.len()
        }),
    decreases events.len(),
{
    if events.len() == 0 {
        announcement_tallies(0);
    } else {
        let prefix = events.drop_last();
        walk_counts_what_it_announces(path, config, prefix);
        let before = walk_run(walk_start(path), config, prefix)->Ok_0;
        step_counts_what_it_announces(before.walk, config, events.last());
        let step = walk_next(before.walk, config, events.last())->Ok_0;
        tallies_of_concatenation(before.said, step.emitted);
    }
}

/// Where nothing fails, nothing is recorded as an error.
///
/// A walk that starts fresh and meets no failure has on its error list
/// exactly the errors that its finished children brought, in the order in
/// which the children arrived; with children free of errors the list is
/// empty.
pub proof fn no_failure_no_error(path: PathBuf, config: ScannerConfig, events: Seq<WalkEvent>)
    requires
        walk_run(walk_start(path), config, events) is Ok,
        trouble_free(events),
    ensures
        walk_run(walk_start(path), config, events)->Ok_0.walk.tally.errors == absorbed(
            events,
        ).errors,
        absorbed(events).errors.len() == 0 ==> walk_run(
            walk_start(path),
            config,
            events,
        )->Ok_0.walk.tally.errors.len() == 0,
    decreases events.len(),
{
    if events.len() > 0 {
        let prefix = events.drop_last();
        assert(trouble_free(prefix)) by {
            assert forall|i: int| 0 <= i < prefix.len() implies !(#[trigger] prefix[i]).is_failure() by {
                assert(prefix[i] == events[i]);
            }
        }
        assert(!events[events.len() - 1].is_failure());
        no_failure_no_error(path, config, prefix);
        let before = walk_run(walk_start(path), config, prefix)->Ok_0;
        step_counts_what_it_announces(before.walk, config, events.last());
        let step = walk_next(before.walk, config, events.last())->Ok_0;
        match events.last() {
            WalkEvent::ChildFinished(child) => {
                assert(absorbed(events).errors =~= absorbed(prefix).errors + child@.errors);
            },
            _ => {
                assert(absorbed(events).errors =~= absorbed(prefix).errors + Seq::<
                    crate::scanner::ScanError,
                >::empty());
            },
        }
    } else {
        assert(absorbed(events).errors =~= Seq::<crate::scanner::ScanError>::empty());
    }
}

/// Hidden entries leave no trace.
///
/// With hidden entries excluded, an entry whose name starts with a dot
/// changes nothing: nothing is counted, nothing announced, the entry is
/// neither examined nor kept for descent, and the listing goes on. With
/// hidden entries included, the same entry is examined like any other.
pub proof fn hidden_entries_leave_no_trace(
    w: WalkView,
    config: ScannerConfig,
    path: PathBuf,
    name: String,
)
    requires
        w.phase is Listing,
        is_hidden_name(name@),
    ensures
        !config.include_hidden ==> walk_next(
            w,
            config,
            WalkEvent::EntryFound { path, name: Some(name) },
        ) == silent(w, WalkAction::NextEntry),
        config.include_hidden ==> walk_next(
            w,
            config,
            WalkEvent::EntryFound { path, name: Some(name) },
        ) == silent(
            WalkView {
                phase: WalkPhase::Probing,
                entry: Some(FoundEntry { path, name: Some(name) }),
                ..w
            },
            WalkAction::ProbeKind,
        ),
{
}

/// A symbolic link counts only when links are followed.
///
/// Without link-following, a symbolic link changes no count, announces
/// nothing and is not resolved. With it, the link is resolved, and a link
/// to a regular file of `len` bytes then counts as one file of `len`
/// bytes, announced once; it joins neither the children nor the matches.
pub proof fn links_count_only_when_followed(w: WalkView, config: ScannerConfig, len: u64)
    requires
        w.phase is Probing,
        w.entry is Some,
        w.tally.with_file(len as nat).fits(),
    ensures
        ({
            let probed = walk_next(w, config, WalkEvent::KindProbed(EntryKind::Symlink));
            &&& probed matches Ok(first)
            &&& first.emitted.len() == 0
            &&& first.walk.tally == w.tally
            &&& first.walk.children == w.children
            &&& if config.follow_symlinks {
                &&& first.action is ResolveTarget
                &&& walk_next(
                    first.walk,
                    config,
                    WalkEvent::TargetResolved { kind: TargetKind::File, len },
                ) matches Ok(second)
                &&& second.walk.tally == w.tally.with_file(len as nat)
                &&& second.walk.children == w.children
                &&& second.emitted == seq![
                    ProgressUpdate::NewItemFound,
                    ProgressUpdate::BytesProcessed(len),
                ]
                &&& second.action is NextEntry
            } else {
                &&& first.action is NextEntry
                &&& first.walk.phase is Listing
                &&& first.walk.entry is None
            }
        }),
{
}

/// Files are selected by name alone.
///
/// A regular file whose size was read joins the matching files exactly
/// when the configured pattern matches its name; the path that leads to it
/// plays no part in the decision, and two names with the same text are
/// decided alike.
pub proof fn files_are_selected_by_name(
    w: WalkView,
    config: ScannerConfig,
    len: u64,
    other_name: Option<String>,
)
    requires
        w.phase is Sizing,
        w.entry is Some,
        w.tally.with_file(len as nat).fits(),
    ensures
        ({
            let entry = w.entry->Some_0;
            let chosen = match (config.file_pattern, entry.name) {
                (Some(pattern), Some(name)) => crate::pattern::pattern_finds(pattern@, name@),
                _ => false,
            };
            &&& walk_next(w, config, WalkEvent::SizeRead(len)) matches Ok(step)
            &&& step.walk.tally.matching_files == if chosen {
                w.tally.matching_files.push(entry.path)
            } else {
                w.tally.matching_files
            }
            &&& (other_name matches Some(other) && entry.name matches Some(name) && other@
                == name@) ==> selects(config.file_pattern, other_name) == chosen
        }),
{
}

/// The slot is held for the listing and for nothing else.
///
/// A step takes the slot only when the limiter grants it and gives it up
/// only when the release is confirmed. Whatever reads the directory is
/// asked for while the slot is held; children are waited for, and the walk
/// ends, only without it. The slot goes back before any child is awaited.
pub proof fn slot_is_held_for_listing_only(w: WalkView, config: ScannerConfig, event: WalkEvent)
    requires
        walk_next(w, config, event) is Ok,
    ensures
        ({
            let step = walk_next(w, config, event)->Ok_0;
            let held = w.phase.holds_slot();
            let holds = step.walk.phase.holds_slot();
            &&& (!held && holds) ==> event is SlotGranted
            &&& (held && !holds) ==> event is SlotReleased
            &&& step.action.reads_directory() ==> holds
            &&& step.action is ReleaseSlot ==> step.walk.phase is Releasing
            &&& (step.action is AwaitChild || step.action is Complete) ==> !holds
            &&& !(step.action is AcquireSlot)
        }),
{
}

/// One event of a traversal, together with the record of the child's own
/// traversal where the event reports a child as finished.
pub struct TraceStep {
    pub event: WalkEvent,
    pub below: Option<ScanTrace>,
}

/// The record of a whole traversal: the directory walked, and the events
/// of its walk in order, each finished child with its own record.
pub struct ScanTrace {
    pub path: PathBuf,
    pub steps: Seq<TraceStep>,
}

/// The events of a record, without what lies below them.
pub open spec fn events_of(steps: Seq<TraceStep>) -> Seq<WalkEvent> {
    Seq::new(steps.len(), |i: int| steps[i].event)
}

/// Whether a record hangs together: every result that a child is reported
/// to have finished with is the result of the child's own recorded walk,
/// run to its end, and the child's record hangs together in turn.
pub open spec fn consistent(config: ScannerConfig, steps: Seq<TraceStep>) -> bool
    decreases steps,
{
    steps.len() > 0 ==> {
        &&& consistent(config, steps.drop_last())
        &&& match steps.last().event {
            WalkEvent::ChildFinished(child) => {
                &&& steps.last().below matches Some(sub)
                &&& consistent(config, sub.steps)
                &&& walk_run(walk_start(sub.path), config, events_of(sub.steps)) matches Ok(run)
                &&& run.walk.phase is Finished
                &&& child@ == run.walk.tally
            },
            _ => true,
        }
    }
}

/// Number of entries that a record settles as a file or as a directory,
/// in the directory itself and in every directory below it.
pub open spec fn entries_settled(steps: Seq<TraceStep>) -> nat
    decreases steps,
{
    if steps.len() == 0 {
        0
    } else {
        entries_settled(steps.drop_last()) + visited(seq![steps.last().event]) + match (
            steps.last().event,
            steps.last().below,
        ) {
            (WalkEvent::ChildFinished(_), Some(sub)) => entries_settled(sub.steps),
            _ => 0,
        }
    }
}

/// Whether a record holds no failure, neither in the directory itself nor
/// anywhere below it.
pub open spec fn failure_free(steps: Seq<TraceStep>) -> bool
    decreases steps,
{
    steps.len() > 0 ==> {
        &&& failure_free(steps.drop_last())
        &&& !steps.last().event.is_failure()
        &&& match (steps.last().event, steps.last().below) {
            (WalkEvent::ChildFinished(_), Some(sub)) => failure_free(sub.steps),
            _ => true,
        }
    }
}

proof fn events_of_prefix(steps: Seq<TraceStep>)
    requires
        steps.len() > 0,
    ensures
        events_of(steps).drop_last() == events_of(steps.drop_last()),
        events_of(steps).last() == steps.last().event,
        events_of(steps).len() == steps.len(),
{
    assert(events_of(steps).drop_last() =~= events_of(steps.drop_last()));
}

proof fn visited_of_one(event: WalkEvent)
    ensures
        visited(seq![event]) == match event {
            WalkEvent::KindProbed(EntryKind::Directory) => 1nat,
            WalkEvent::TargetResolved { kind: TargetKind::File, .. } => 1nat,
            WalkEvent::TargetResolved { kind: TargetKind::Directory, .. } => 1nat,
            WalkEvent::SizeRead(_) => 1nat,
            _ => 0nat,
        },
{
    reveal_with_fuel(visited, 2);
    assert(seq![event].drop_last() =~= Seq::<WalkEvent>::empty());
}

/// A scan counts every entry once.
///
/// In a record that hangs together, the files and directories counted at
/// the end of a walk are exactly the entries that the walk and all walks
/// below it settled as a file or as a directory: none is left out, none is
/// counted twice, and entries passed over count nowhere.
pub proof fn scan_counts_every_entry_once(
    path: PathBuf,
    config: ScannerConfig,
    steps: Seq<TraceStep>,
)
    requires
        consistent(config, steps),
        walk_run(walk_start(path), config, events_of(steps)) is Ok,
    ensures
        walk_run(walk_start(path), config, events_of(steps))->Ok_0.walk.tally.entries()
            == entries_settled(steps),
    decreases steps, 1nat,
{
    walk_counts_what_it_announces(path, config, events_of(steps));
    settled_below(config, steps);
}

proof fn settled_below(config: ScannerConfig, steps: Seq<TraceStep>)
    requires
        consistent(config, steps),
    ensures
        visited(events_of(steps)) + absorbed(events_of(steps)).entries() == entries_settled(steps),
    decreases steps, 0nat,
{
    if steps.len() > 0 {
        events_of_prefix(steps);
        settled_below(config, steps.drop_last());
        visited_of_one(steps.last().event);
        match steps.last().event {
            WalkEvent::ChildFinished(child) => {
                let sub = steps.last().below->Some_0;
                scan_counts_every_entry_once(sub.path, config, sub.steps);
            },
            _ => {},
        }
    }
}

/// A scan that meets no failure records no error.
///
/// In a record that hangs together and holds no failure at any depth, the
/// error list at the end of the walk is empty.
pub proof fn scan_without_failure_has_no_errors(
    path: PathBuf,
    config: ScannerConfig,
    steps: Seq<TraceStep>,
)
    requires
        consistent(config, steps),
        failure_free(steps),
        walk_run(walk_start(path), config, events_of(steps)) is Ok,
    ensures
        walk_run(walk_start(path), config, events_of(steps))->Ok_0.walk.tally.errors.len() == 0,
    decreases steps, 1nat,
{
    nothing_failed_below(config, steps);
    no_failure_no_error(path, config, events_of(steps));
}

proof fn nothing_failed_below(config: ScannerConfig, steps: Seq<TraceStep>)
    requires
        consistent(config, steps),
        failure_free(steps),
    ensures
        trouble_free(events_of(steps)),
        absorbed(events_of(steps)).errors.len() == 0,
    decreases steps, 0nat,
{
    if steps.len() > 0 {
        events_of_prefix(steps);
        nothing_failed_below(config, steps.drop_last());
        let events = events_of(steps);
        assert forall|i: int| 0 <= i < events.len() implies !(#[trigger] events[i]).is_failure() by {
            if i < events.len() - 1 {
                assert(events[i] == events.drop_last()[i]);
            }
        }
        match steps.last().event {
            WalkEvent::ChildFinished(child) => {
                let sub = steps.last().below->Some_0;
                scan_without_failure_has_no_errors(sub.path, config, sub.steps);
            },
            _ => {},
        }
    }
}

/// The final result counts the root and every entry found.
///
/// When the traversal of the root is on record and the record hangs
/// together, the files and directories of the final result are the
/// entries settled anywhere in the tree, and the root; so there is always
/// at least one directory. If nothing failed anywhere, the result lists
/// no error.
pub proof fn result_counts_root_and_entries(
    config: ScannerConfig,
    steps: Seq<TraceStep>,
    elapsed: Duration,
    result: ScanResult,
)
    requires
        consistent(config, steps),
        walk_run(walk_start(config.target_path), config, events_of(steps)) matches Ok(run)
            && result.completes(run.walk.tally, elapsed),
    ensures
        result.total_files + result.total_directories == entries_settled(steps) + 1,
        result.total_directories >= 1,
        failure_free(steps) ==> result.errors@.len() == 0,
{
    scan_counts_every_entry_once(config.target_path, config, steps);
    if failure_free(steps) {
        scan_without_failure_has_no_errors(config.target_path, config, steps);
    }
}

/// One event of a scan, addressed to one of its walks.
pub struct PoolStep {
    pub walk: int,
    pub event: WalkEvent,
}

/// The walks of a scan after `steps`, each event taken by the walk it is
/// addressed to; `None`, if a walk refuses its event or does not exist.
pub open spec fn pool_run(walks: Seq<WalkView>, config: ScannerConfig, steps: Seq<PoolStep>)
    -> Option<Seq<WalkView>>
    decreases steps.len(),
{
    if steps.len() == 0 {
        Some(walks)
    } else {
        match pool_run(walks, config, steps.drop_last()) {
            Some(before) => {
                let last = steps.last();
                if 0 <= last.walk < before.len() {
                    match walk_next(before[last.walk], config, last.event) {
                        Ok(step) => Some(before.update(last.walk, step.walk)),
                        Err(_) => None,
                    }
                } else {
                    None
                }
            },
            None => None,
        }
    }
}

/// Number of walks that hold a slot.
pub open spec fn holders(walks: Seq<WalkView>) -> nat
    decreases walks.len(),
{
    if walks.len() == 0 {
        0
    } else {
        holders(walks.drop_last()) + if walks.last().phase.holds_slot() {
            1nat
        } else {
            0nat
        }
    }
}

/// Slots granted by the limiter minus slots it got back.
pub open spec fn slots_out(steps: Seq<PoolStep>) -> int
    decreases steps.len(),
{
    if steps.len() == 0 {
        0
    } else {
        slots_out(steps.drop_last()) + if steps.last().event is SlotGranted {
            1int
        } else if steps.last().event is SlotReleased {
            -1int
        } else {
            0int
        }
    }
}

proof fn holders_after_update(walks: Seq<WalkView>, i: int, walk: WalkView)
    requires
        0 <= i < walks.len(),
    ensures
        holders(walks.update(i, walk)) + (if walks[i].phase.holds_slot() {
            1int
        } else {
            0int
        }) == holders(walks) + (if walk.phase.holds_slot() {
            1int
        } else {
            0int
        }),
    decreases walks.len(),
{
    let updated = walks.update(i, walk);
    if i == walks.len() - 1 {
        assert(updated.drop_last() =~= walks.drop_last());
    } else {
        holders_after_update(walks.drop_last(), i, walk);
        assert(updated.drop_last() =~= walks.drop_last().update(i, walk));
    }
}

/// As many walks hold a slot as the limiter has given out.
///
/// However the events of the walks of a scan interleave, the number of
/// walks that hold a slot changes exactly with the slots that the limiter
/// grants and gets back. Starting from walks that hold none, no more
/// directories are being listed at any time than slots are out; a limiter
/// that never has more than its capacity out thereby bounds the listings.
pub proof fn listings_never_exceed_slots_out(
    walks: Seq<WalkView>,
    config: ScannerConfig,
    steps: Seq<PoolStep>,
)
    requires
        pool_run(walks, config, steps) is Some,
    ensures
        holders(pool_run(walks, config, steps)->Some_0) == holders(walks) + slots_out(steps),
        pool_run(walks, config, steps)->Some_0.len() == walks.len(),
    decreases steps.len(),
{
    if steps.len() > 0 {
        listings_never_exceed_slots_out(walks, config, steps.drop_last());
        let before = pool_run(walks, config, steps.drop_last())->Some_0;
        let last = steps.last();
        let step = walk_next(before[last.walk], config, last.event)->Ok_0;
        slot_is_held_for_listing_only(before[last.walk], config, last.event);
        holders_after_update(before, last.walk, step.walk);
        let held = before[last.walk].phase.holds_slot();
        let holds = step.walk.phase.holds_slot();
        assert(last.event is SlotGranted ==> !held && holds);
        assert(last.event is SlotReleased ==> held && !holds);
    }
}

/// Children may finish in any order.
///
/// Whether a waiting walk takes in the results of two children in one
/// order or the other, it ends up in the same phase with the same counts,
/// the same byte total, the same matching files and the same errors; only
/// the order within the two lists can differ.
pub proof fn children_may_finish_in_any_order(
    w: WalkView,
    config: ScannerConfig,
    a: PartialResult,
    b: PartialResult,
)
    requires
        w.phase is Joining,
        w.outstanding >= 2,
        w.tally.merged(a@).merged(b@).fits(),
    ensures
        ({
            let first_a = walk_next(w, config, WalkEvent::ChildFinished(a));
            let first_b = walk_next(w, config, WalkEvent::ChildFinished(b));
            &&& first_a matches Ok(after_a)
            &&& first_b matches Ok(after_b)
            &&& walk_next(after_a.walk, config, WalkEvent::ChildFinished(b)) matches Ok(ab)
            &&& walk_next(after_b.walk, config, WalkEvent::ChildFinished(a)) matches Ok(ba)
            &&& ab.action == ba.action
            &&& ab.walk.phase == ba.walk.phase
            &&& ab.walk.outstanding == ba.walk.outstanding
            &&& ab.walk.tally.files == ba.walk.tally.files
            &&& ab.walk.tally.directories == ba.walk.tally.directories
            &&& ab.walk.tally.size == ba.walk.tally.size
            &&& ab.walk.tally.matching_files.to_multiset()
                == ba.walk.tally.matching_files.to_multiset()
            &&& ab.walk.tally.errors.to_multiset() == ba.walk.tally.errors.to_multiset()
        }),
{
    let base = w.tally;
    vstd::seq_lib::lemma_multiset_commutative(base.matching_files + a@.matching_files, b@.matching_files);
    vstd::seq_lib::lemma_multiset_commutative(base.matching_files, a@.matching_files);
    vstd::seq_lib::lemma_multiset_commutative(base.matching_files + b@.matching_files, a@.matching_files);
    vstd::seq_lib::lemma_multiset_commutative(base.matching_files, b@.matching_files);
    vstd::seq_lib::lemma_multiset_commutative(base.errors + a@.errors, b@.errors);
    vstd::seq_lib::lemma_multiset_commutative(base.errors, a@.errors);
    vstd::seq_lib::lemma_multiset_commutative(base.errors + b@.errors, a@.errors);
    vstd::seq_lib::lemma_multiset_commutative(base.errors, b@.errors);
}

} // verus!
