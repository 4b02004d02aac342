//! Progress events and the reporter that consumes them.
//!
//! Every traversal step announces what it counted as a short list of
//! [`ProgressUpdate`]s. The [`ProgressReporter`] is the consumer's side: it
//! keeps the displayed totals and says, for each event, what the display
//! should do next.

use vstd::prelude::*;
use vstd::string::StringExecFns;
use indicatif::HumanBytes;

verus! {

/// One discrete progress event.
#[derive(Debug, Clone, Copy, PartialEq, Eq, Structural)]
pub enum ProgressUpdate {
    /// A file or directory was counted.
    NewItemFound,
    /// That many bytes were added to the running size.
    BytesProcessed(u64),
    /// Something could not be read; counts are unaffected.
    ErrorEncountered,
    /// The scan is over; the reporter stops.
    ScanCompleted,
}

/// Number of `NewItemFound` events in a stream.
pub open spec fn items_in(stream: Seq<ProgressUpdate>) -> nat
    decreases stream.len(),
{
    if stream.len() == 0 {
        0
    } else {
        items_in(stream.drop_last()) + if stream.last() is NewItemFound {
            1nat
        } else {
            0nat
        }
    }
}

/// Sum of the sizes carried by the `BytesProcessed` events of a stream.
pub open spec fn bytes_in(stream: Seq<ProgressUpdate>) -> nat
    decreases stream.len(),
{
    if stream.len() == 0 {
        0
    } else {
        bytes_in(stream.drop_last()) + match stream.last() {
            ProgressUpdate::BytesProcessed(n) => n as nat,
            _ => 0nat,
        }
    }
}

/// Number of `ErrorEncountered` events in a stream.
pub open spec fn errors_in(stream: Seq<ProgressUpdate>) -> nat
    decreases stream.len(),
{
    if stream.len() == 0 {
        0
    } else {
        errors_in(stream.drop_last()) + if stream.last() is ErrorEncountered {
            1nat
        } else {
            0nat
        }
    }
}

/// Whether a stream holds no `ScanCompleted` event.
pub open spec fn still_running(stream: Seq<ProgressUpdate>) -> bool {
    forall|i: int| 0 <= i < stream.len() ==> !(#[trigger] stream[i] is ScanCompleted)
}

/// The three tallies of a concatenation are the sums of the parts' tallies.
pub proof fn tallies_of_concatenation(a: Seq<ProgressUpdate>, b: Seq<ProgressUpdate>)
    ensures
        items_in(a + b) == items_in(a) + items_in(b),
        bytes_in(a + b) == bytes_in(a) + bytes_in(b),
        errors_in(a + b) == errors_in(a) + errors_in(b),
    decreases b.len(),
{
    if b.len() == 0 {
        assert(a + b =~= a);
    } else {
        tallies_of_concatenation(a, b.drop_last());
        assert((a + b).drop_last() =~= a + b.drop_last());
        assert((a + b).last() == b.last());
    }
}

/// What the display has to do after one event.
#[derive(Debug, Clone, Copy, PartialEq, Eq, Structural)]
pub enum ReporterAction {
    /// Redraw the status line with these totals. `position` is set when the
    /// item counter itself moved; `errors` asks for the error indicator.
    Show { position: Option<u64>, items: u64, bytes: u64, errors: bool },
    /// Stop consuming and print the final summary with these totals.
    Finish { items: u64, bytes: u64 },
}

/// The character of a decimal digit.
pub open spec fn digit_char(d: nat) -> char {
    if d == 0 {
        '0'
    } else if d == 1 {
        '1'
    } else if d == 2 {
        '2'
    } else if d == 3 {
        '3'
    } else if d == 4 {
        '4'
    } else if d == 5 {
        '5'
    } else if d == 6 {
        '6'
    } else if d == 7 {
        '7'
    } else if d == 8 {
        '8'
    } else {
        '9'
    }
}

/// A number written in decimal, without leading zeros.
pub open spec fn decimal_text(n: nat) -> Seq<char>
    decreases n,
{
    if n < 10 {
        seq![digit_char(n)]
    } else {
        decimal_text(n / 10).push(digit_char(n % 10))
    }
}

/// What `indicatif::HumanBytes` displays for a number of bytes.
pub uninterp spec fn human_size_text(bytes: u64) -> Seq<char>;

/// The status line shown while the scan runs.
pub open spec fn status_text(items: u64, size: Seq<char>, errors: bool) -> Seq<char> {
    "Scanning... Items: "@ + decimal_text(items as nat) + ", Size: "@ + size + if errors {
        " (errors encountered)"@
    } else {
        Seq::<char>::empty()
    }
}

/// The summary shown when the scan is over.
pub open spec fn summary_text(items: u64, size: Seq<char>) -> Seq<char> {
    "Scan finished! Total Items: "@ + decimal_text(items as nat) + ", Total Size: "@ + size
}

/// The display of `indicatif::HumanBytes` for `bytes`: the size in binary
/// units, as that crate words it. Trusted to be the text that
/// `human_size_text` names.
#[verifier::external_body]
pub(crate) fn human_size(bytes: u64) -> (text: String)
    ensures
        text@ == human_size_text(bytes),
{
    format!("{}", HumanBytes(bytes))
}

fn digit_text(d: u64) -> (text: &'static str)
    requires
        d < 10,
    ensures
        text@ == seq![digit_char(d as nat)],
{
    proof {
        reveal_strlit("0");
        reveal_strlit("1");
        reveal_strlit("2");
        reveal_strlit("3");
        reveal_strlit("4");
        reveal_strlit("5");
        reveal_strlit("6");
        reveal_strlit("7");
        reveal_strlit("8");
        reveal_strlit("9");
    }
    let text = if d == 0 {
        "0"
    } else if d == 1 {
        "1"
    } else if d == 2 {
        "2"
    } else if d == 3 {
        "3"
    } else if d == 4 {
        "4"
    } else if d == 5 {
        "5"
    } else if d == 6 {
        "6"
    } else if d == 7 {
        "7"
    } else if d == 8 {
        "8"
    } else {
        "9"
    };
    assert(text@ =~= seq![digit_char(d as nat)]);
    text
}

/// Writes a number in decimal.
pub fn decimal(n: u64) -> (text: String)
    ensures
        text@ == decimal_text(n as nat),
    decreases n,
{
    if n < 10 {
        String::from_str(digit_text(n))
    } else {
        let mut text = decimal(n / 10);
        text.append(digit_text(n % 10));
        assert(text@ =~= decimal_text((n / 10) as nat).push(digit_char((n % 10) as nat)));
        text
    }
}

/// Words the status line from the item count and the size as displayed.
pub fn compose_status(items: u64, size: &str, errors: bool) -> (line: String)
    ensures
        line@ == status_text(items, size@, errors),
{
    let mut line = String::from_str("Scanning... Items: ");
    line.append(decimal(items).as_str());
    line.append(", Size: ");
    line.append(size);
    if errors {
        line.append(" (errors encountered)");
    }
    assert(line@ =~= status_text(items, size@, errors));
    line
}

/// Words the final summary from the item count and the size as displayed.
pub fn compose_summary(items: u64, size: &str) -> (line: String)
    ensures
        line@ == summary_text(items, size@),
{
    let mut line = String::from_str("Scan finished! Total Items: ");
    line.append(decimal(items).as_str());
    line.append(", Total Size: ");
    line.append(size);
    assert(line@ =~= summary_text(items, size@));
    line
}

impl ReporterAction {
    /// The text that the action puts on the display.
    pub open spec fn message_text(self) -> Seq<char> {
        match self {
            ReporterAction::Show { items, bytes, errors, .. } => status_text(
                items,
                human_size_text(bytes),
                errors,
            ),
            ReporterAction::Finish { items, bytes } => summary_text(items, human_size_text(bytes)),
        }
    }

    /// Words the message of the action: the status line while the scan
    /// runs, the summary at its end, with the size in human-readable units.
    pub fn message(&self) -> (line: String)
        ensures
            line@ == self.message_text(),
    {
        match self {
            ReporterAction::Show { items, bytes, errors, .. } => {
                let size = human_size(*bytes);
                compose_status(*items, size.as_str(), *errors)
            },
            ReporterAction::Finish { items, bytes } => {
                let size = human_size(*bytes);
                compose_summary(*items, size.as_str())
            },
        }
    }
}

/// Why the reporter refused an event.
#[derive(Debug, Clone, Copy, PartialEq, Eq, Structural)]
pub enum ReporterFault {
    /// The reporter had already finished.
    Closed,
    /// A displayed total would no longer fit its counter.
    CounterOverflow,
}

/// The reporter's totals as mathematical values.
pub struct ReporterView {
    pub items: nat,
    pub bytes: nat,
    pub finished: bool,
}

/// What the reporter answers to `update` in state `r`, and the state after.
pub open spec fn observe_spec(r: ReporterView, update: ProgressUpdate) -> Result<
    (ReporterView, ReporterAction),
    ReporterFault,
> {
    if r.finished {
        Err(ReporterFault::Closed)
    } else {
        match update {
            ProgressUpdate::NewItemFound => if r.items + 1 > u64::MAX {
                Err(ReporterFault::CounterOverflow)
            } else {
                Ok(
                    (
                        ReporterView { items: r.items + 1, ..r },
                        ReporterAction::Show {
                            position: Some((r.items + 1) as u64),
                            items: (r.items + 1) as u64,
                            bytes: r.bytes as u64,
                            errors: false,
                        },
                    ),
                )
            },
            ProgressUpdate::BytesProcessed(n) => if r.bytes + n > u64::MAX {
                Err(ReporterFault::CounterOverflow)
            } else {
                Ok(
                    (
                        ReporterView { bytes: r.bytes + n as nat, ..r },
                        ReporterAction::Show {
                            position: None,
                            items: r.items as u64,
                            bytes: (r.bytes + n) as u64,
                            errors: false,
                        },
                    ),
                )
            },
            ProgressUpdate::ErrorEncountered => Ok(
                (
                    r,
                    ReporterAction::Show {
                        position: None,
                        items: r.items as u64,
                        bytes: r.bytes as u64,
                        errors: true,
                    },
                ),
            ),
            ProgressUpdate::ScanCompleted => Ok(
                (
                    ReporterView { finished: true, ..r },
                    ReporterAction::Finish { items: r.items as u64, bytes: r.bytes as u64 },
                ),
            ),
        }
    }
}

/// The reporter's state after a whole stream, or the first fault on the way.
pub open spec fn replay(r: ReporterView, stream: Seq<ProgressUpdate>) -> Result<
    ReporterView,
    ReporterFault,
>
    decreases stream.len(),
{
    if stream.len() == 0 {
        Ok(r)
    } else {
        match replay(r, stream.drop_last()) {
            Ok(before) => match observe_spec(before, stream.last()) {
                Ok(step) => Ok(step.0),
                Err(fault) => Err(fault),
            },
            Err(fault) => Err(fault),
        }
    }
}

/// Consumer of progress events: keeps the displayed item and byte totals.
#[derive(Debug)]
pub struct ProgressReporter {
    total_items: u64,
    total_bytes: u64,
    finished: bool,
}

impl View for ProgressReporter {
    type V = ReporterView;

    closed spec fn view(&self) -> ReporterView {
        ReporterView {
            items: self.total_items as nat,
            bytes: self.total_bytes as nat,
            finished: self.finished,
        }
    }
}

impl ProgressReporter {
    /// A reporter that has seen nothing yet.
    pub fn new() -> (reporter: Self)
        ensures
            reporter@ == (ReporterView { items: 0, bytes: 0, finished: false }),
    {
        ProgressReporter { total_items: 0, total_bytes: 0, finished: false }
    }

    /// Items seen so far.
    pub fn total_items(&self) -> (n: u64)
        ensures
            n == self@.items,
    {
        self.total_items
    }

    /// Bytes seen so far.
    pub fn total_bytes(&self) -> (n: u64)
        ensures
            n == self@.bytes,
    {
        self.total_bytes
    }

    /// Whether the reporter has stopped consuming.
    pub fn is_finished(&self) -> (b: bool)
        ensures
            b == self@.finished,
    {
        self.finished
    }

    /// Takes one event in arrival order and says what the display does next.
    ///
    /// A refused event leaves the reporter as it was.
    pub fn observe(&mut self, update: ProgressUpdate) -> (outcome: Result<
        ReporterAction,
        ReporterFault,
    >)
        ensures
            match observe_spec(old(self)@, update) {
                Ok(step) => {
                    &&& outcome == Ok::<ReporterAction, ReporterFault>(step.1)
                    &&& final(self)@ == step.0
                },
                Err(fault) => {
                    &&& outcome == Err::<ReporterAction, ReporterFault>(fault)
                    &&& final(self)@ == old(self)@
                },
            },
    {
        if self.finished {
            return Err(ReporterFault::Closed);
        }
        match update {
            ProgressUpdate::NewItemFound => {
                match self.total_items.checked_add(1) {
                    Some(items) => {
                        self.total_items = items;
                        Ok(
                            ReporterAction::Show {
                                position: Some(items),
                                items,
                                bytes: self.total_bytes,
                                errors: false,
                            },
                        )
                    },
                    None => Err(ReporterFault::CounterOverflow),
                }
            },
            ProgressUpdate::BytesProcessed(n) => {
                match self.total_bytes.checked_add(n) {
                    Some(bytes) => {
                        self.total_bytes = bytes;
                        Ok(
                            ReporterAction::Show {
                                position: None,
                                items: self.total_items,
                                bytes,
                                errors: false,
                            },
                        )
                    },
                    None => Err(ReporterFault::CounterOverflow),
                }
            },
            ProgressUpdate::ErrorEncountered => Ok(
                ReporterAction::Show {
                    position: None,
                    items: self.total_items,
                    bytes: self.total_bytes,
                    errors: true,
                },
            ),
            ProgressUpdate::ScanCompleted => {
                self.finished = true;
                Ok(ReporterAction::Finish { items: self.total_items, bytes: self.total_bytes })
            },
        }
    }

    /// The event source went away without a `ScanCompleted`: the reporter
    /// stops and summarises what it has.
    pub fn close(&mut self) -> (action: ReporterAction)
        ensures
            final(self)@ == (ReporterView { finished: true, ..old(self)@ }),
            action == (ReporterAction::Finish {
                items: old(self)@.items as u64,
                bytes: old(self)@.bytes as u64,
            }),
    {
        self.finished = true;
        ReporterAction::Finish { items: self.total_items, bytes: self.total_bytes }
    }
}

/// A reporter that consumes a stream without fault and without a completion
/// event shows exactly the stream's item count and byte sum, and is still
/// running.
pub proof fn reporter_shows_stream_totals(stream: Seq<ProgressUpdate>)
    requires
        still_running(stream),
        replay(ReporterView { items: 0, bytes: 0, finished: false }, stream) is Ok,
    ensures
        replay(ReporterView { items: 0, bytes: 0, finished: false }, stream) == Ok::<
            ReporterView,
            ReporterFault,
        >(ReporterView { items: items_in(stream), bytes: bytes_in(stream), finished: false }),
    decreases stream.len(),
{
    if stream.len() > 0 {
        let init = ReporterView { items: 0, bytes: 0, finished: false };
        let prefix = stream.drop_last();
        assert(still_running(prefix)) by {
            assert forall|i: int| 0 <= i < prefix.len() implies !(#[trigger] prefix[i]
                is ScanCompleted) by {
                assert(prefix[i] == stream[i]);
            }
        }
        assert(!(stream[stream.len() - 1] is ScanCompleted));
        reporter_shows_stream_totals(prefix);
    }
}

/// Error events never move the displayed totals.
pub proof fn errors_leave_totals(r: ReporterView)
    requires
        !r.finished,
    ensures
        observe_spec(r, ProgressUpdate::ErrorEncountered) matches Ok(step) && step.0 == r,
{
}

} // verus!
