//! The events of a paste transaction and the order they come in.

use vstd::prelude::*;
use crate::clipboard_error::{ClipboardError, ErrorView};
use crate::data_access::{AccessView, DataAccess, InternalDataAccess};

verus! {
/// A value that may be handed to the thread that delivers events.
pub trait WasmOrSend: Send {
}

impl<T: Send> WasmOrSend for T {
}

/// The transaction that an event belongs to. Two events come from the same
/// request exactly when their sources are equal.
#[derive(Debug, Clone, Copy, PartialEq, Eq, Structural)]
pub struct ClipboardEventSource {
    pub(crate) value: usize,
}

impl View for ClipboardEventSource {
    type V = usize;

    /// The number behind the identity: requests are numbered in the order in
    /// which they were made.
    closed spec fn view(&self) -> usize {
        self.value
    }
}

impl ClipboardEventSource {
    pub(crate) fn numbered(value: usize) -> (source: Self)
        ensures
            source@ == value,
    {
        ClipboardEventSource { value }
    }

    /// The number behind the identity.
    pub fn value(&self) -> (value: usize)
        ensures
            value == self@,
    {
        self.value
    }
}

/// Two sources are the same exactly when their numbers are.
pub proof fn lemma_source_is_its_number(first: ClipboardEventSource, second: ClipboardEventSource)
    ensures
        (first@ == second@) == (first == second),
{
}

/// What a handler is told of a transaction: that it has started, and then
/// either why it failed or where its content can be fetched.
pub enum ClipboardEvent<'a, P: InternalDataAccess> {
    StartedPasteHandling { source: ClipboardEventSource },
    FailedPasteHandling { error: ClipboardError, source: ClipboardEventSource },
    PasteResult { data: &'a DataAccess<P>, source: ClipboardEventSource },
}

/// Receives every event of every transaction, one call per event.
pub trait ClipboardHandler: WasmOrSend + Sized + 'static {
    /// The adapter whose paste results this handler reads.
    type Access: InternalDataAccess;

    fn handle_event(&mut self, event: ClipboardEvent<'_, Self::Access>);
}

/// What was delivered: the kind of event, its source, and for a paste result
/// the value of the handle that came with it.
pub enum EventRecord {
    Started { source: usize },
    Failed { source: usize, error: ErrorView },
    PasteResult { source: usize, access: AccessView },
}

impl EventRecord {
    pub open spec fn source(self) -> usize {
        match self {
            EventRecord::Started { source } => source,
            EventRecord::Failed { source, .. } => source,
            EventRecord::PasteResult { source, .. } => source,
        }
    }

    /// Whether the event ends its transaction.
    pub open spec fn is_terminal(self) -> bool {
        !(self is Started)
    }
}

/// How far one transaction has come in a sequence of delivered events.
pub enum Progress {
    /// No event of the transaction was delivered.
    NotStarted,
    /// `Started` was delivered, and nothing since.
    InFlight,
    /// `Started` was delivered, and after it one terminal event.
    Finished,
    /// Anything else: a terminal event without `Started`, a second `Started`,
    /// or an event after the terminal one.
    OutOfOrder,
}

/// How one more delivered event moves a transaction on.
pub open spec fn advance(progress: Progress, source: usize, event: EventRecord) -> Progress {
    if event.source() != source {
        progress
    } else if progress is NotStarted && event is Started {
        Progress::InFlight
    } else if progress is InFlight && event.is_terminal() {
        Progress::Finished
    } else {
        Progress::OutOfOrder
    }
}

/// How far the transaction `source` has come after the events of `history`.
pub open spec fn progress_of(history: Seq<EventRecord>, source: usize) -> Progress
    decreases history.len(),
{
    if history.len() == 0 {
        Progress::NotStarted
    } else {
        advance(progress_of(history.drop_last(), source), source, history.last())
    }
}

/// Delivering one more event advances each transaction by that event.
pub proof fn lemma_progress_push(history: Seq<EventRecord>, event: EventRecord, source: usize)
    ensures
        progress_of(history.push(event), source) == advance(
            progress_of(history, source),
            source,
            event,
        ),
{
    assert(history.push(event).drop_last() =~= history);
}

/// The number of events in `history` that belong to `source` and satisfy
/// neither or either of being terminal, as `terminal` asks.
pub open spec fn count_of(history: Seq<EventRecord>, source: usize, terminal: bool) -> nat
    decreases history.len(),
{
    if history.len() == 0 {
        0
    } else {
        let rest = count_of(history.drop_last(), source, terminal);
        if history.last().source() == source && history.last().is_terminal() == terminal {
            rest + 1
        } else {
            rest
        }
    }
}

/// The position of the first event of `source` in `history` that is terminal
/// or not, as `terminal` asks; the length of `history` if there is none.
pub open spec fn first_of(history: Seq<EventRecord>, source: usize, terminal: bool) -> int
    decreases history.len(),
{
    if history.len() == 0 {
        0
    } else {
        let before = first_of(history.drop_last(), source, terminal);
        if before < history.len() - 1 {
            before
        } else if history.last().source() == source && history.last().is_terminal() == terminal {
            history.len() - 1
        } else {
            history.len() as int
        }
    }
}

/// What the progress of a transaction says about its events, counted: a
/// transaction in flight has had its one `Started` and no terminal event; a
/// finished one has had exactly one `Started` and exactly one terminal event,
/// and the `Started` came first.
pub proof fn lemma_progress_counts(history: Seq<EventRecord>, source: usize)
    ensures
        0 <= first_of(history, source, false) <= history.len(),
        0 <= first_of(history, source, true) <= history.len(),
        progress_of(history, source) is NotStarted ==> count_of(history, source, false) == 0
            && count_of(history, source, true) == 0,
        progress_of(history, source) is InFlight ==> count_of(history, source, false) == 1
            && count_of(history, source, true) == 0 && first_of(history, source, false)
            < history.len(),
        progress_of(history, source) is Finished ==> count_of(history, source, false) == 1
            && count_of(history, source, true) == 1 && first_of(history, source, false)
            < first_of(history, source, true) < history.len(),
        count_of(history, source, false) == 0 ==> first_of(history, source, false)
            == history.len(),
        count_of(history, source, true) == 0 ==> first_of(history, source, true) == history.len(),
    decreases history.len(),
{
    if history.len() > 0 {
        lemma_progress_counts(history.drop_last(), source);
    }
}
} // verus!
