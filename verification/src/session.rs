//! The single point through which every event reaches the handler.

use vstd::prelude::*;
use crate::clipboard_error::ClipboardError;
use crate::data_access::DataAccess;
use crate::event::{
    count_of, first_of, lemma_progress_counts, lemma_progress_push, progress_of, ClipboardEvent,
    ClipboardEventSource, ClipboardHandler, EventRecord, Progress,
};

verus! {
/// The mathematical value of a session: what was delivered, the number of
/// the next request, and the transactions in flight.
pub struct SessionView {
    pub history: Seq<EventRecord>,
    pub next_source: usize,
    pub pending: Set<usize>,
}

impl SessionView {
    /// The session once a request has come in: `Started` is delivered under
    /// the next number. When every number has been given out nothing changes.
    pub open spec fn started(self) -> SessionView {
        if self.next_source < usize::MAX {
            SessionView {
                history: self.history.push(EventRecord::Started { source: self.next_source }),
                next_source: (self.next_source + 1) as usize,
                pending: self.pending.insert(self.next_source),
            }
        } else {
            self
        }
    }

    /// The session once the terminal event `event` has been handed in for
    /// its transaction: it is delivered if the transaction is in flight, and
    /// nothing changes if it is not.
    pub open spec fn ended(self, event: EventRecord) -> SessionView {
        if self.pending.contains(event.source()) {
            SessionView {
                history: self.history.push(event),
                pending: self.pending.remove(event.source()),
                ..self
            }
        } else {
            self
        }
    }
}

/// A request is one transaction: a request that comes in and is then ended
/// by a terminal event of its own source adds `Started` and that event to
/// the history, in this order, and nothing else; the transactions in flight
/// are as before, and the next request gets the next number.
pub proof fn lemma_request_is_one_transaction(session: SessionView, event: EventRecord)
    requires
        session.next_source < usize::MAX,
        !session.pending.contains(session.next_source),
        event.source() == session.next_source,
    ensures
        session.started().ended(event) == (SessionView {
            history: session.history.push(
                EventRecord::Started { source: session.next_source },
            ).push(event),
            next_source: (session.next_source + 1) as usize,
            pending: session.pending,
        }),
{
    assert(session.pending.insert(session.next_source).remove(session.next_source)
        =~= session.pending);
}

/// Owns the handler, numbers the requests and delivers their events. It keeps
/// the sources of the transactions in flight, and delivers a terminal event
/// only for one of them.
pub struct Session<H: ClipboardHandler> {
    handler: H,
    next: usize,
    in_flight: Vec<usize>,
    delivered: Ghost<Seq<EventRecord>>,
}

impl<H: ClipboardHandler> View for Session<H> {
    type V = SessionView;

    open spec fn view(&self) -> SessionView {
        SessionView {
            history: self.history(),
            next_source: self.next_source(),
            pending: self.pending(),
        }
    }
}

impl<H: ClipboardHandler> Session<H> {
    /// Every event handed to the handler so far, in the order of delivery.
    pub closed spec fn history(&self) -> Seq<EventRecord> {
        self.delivered@
    }

    /// The number that the next request will get.
    pub closed spec fn next_source(&self) -> usize {
        self.next
    }

    /// The sources of the transactions that have started and not ended.
    pub closed spec fn pending(&self) -> Set<usize> {
        self.in_flight@.to_set()
    }

    /// The state is consistent: every source below the next one has started,
    /// is in flight exactly while it is pending, and no other source has had
    /// an event.
    pub closed spec fn wf(&self) -> bool {
        &&& self.in_flight@.no_duplicates()
        &&& forall|source: usize| #[trigger]
            progress_of(self.delivered@, source) == if source >= self.next {
                Progress::NotStarted
            } else if self.in_flight@.contains(source) {
                Progress::InFlight
            } else {
                Progress::Finished
            }
        &&& forall|k: int|
            0 <= k < self.in_flight@.len() ==> #[trigger] self.in_flight@[k] < self.next
    }

    pub fn new(handler: H) -> (session: Self)
        ensures
            session.wf(),
            session.history() == Seq::<EventRecord>::empty(),
            session.next_source() == 0,
            session.pending() == Set::<usize>::empty(),
            session.handler_value() == handler,
    {
        let session = Session {
            handler,
            next: 0,
            in_flight: Vec::new(),
            delivered: Ghost(Seq::empty()),
        };
        session
    }

    /// The handler as the events delivered so far have left it.
    pub closed spec fn handler_value(&self) -> H {
        self.handler
    }

    pub fn handler(&self) -> (handler: &H)
        ensures
            *handler == self.handler_value(),
    {
        &self.handler
    }

    /// Ends the session and gives the handler back.
    pub fn into_handler(self) -> (handler: H)
        ensures
            handler == self.handler_value(),
    {
        self.handler
    }

    /// Whether `source` has started and not ended.
    pub fn is_pending(&self, source: ClipboardEventSource) -> (pending: bool)
        ensures
            pending == self.pending().contains(source@),
    {
        self.position(source.value()).is_some()
    }

    fn position(&self, source: usize) -> (found: Option<usize>)
        ensures
            match found {
                Some(at) => at < self.in_flight@.len() && self.in_flight@[at as int] == source,
                None => !self.in_flight@.contains(source),
            },
            found is Some == self.pending().contains(source),
    {
        let mut i: usize = 0;
        while i < self.in_flight.len()
            invariant
                i <= self.in_flight@.len(),
                forall|k: int| 0 <= k < i ==> self.in_flight@[k] != source,
            decreases self.in_flight@.len() - i,
        {
            if self.in_flight[i] == source {
                return Some(i);
            }
            i += 1;
        }
        None
    }

    /// Opens a transaction: mints the next source and delivers `Started` for
    /// it. Returns nothing, and delivers nothing, only when every number has
    /// been given out.
    pub fn started_paste_handling(&mut self) -> (minted: Option<ClipboardEventSource>)
        requires
            old(self).wf(),
        ensures
            final(self).wf(),
            final(self)@ == old(self)@.started(),
            match minted {
                Some(source) => old(self).next_source() < usize::MAX && source@
                    == old(self).next_source(),
                None => old(self).next_source() == usize::MAX,
            },
    {
        if self.next == usize::MAX {
            return None;
        }
        let source = ClipboardEventSource::numbered(self.next);
        let ghost before = *self;
        self.next = self.next + 1;
        self.in_flight.push(source.value());
        self.handler.handle_event(ClipboardEvent::StartedPasteHandling { source });
        self.delivered = Ghost(self.delivered@.push(EventRecord::Started { source: source@ }));
        proof {
            assert(!before.in_flight@.contains(source@));
            assert forall|other: usize|
                self.in_flight@.contains(other) == (before.in_flight@.contains(other) || other
                    == source@) by {
                if before.in_flight@.contains(other) {
                    let k = choose|k: int|
                        0 <= k < before.in_flight@.len() && before.in_flight@[k] == other;
                    assert(self.in_flight@[k] == other);
                }
                if other == source@ {
                    assert(self.in_flight@[before.in_flight@.len() as int] == other);
                }
            }
            assert forall|other: usize| #[trigger]
                progress_of(self.delivered@, other) == if other >= self.next {
                    Progress::NotStarted
                } else if self.in_flight@.contains(other) {
                    Progress::InFlight
                } else {
                    Progress::Finished
                } by {
                lemma_progress_push(
                    before.delivered@,
                    EventRecord::Started { source: source@ },
                    other,
                );
            }
            assert(self.pending() =~= before.pending().insert(source@));
        }
        Some(source)
    }

    /// Ends the transaction `source` with a failure. Delivers the event and
    /// returns `true` if the transaction is in flight; otherwise delivers
    /// nothing and returns `false`.
    pub fn failed_paste_handling(
        &mut self,
        error: ClipboardError,
        source: ClipboardEventSource,
    ) -> (delivered: bool)
        requires
            old(self).wf(),
        ensures
            final(self).wf(),
            final(self)@ == old(self)@.ended(
                EventRecord::Failed { source: source@, error: error@ },
            ),
            delivered == old(self).pending().contains(source@),
    {
        match self.position(source.value()) {
            None => false,
            Some(at) => {
                let ghost record = EventRecord::Failed { source: source@, error: error@ };
                let ghost before = *self;
                self.in_flight.remove(at);
                self.handler.handle_event(ClipboardEvent::FailedPasteHandling { error, source });
                self.delivered = Ghost(self.delivered@.push(record));
                proof {
                    Self::lemma_close(before, *self, at as int, record);
                }
                true
            },
        }
    }

    /// Ends the transaction `source` with the handle to its content. Delivers
    /// the event and returns `true` if the transaction is in flight; otherwise
    /// delivers nothing and returns `false`.
    pub fn paste_result(
        &mut self,
        data: &DataAccess<H::Access>,
        source: ClipboardEventSource,
    ) -> (delivered: bool)
        requires
            old(self).wf(),
        ensures
            final(self).wf(),
            final(self)@ == old(self)@.ended(
                EventRecord::PasteResult { source: source@, access: data@ },
            ),
            delivered == old(self).pending().contains(source@),
    {
        match self.position(source.value()) {
            None => false,
            Some(at) => {
                let ghost record = EventRecord::PasteResult { source: source@, access: data@ };
                let ghost before = *self;
                self.in_flight.remove(at);
                self.handler.handle_event(ClipboardEvent::PasteResult { data, source });
                self.delivered = Ghost(self.delivered@.push(record));
                proof {
                    Self::lemma_close(before, *self, at as int, record);
                }
                true
            },
        }
    }

    /// Ends the transaction `source` with what the adapter made of it: the
    /// handle to the content becomes the paste result, a failure is
    /// delivered as it is. Delivers the event and returns `true` if the
    /// transaction is in flight; otherwise delivers nothing and returns
    /// `false`.
    pub fn finish_paste_handling(
        &mut self,
        outcome: Result<DataAccess<H::Access>, ClipboardError>,
        source: ClipboardEventSource,
    ) -> (delivered: bool)
        requires
            old(self).wf(),
        ensures
            final(self).wf(),
            final(self)@ == old(self)@.ended(
                match outcome {
                    Ok(data) => EventRecord::PasteResult { source: source@, access: data@ },
                    Err(error) => EventRecord::Failed { source: source@, error: error@ },
                },
            ),
            delivered == old(self).pending().contains(source@),
    {
        match outcome {
            Ok(data) => self.paste_result(&data, source),
            Err(error) => self.failed_paste_handling(error, source),
        }
    }

    /// Takes in a request that cannot be served, for the reason `error`:
    /// the transaction is opened all the same, `Started` is delivered and
    /// then the failure. Returns the source of the transaction; returns
    /// nothing, and delivers nothing, only when every number has been given
    /// out.
    pub fn refuse_paste_handling(&mut self, error: ClipboardError) -> (minted: Option<
        ClipboardEventSource,
    >)
        requires
            old(self).wf(),
        ensures
            final(self).wf(),
            final(self)@ == old(self)@.started().ended(
                EventRecord::Failed { source: old(self).next_source(), error: error@ },
            ),
            final(self).pending() == old(self).pending(),
            match minted {
                Some(source) => old(self).next_source() < usize::MAX && source@
                    == old(self).next_source(),
                None => old(self).next_source() == usize::MAX,
            },
    {
        let source = match self.started_paste_handling() {
            Some(source) => source,
            None => {
                return None;
            },
        };
        proof {
            old(self).lemma_transactions_in_order(source@);
        }
        self.failed_paste_handling(error, source);
        Some(source)
    }

    proof fn lemma_close(before: Self, after: Self, at: int, record: EventRecord)
        requires
            before.wf(),
            0 <= at < before.in_flight@.len(),
            before.in_flight@[at] == record.source(),
            record.is_terminal(),
            after.in_flight@ == before.in_flight@.remove(at),
            after.delivered@ == before.delivered@.push(record),
            after.next == before.next,
        ensures
            after.wf(),
            after.pending() == before.pending().remove(record.source()),
    {
        let source = record.source();
        let old_list = before.in_flight@;
        let new_list = after.in_flight@;
        assert forall|other: usize|
            new_list.contains(other) == (old_list.contains(other) && other != source) by {
            if old_list.contains(other) && other != source {
                let j = choose|j: int| 0 <= j < old_list.len() && old_list[j] == other;
                let k = if j < at { j } else { j - 1 };
                assert(new_list[k] == other);
            }
        }
        assert forall|other: usize| #[trigger]
            progress_of(after.delivered@, other) == if other >= after.next {
                Progress::NotStarted
            } else if new_list.contains(other) {
                Progress::InFlight
            } else {
                Progress::Finished
            } by {
            lemma_progress_push(before.delivered@, record, other);
        }
    }

    /// Every transaction has its events in order: of a source that has been
    /// minted and is no longer pending, exactly one `Started` was delivered
    /// and exactly one terminal event, the `Started` first; of a pending one,
    /// its `Started` and no terminal event; of any other source, nothing.
    pub proof fn lemma_transactions_in_order(&self, source: usize)
        requires
            self.wf(),
        ensures
            source >= self.next_source() ==> count_of(self.history(), source, false) == 0
                && count_of(self.history(), source, true) == 0,
            source < self.next_source() ==> count_of(self.history(), source, false) == 1,
            source < self.next_source() && self.pending().contains(source) ==> count_of(
                self.history(),
                source,
                true,
            ) == 0,
            source < self.next_source() && !self.pending().contains(source) ==> count_of(
                self.history(),
                source,
                true,
            ) == 1 && first_of(self.history(), source, false) < first_of(
                self.history(),
                source,
                true,
            ),
            self.pending().contains(source) ==> source < self.next_source(),
    {
        lemma_progress_counts(self.delivered@, source);
    }
}
} // verus!
