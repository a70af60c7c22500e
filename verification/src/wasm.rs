//! The browser adapter: the items of one paste event arrive one by one, in
//! any order, and the paste is complete when all of them have.

use std::collections::HashMap;
use vstd::prelude::*;
use crate::clipboard_error::{ClipboardError, ErrorView};
use crate::data_access::{AccessView, DataAccess, InternalDataAccess};
use crate::event::{ClipboardEventSource, ClipboardHandler, EventRecord};
use crate::session::Session;
use crate::text::{copy_texts, same_text, texts};

verus! {
broadcast use vstd::std_specs::hash::group_hash_axioms;

/// The names and contents of a list of items.
pub open spec fn items_of(data: Seq<(String, Vec<u8>)>) -> Seq<(Seq<char>, Seq<u8>)> {
    data.map_values(|item: (String, Vec<u8>)| (item.0@, item.1@))
}

/// The names of a list of items, in the same order.
pub open spec fn names_of(items: Seq<(Seq<char>, Seq<u8>)>) -> Seq<Seq<char>> {
    items.map_values(|item: (Seq<char>, Seq<u8>)| item.0)
}

/// The bytes of the first item called `name`, from position `start` on;
/// nothing where no item goes by the name.
pub open spec fn first_named(
    items: Seq<(Seq<char>, Seq<u8>)>,
    name: Seq<char>,
    start: int,
) -> Option<Seq<u8>>
    decreases items.len() - start,
{
    if start < 0 || start >= items.len() {
        None
    } else if items[start].0 == name {
        Some(items[start].1)
    } else {
        first_named(items, name, start + 1)
    }
}

/// The answer that a fetch of `name` gets from a handle that holds `items`:
/// the bytes of the first item that goes by the name, or
/// `FormatNotAvailable` where no item does.
pub open spec fn answer_from(items: Seq<(Seq<char>, Seq<u8>)>, name: Seq<char>) -> Result<
    Seq<u8>,
    ErrorView,
> {
    match first_named(items, name, 0) {
        Some(content) => Ok(content),
        None => Err(ErrorView::FormatNotAvailable),
    }
}

/// The value of a handle that holds `items` and lists their names.
pub open spec fn held(items: Seq<(Seq<char>, Seq<u8>)>) -> AccessView {
    AccessView {
        types: names_of(items),
        answers: Set::new(
            |fetch: (Seq<char>, Result<Seq<u8>, ErrorView>)|
                fetch.1 == answer_from(items, fetch.0),
        ),
    }
}

/// Where no item from `start` on goes by a name, none is found.
pub proof fn lemma_unnamed_is_not_found(
    items: Seq<(Seq<char>, Seq<u8>)>,
    name: Seq<char>,
    start: int,
)
    requires
        0 <= start,
        !names_of(items).contains(name),
    ensures
        first_named(items, name, start) is None,
    decreases items.len() - start,
{
    if start < items.len() {
        assert(names_of(items)[start] == items[start].0);
        lemma_unnamed_is_not_found(items, name, start + 1);
    }
}

/// A handle that lists the names of the items that its adapter holds has the
/// value [`held`] of those items.
pub proof fn lemma_handle_holds_items(access: &DataAccess<WasmDataAccess>)
    requires
        access.types() == names_of(access.adapter().items()),
    ensures
        access@ == held(access.adapter().items()),
{
    let items = access.adapter().items();
    assert forall|fetch: (Seq<char>, Result<Seq<u8>, ErrorView>)|
        access@.answers.contains(fetch) == held(items).answers.contains(fetch) by {
        if !access.types().contains(fetch.0) {
            lemma_unnamed_is_not_found(items, fetch.0, 0);
        }
    }
    assert(access@.answers =~= held(items).answers);
}

/// How the content of an item of a paste event is obtained.
#[derive(Debug, Clone, Copy, PartialEq, Eq, Structural)]
pub enum ItemKind {
    /// Inline text, handed over through a string callback.
    String,
    /// A file-like blob, read through a binary reader.
    File,
}

/// The kind that an item's `kind` attribute names, if it names one.
pub open spec fn kind_named(name: Seq<char>) -> Option<ItemKind> {
    if name == "string"@ {
        Some(ItemKind::String)
    } else if name == "file"@ {
        Some(ItemKind::File)
    } else {
        None
    }
}

/// The kind that an item's `kind` attribute names, if it names one.
pub fn item_kind(name: &str) -> (kind: Option<ItemKind>)
    ensures
        kind == kind_named(name@),
{
    if same_text(name, "string") {
        Some(ItemKind::String)
    } else if same_text(name, "file") {
        Some(ItemKind::File)
    } else {
        None
    }
}

/// Access to the items of a paste that have all been read into memory.
pub struct WasmDataAccess {
    mime_types: Vec<String>,
    data: Vec<(String, Vec<u8>)>,
}

impl WasmDataAccess {
    /// The representations announced.
    pub closed spec fn types(&self) -> Seq<Seq<char>> {
        texts(self.mime_types@)
    }

    /// The items held, each with its name and its bytes.
    pub closed spec fn items(&self) -> Seq<(Seq<char>, Seq<u8>)> {
        items_of(self.data@)
    }

    pub fn new(mime_types: Vec<String>, data: Vec<(String, Vec<u8>)>) -> (access: Self)
        ensures
            access.types() == texts(mime_types@),
            access.items() == items_of(data@),
    {
        WasmDataAccess { mime_types, data }
    }
}

fn copy_bytes(bytes: &Vec<u8>) -> (copy: Vec<u8>)
    ensures
        copy@ == bytes@,
{
    let mut copy: Vec<u8> = Vec::new();
    let mut i: usize = 0;
    while i < bytes.len()
        invariant
            i <= bytes@.len(),
            copy@ == bytes@.take(i as int),
        decreases bytes@.len() - i,
    {
        copy.push(bytes[i]);
        i += 1;
    }
    copy
}

impl InternalDataAccess for WasmDataAccess {
    /// The one answer that a fetch gives: the bytes of the first item that
    /// goes by the name, or `FormatNotAvailable` where no item does.
    open spec fn may_answer(
        &self,
        mime_type: Seq<char>,
        answer: Result<Seq<u8>, ErrorView>,
    ) -> bool {
        answer == answer_from(self.items(), mime_type)
    }

    /// The one list that the adapter gives: the representations announced.
    open spec fn may_offer(&self, types: Seq<Seq<char>>) -> bool {
        types == self.types()
    }

    fn mime_types(&self) -> (types: Vec<String>)
        ensures
            texts(types@) == self.types(),
    {
        let types = copy_texts(self.mime_types.as_slice());
        types
    }

    /// The bytes of the first item that goes by the name; `FormatNotAvailable`
    /// where no item does.
    fn get_raw_data(&self, mime_type: &str) -> (fetched: Result<Vec<u8>, ClipboardError>)
        ensures
            match first_named(self.items(), mime_type@, 0) {
                Some(content) => fetched matches Ok(bytes) && bytes@ == content,
                None => fetched == Err::<Vec<u8>, ClipboardError>(
                    ClipboardError::FormatNotAvailable,
                ),
            },
    {
        let mut i: usize = 0;
        while i < self.data.len()
            invariant
                i <= self.data@.len(),
                first_named(self.items(), mime_type@, 0) == first_named(
                    self.items(),
                    mime_type@,
                    i as int,
                ),
            decreases self.data@.len() - i,
        {
            if same_text(self.data[i].0.as_str(), mime_type) {
                let bytes = copy_bytes(&self.data[i].1);
                return Ok(bytes);
            }
            i += 1;
        }
        Err(ClipboardError::FormatNotAvailable)
    }
}

fn item_names(data: &Vec<(String, Vec<u8>)>) -> (names: Vec<String>)
    ensures
        texts(names@) == names_of(items_of(data@)),
{
    let mut names: Vec<String> = Vec::new();
    let mut i: usize = 0;
    while i < data.len()
        invariant
            i <= data@.len(),
            names@.len() == i,
            forall|k: int| 0 <= k < i ==> names@[k]@ == data@[k].0@,
        decreases data@.len() - i,
    {
        names.push(data[i].0.clone());
        i += 1;
    }
    names
}

/// What has been collected of one paste event.
pub struct DataStorage {
    size: usize,
    data: Vec<(String, Vec<u8>)>,
}

/// The mathematical value of what has been collected of one paste event.
pub struct Collected {
    /// The number of items that the event exposed.
    pub expected: nat,
    /// The items that have reported in, in the order in which they did.
    pub received: Seq<(Seq<char>, Seq<u8>)>,
}

impl View for DataStorage {
    type V = Collected;

    closed spec fn view(&self) -> Collected {
        Collected { expected: self.size as nat, received: items_of(self.data@) }
    }
}

/// The events delivered, the number of the next paste event, and the paste
/// events that wait for items.
pub struct Pastes {
    pub history: Seq<EventRecord>,
    pub next_source: usize,
    pub collecting: Map<usize, Collected>,
}

impl Pastes {
    /// What becomes of the pastes when a paste event exposes `size` items:
    /// `Started` is delivered under the next number; an event without items
    /// ends at once with `Empty`, any other waits for its items. When every
    /// number has been given out nothing changes.
    pub open spec fn with_event(self, size: usize) -> Pastes {
        if self.next_source == usize::MAX {
            self
        } else {
            let source = self.next_source;
            let started = self.history.push(EventRecord::Started { source });
            if size == 0 {
                Pastes {
                    history: started.push(EventRecord::Failed { source, error: ErrorView::Empty }),
                    next_source: (source + 1) as usize,
                    collecting: self.collecting,
                }
            } else {
                Pastes {
                    history: started,
                    next_source: (source + 1) as usize,
                    collecting: self.collecting.insert(
                        source,
                        Collected { expected: size as nat, received: Seq::empty() },
                    ),
                }
            }
        }
    }

    /// What becomes of the pastes when the event `source` fails: where it
    /// waits for items it ends with the failure and what it had collected is
    /// dropped; where it does not, nothing changes.
    pub open spec fn with_error(self, source: usize, error: ErrorView) -> Pastes {
        if self.collecting.contains_key(source) {
            Pastes {
                history: self.history.push(EventRecord::Failed { source, error }),
                collecting: self.collecting.remove(source),
                ..self
            }
        } else {
            self
        }
    }

    /// What becomes of the pastes when an item of the event `source` reports
    /// in. An item of an event that waits for none changes nothing. Any other
    /// is collected; with the last item that the event waits for, the paste
    /// result is delivered and the event waits no more.
    pub open spec fn with_item(self, source: usize, name: Seq<char>, bytes: Seq<u8>) -> Pastes {
        if !self.collecting.contains_key(source) {
            self
        } else {
            let before = self.collecting[source];
            let received = before.received.push((name, bytes));
            if received.len() < before.expected {
                Pastes {
                    collecting: self.collecting.insert(
                        source,
                        Collected { expected: before.expected, received },
                    ),
                    ..self
                }
            } else {
                Pastes {
                    history: self.history.push(
                        EventRecord::PasteResult { source, access: held(received) },
                    ),
                    collecting: self.collecting.remove(source),
                    ..self
                }
            }
        }
    }

    /// What becomes of the pastes when the items report in, one after the
    /// other, for the event `source`.
    pub open spec fn with_items(self, source: usize, items: Seq<(Seq<char>, Seq<u8>)>) -> Pastes
        decreases items.len(),
    {
        if items.len() == 0 {
            self
        } else {
            self.with_items(source, items.drop_last()).with_item(
                source,
                items.last().0,
                items.last().1,
            )
        }
    }
}

/// While items are missing, nothing is delivered: after fewer items than the
/// event `source` still waits for, the history is as it was and the event
/// has the items in the order in which they reported in.
pub proof fn lemma_items_are_collected(
    pastes: Pastes,
    source: usize,
    items: Seq<(Seq<char>, Seq<u8>)>,
)
    requires
        pastes.collecting.contains_key(source),
        pastes.collecting[source].received.len() + items.len() < pastes.collecting[source].expected,
    ensures
        pastes.with_items(source, items) == (Pastes {
            collecting: pastes.collecting.insert(
                source,
                Collected {
                    expected: pastes.collecting[source].expected,
                    received: pastes.collecting[source].received + items,
                },
            ),
            ..pastes
        }),
    decreases items.len(),
{
    let before = pastes.collecting[source];
    if items.len() == 0 {
        assert(pastes.collecting.insert(source, before) =~= pastes.collecting);
    } else {
        lemma_items_are_collected(pastes, source, items.drop_last());
        assert((before.received + items.drop_last()).push(items.last()) =~= before.received
            + items);
        let so_far = pastes.with_items(source, items.drop_last());
        assert(so_far.collecting.insert(
            source,
            Collected { expected: before.expected, received: before.received + items },
        ) =~= pastes.collecting.insert(
            source,
            Collected { expected: before.expected, received: before.received + items },
        ));
    }
}

/// A paste completes with its last item, whatever the order: when exactly
/// the items that the event `source` still waits for report in, in any
/// order, one paste result is delivered, after the last of them, and it
/// lists the items in the order in which they reported in.
pub proof fn lemma_result_after_last_item(
    pastes: Pastes,
    source: usize,
    items: Seq<(Seq<char>, Seq<u8>)>,
)
    requires
        pastes.collecting.contains_key(source),
        items.len() > 0,
        pastes.collecting[source].received.len() + items.len()
            == pastes.collecting[source].expected,
    ensures
        pastes.with_items(source, items.drop_last()).history == pastes.history,
        pastes.with_items(source, items) == (Pastes {
            history: pastes.history.push(
                EventRecord::PasteResult {
                    source,
                    access: held(pastes.collecting[source].received + items),
                },
            ),
            collecting: pastes.collecting.remove(source),
            ..pastes
        }),
{
    let before = pastes.collecting[source];
    lemma_items_are_collected(pastes, source, items.drop_last());
    assert((before.received + items.drop_last()).push(items.last()) =~= before.received + items);
    let so_far = pastes.with_items(source, items.drop_last());
    assert(so_far.collecting.remove(source) =~= pastes.collecting.remove(source));
}

/// Collects the items of paste events and delivers the events of each paste
/// to the handler.
pub struct Collector<H: ClipboardHandler<Access = WasmDataAccess>> {
    session: Session<H>,
    storage: HashMap<usize, DataStorage>,
}

impl<H: ClipboardHandler<Access = WasmDataAccess>> Collector<H> {
    /// Every event delivered so far.
    pub closed spec fn history(&self) -> Seq<EventRecord> {
        self.session.history()
    }

    /// The number of the next paste event.
    pub closed spec fn next_source(&self) -> usize {
        self.session.next_source()
    }

    /// The paste events that wait for items, each with what it has so far.
    pub closed spec fn collecting(&self) -> Map<usize, Collected> {
        self.storage@.map_values(|stored: DataStorage| stored@)
    }

    /// The events delivered and the paste events that wait for items.
    pub open spec fn pastes(&self) -> Pastes {
        Pastes {
            history: self.history(),
            next_source: self.next_source(),
            collecting: self.collecting(),
        }
    }

    /// The paste events that wait for items are the transactions in flight,
    /// and each still misses at least one item.
    pub closed spec fn wf(&self) -> bool {
        &&& self.session.wf()
        &&& self.storage@.dom() == self.session.pending()
        &&& forall|source: usize| #[trigger]
            self.storage@.contains_key(source) ==> self.storage@[source].data@.len()
                < self.storage@[source].size
    }

    pub fn new(handler: H) -> (collector: Self)
        ensures
            collector.wf(),
            collector.history() == Seq::<EventRecord>::empty(),
            collector.next_source() == 0,
            collector.collecting() == Map::<usize, Collected>::empty(),
            collector.handler_value() == handler,
    {
        let collector = Collector { session: Session::new(handler), storage: HashMap::new() };
        collector
    }

    /// The handler as the events delivered so far have left it.
    pub closed spec fn handler_value(&self) -> H {
        self.session.handler_value()
    }

    pub fn handler(&self) -> (handler: &H)
        ensures
            *handler == self.handler_value(),
    {
        self.session.handler()
    }

    /// Takes in a paste event that exposes `size` items. `Started` is
    /// delivered at once; an event without items ends at once with `Empty`.
    pub fn start_paste_handling(&mut self, size: usize) -> (minted: Option<ClipboardEventSource>)
        requires
            old(self).wf(),
        ensures
            final(self).wf(),
            final(self).pastes() == old(self).pastes().with_event(size),
            match minted {
                Some(source) => old(self).next_source() < usize::MAX && source@
                    == old(self).next_source(),
                None => old(self).next_source() == usize::MAX,
            },
    {
        let ghost before = self.session.pending();
        let source = match self.session.started_paste_handling() {
            Some(source) => source,
            None => {
                return None;
            },
        };
        proof {
            old(self).session.lemma_transactions_in_order(source@);
        }
        if size == 0 {
            self.session.failed_paste_handling(ClipboardError::Empty, source);
            assert(self.session.pending() =~= before);
        } else {
            let stored = DataStorage { size, data: Vec::new() };
            assert(stored@ == (Collected { expected: size as nat, received: Seq::empty() })) by {
                assert(items_of(stored.data@) =~= Seq::<(Seq<char>, Seq<u8>)>::empty());
            }
            self.storage.insert(source.value(), stored);
            assert(self.collecting() =~= old(self).collecting().insert(source@, stored@));
        }
        Some(source)
    }

    /// Takes in one item of the paste event `source`. With the last item the
    /// paste result is delivered, listing the items in the order in which
    /// they reported in. An item of an event that waits for none is dropped;
    /// the result says whether the item was taken.
    pub fn insert_data(
        &mut self,
        mime_type: String,
        bytes: Vec<u8>,
        source: ClipboardEventSource,
    ) -> (taken: bool)
        requires
            old(self).wf(),
        ensures
            final(self).wf(),
            taken == old(self).collecting().contains_key(source@),
            final(self).pastes() == old(self).pastes().with_item(source@, mime_type@, bytes@),
    {
        let mut stored = match self.storage.remove(&source.value()) {
            Some(stored) => stored,
            None => {
                assert(self.storage@ =~= old(self).storage@);
                return false;
            },
        };
        let ghost before = stored@;
        stored.data.push((mime_type, bytes));
        proof {
            assert(items_of(stored.data@) =~= before.received.push((mime_type@, bytes@)));
        }
        if stored.data.len() < stored.size {
            let ghost updated = stored@;
            self.storage.insert(source.value(), stored);
            assert(self.collecting() =~= old(self).collecting().insert(source@, updated));
            true
        } else {
            let mime_types = item_names(&stored.data);
            let listed = copy_texts(mime_types.as_slice());
            let access = DataAccess::with_types(
                listed,
                WasmDataAccess::new(mime_types, stored.data),
            );
            proof {
                lemma_handle_holds_items(&access);
            }
            self.session.paste_result(&access, source);
            assert(self.collecting() =~= old(self).collecting().remove(source@));
            true
        }
    }

    /// Ends the paste event `source` with a failure. What had been collected
    /// of it is dropped. An event that is not under way gets no second end;
    /// the result says whether the failure was delivered.
    pub fn send_error(
        &mut self,
        error: ClipboardError,
        source: ClipboardEventSource,
    ) -> (delivered: bool)
        requires
            old(self).wf(),
        ensures
            final(self).wf(),
            delivered == old(self).collecting().contains_key(source@),
            final(self).pastes() == old(self).pastes().with_error(source@, error@),
    {
        self.storage.remove(&source.value());
        let delivered = self.session.failed_paste_handling(error, source);
        assert(self.storage@.dom() =~= self.session.pending());
        if delivered {
            assert(self.collecting() =~= old(self).collecting().remove(source@));
        } else {
            assert(self.collecting() =~= old(self).collecting());
        }
        delivered
    }

    /// Every paste event has its events in order: see
    /// [`Session::lemma_transactions_in_order`]; an event is pending exactly
    /// while it waits for items.
    pub proof fn lemma_pastes_in_order(&self, source: usize)
        requires
            self.wf(),
        ensures
            source >= self.next_source() ==> crate::event::count_of(self.history(), source, false)
                == 0 && crate::event::count_of(self.history(), source, true) == 0
                && !self.collecting().contains_key(source),
            source < self.next_source() ==> crate::event::count_of(self.history(), source, false)
                == 1,
            source < self.next_source() && self.collecting().contains_key(source)
                ==> crate::event::count_of(self.history(), source, true) == 0,
            source < self.next_source() && !self.collecting().contains_key(source) ==> ({
                &&& crate::event::count_of(self.history(), source, true) == 1
                &&& crate::event::first_of(self.history(), source, false) < crate::event::first_of(
                    self.history(),
                    source,
                    true,
                )
            }),
    {
        self.session.lemma_transactions_in_order(source);
    }
}
} // verus!
