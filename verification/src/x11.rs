//! The X11 selection transfer: conversion, probing, and incremental
//! reassembly, as a machine that is told what the server said and answers
//! with the next request to make.

use vstd::prelude::*;
use crate::clipboard_error::ClipboardError;

verus! {
/// The longest the transfer waits without progress, in milliseconds.
pub const TIMEOUT_LIMIT: u64 = 2000;

/// The atoms that every transfer needs.
#[derive(Debug, Clone, Copy, PartialEq, Eq, Structural)]
pub struct AtomManager {
    /// "ATOM"
    pub atom: u32,
    /// "CLIPBOARD"
    pub clipboard: u32,
    /// "TARGETS"
    pub targets: u32,
    /// "INCR" (for incremental clipboard transfers)
    pub incr: u32,
}

impl AtomManager {
    pub fn new(atom: u32, clipboard: u32, targets: u32, incr: u32) -> (atoms: Self)
        ensures
            atoms == (AtomManager { atom, clipboard, targets, incr }),
    {
        AtomManager { atom, clipboard, targets, incr }
    }
}

/// What the transfer reads of an event from the server.
#[derive(Debug, Clone, Copy, PartialEq, Eq, Structural)]
pub enum X11Event {
    SelectionNotify { selection: u32, property: u32 },
    /// A property of the receiving window changed; `new_value` tells a new
    /// value from a deletion.
    PropertyNotify { new_value: bool },
    Other,
}

/// What the transfer reads of the reply to a property request.
#[derive(Debug, Clone, PartialEq, Eq)]
pub struct PropertyReply {
    pub type_: u32,
    pub bytes_after: u32,
    pub value: Vec<u8>,
}

/// The mathematical value of a [`PropertyReply`].
pub struct ReplyView {
    pub type_: u32,
    pub bytes_after: u32,
    pub value: Seq<u8>,
}

impl View for PropertyReply {
    type V = ReplyView;

    open spec fn view(&self) -> ReplyView {
        ReplyView { type_: self.type_, bytes_after: self.bytes_after, value: self.value@ }
    }
}

/// Where a transfer stands.
#[derive(Debug, Clone, Copy, PartialEq, Eq, Structural)]
pub enum Phase {
    /// No conversion has been asked for.
    Idle,
    /// Waiting for an event from the server.
    Waiting,
    /// The owner has answered; the type and size of `property` are being asked for.
    Probing { property: u32 },
    /// The content of `property` is being read in one piece.
    Reading { property: u32, long_length: u32 },
    /// A chunk of an incremental transfer is being read and deleted.
    Draining,
    Complete,
    TimedOut,
    ForeignError,
}

/// The state of the adapter as a whole.
#[derive(Debug, Clone, Copy, PartialEq, Eq, Structural)]
pub enum TransferState {
    Idle,
    AwaitingTargets,
    AwaitingData,
    Complete,
    TimedOut,
    ForeignError,
}

/// The request that the machine wants made next.
#[derive(Debug, Clone, Copy, PartialEq, Eq, Structural)]
pub enum Next {
    /// Nothing is under way: ask for a conversion first.
    Nothing,
    /// Wait for the next event, no longer than the time that remains.
    Wait,
    /// Read a property of the receiving window.
    GetProperty { delete: bool, property: u32, type_: u32, long_length: u32 },
    /// The transfer has ended: take its result.
    Done,
}

/// The conversion to ask the selection owner for.
#[derive(Debug, Clone, Copy, PartialEq, Eq, Structural)]
pub struct Conversion {
    pub selection: u32,
    pub target: u32,
    pub property: u32,
}

/// The mathematical value of a transfer.
pub struct TransferView {
    pub atoms: AtomManager,
    /// The property of the receiving window that the owner writes to.
    pub property: u32,
    /// The target of the conversion under way.
    pub target: u32,
    /// Whether the owner has announced an incremental transfer.
    pub incremental: bool,
    pub phase: Phase,
    /// The bytes received so far.
    pub data: Seq<u8>,
    /// When the transfer last made progress, in milliseconds.
    pub last_event: u64,
}

impl TransferView {
    /// The type that the property must have: a list of targets is a list of
    /// atoms, anything else has the type that was asked for.
    pub open spec fn expected_type(self) -> u32 {
        if self.target == self.atoms.targets {
            self.atoms.atom
        } else {
            self.target
        }
    }

    /// Whether a transfer is under way.
    pub open spec fn busy(self) -> bool {
        self.phase is Waiting || self.phase is Probing || self.phase is Reading
            || self.phase is Draining
    }

    /// Whether more than the limit has passed at `now` since the last progress.
    pub open spec fn timed_out(self, now: u64) -> bool {
        now >= self.last_event && now - self.last_event > TIMEOUT_LIMIT
    }

    /// The transfer once a conversion of `target` has been asked for at `now`.
    /// A transfer under way is not disturbed.
    pub open spec fn after_request(self, target: u32, now: u64) -> TransferView {
        if self.busy() {
            self
        } else {
            TransferView {
                target,
                incremental: false,
                phase: Phase::Waiting,
                data: Seq::empty(),
                last_event: now,
                ..self
            }
        }
    }

    /// The transfer once `event` has arrived at `now`. Events count only
    /// while the transfer waits for one. An event that arrives after the limit
    /// ends the transfer; otherwise the owner's notification starts the probe
    /// and, in an incremental transfer, a new property value starts a drain.
    pub open spec fn after_event(self, event: X11Event, now: u64) -> TransferView {
        if !(self.phase is Waiting) {
            self
        } else if self.timed_out(now) {
            TransferView { phase: Phase::TimedOut, ..self }
        } else {
            match event {
                X11Event::SelectionNotify { selection, property } => if selection
                    == self.atoms.clipboard {
                    TransferView { phase: Phase::Probing { property }, ..self }
                } else {
                    self
                },
                X11Event::PropertyNotify { new_value } => if self.incremental && new_value {
                    TransferView { phase: Phase::Draining, ..self }
                } else {
                    self
                },
                X11Event::Other => self,
            }
        }
    }

    /// The transfer once a native call of it has failed: a transfer under
    /// way ends as one whose other side did not keep to the protocol.
    pub open spec fn after_failure(self) -> TransferView {
        if self.busy() {
            TransferView { phase: Phase::ForeignError, ..self }
        } else {
            self
        }
    }

    /// The transfer once the reply to its property request has arrived at `now`.
    pub open spec fn after_reply(self, reply: ReplyView, now: u64) -> TransferView {
        match self.phase {
            Phase::Probing { property } => if reply.type_ == self.atoms.incr {
                TransferView { incremental: true, phase: Phase::Waiting, last_event: now, ..self }
            } else if reply.type_ != self.expected_type() {
                TransferView { phase: Phase::ForeignError, ..self }
            } else {
                TransferView {
                    phase: Phase::Reading { property, long_length: words(reply.bytes_after) },
                    ..self
                }
            },
            Phase::Reading { .. } => TransferView {
                phase: Phase::Complete,
                data: self.data + reply.value,
                ..self
            },
            Phase::Draining => if reply.value.len() == 0 {
                TransferView { phase: Phase::Complete, ..self }
            } else {
                TransferView {
                    phase: Phase::Waiting,
                    data: self.data + reply.value,
                    last_event: now,
                    ..self
                }
            },
            _ => self,
        }
    }

    /// The property to delete once the reply has been taken in: the owner's
    /// property, to start an incremental transfer, and the receiving property,
    /// to end one.
    pub open spec fn deleted_after_reply(self, reply: ReplyView) -> Option<u32> {
        match self.phase {
            Phase::Probing { property } => if reply.type_ == self.atoms.incr {
                Some(property)
            } else {
                None
            },
            Phase::Draining => if reply.value.len() == 0 {
                Some(self.property)
            } else {
                None
            },
            _ => None,
        }
    }

    /// The request to make next.
    pub open spec fn next(self) -> Next {
        match self.phase {
            Phase::Idle => Next::Nothing,
            Phase::Waiting => Next::Wait,
            Phase::Probing { property } => Next::GetProperty {
                delete: false,
                property,
                type_: self.expected_type(),
                long_length: 0,
            },
            Phase::Reading { property, long_length } => Next::GetProperty {
                delete: false,
                property,
                type_: self.expected_type(),
                long_length,
            },
            Phase::Draining => Next::GetProperty {
                delete: true,
                property: self.property,
                type_: self.expected_type(),
                long_length: u32::MAX,
            },
            _ => Next::Done,
        }
    }

    /// The state of the adapter.
    pub open spec fn state(self) -> TransferState {
        match self.phase {
            Phase::Idle => TransferState::Idle,
            Phase::Complete => TransferState::Complete,
            Phase::TimedOut => TransferState::TimedOut,
            Phase::ForeignError => TransferState::ForeignError,
            _ => if self.target == self.atoms.targets {
                TransferState::AwaitingTargets
            } else {
                TransferState::AwaitingData
            },
        }
    }

    /// What an ended transfer gives: the bytes, or the reason it failed.
    pub open spec fn outcome(self) -> Option<Result<Seq<u8>, ClipboardError>> {
        match self.phase {
            Phase::Complete => Some(Ok(self.data)),
            Phase::TimedOut => Some(Err(ClipboardError::Timeout)),
            Phase::ForeignError => Some(Err(ClipboardError::ForeignClipboardError)),
            _ => None,
        }
    }
}

/// The number of 32-bit words that hold `bytes` bytes.
pub open spec fn words(bytes: u32) -> u32 {
    ((bytes + 3) / 4) as u32
}

/// The error of a request whose native call fails before a transfer is
/// under way: the same that ends a transfer whose native call fails.
pub fn native_failure() -> (error: ClipboardError)
    ensures
        error == ClipboardError::ForeignClipboardError,
{
    ClipboardError::ForeignClipboardError
}

/// One transfer at a time over the adapter's connection.
pub struct X11DataAcess {
    atoms: AtomManager,
    property: u32,
    target: u32,
    incremental: bool,
    phase: Phase,
    data: Vec<u8>,
    last_event: u64,
}

impl View for X11DataAcess {
    type V = TransferView;

    closed spec fn view(&self) -> TransferView {
        TransferView {
            atoms: self.atoms,
            property: self.property,
            target: self.target,
            incremental: self.incremental,
            phase: self.phase,
            data: self.data@,
            last_event: self.last_event,
        }
    }
}

impl X11DataAcess {
    /// An idle adapter that receives into `property`.
    pub fn new(atoms: AtomManager, property: u32) -> (access: Self)
        ensures
            access@ == (TransferView {
                atoms,
                property,
                target: 0,
                incremental: false,
                phase: Phase::Idle,
                data: Seq::empty(),
                last_event: 0,
            }),
    {
        X11DataAcess {
            atoms,
            property,
            target: 0,
            incremental: false,
            phase: Phase::Idle,
            data: Vec::new(),
            last_event: 0,
        }
    }

    fn busy(&self) -> (busy: bool)
        ensures
            busy == self@.busy(),
    {
        match self.phase {
            Phase::Waiting | Phase::Probing { .. } | Phase::Reading { .. } | Phase::Draining => {
                true
            },
            _ => false,
        }
    }

    fn expected_type(&self) -> (type_: u32)
        ensures
            type_ == self@.expected_type(),
    {
        if self.target == self.atoms.targets {
            self.atoms.atom
        } else {
            self.target
        }
    }

    /// Starts the transfer of `target` at `now` and says which conversion to
    /// ask the owner for. While a transfer is under way nothing starts and
    /// nothing is returned.
    pub fn request(&mut self, target: u32, now: u64) -> (conversion: Option<Conversion>)
        ensures
            final(self)@ == old(self)@.after_request(target, now),
            old(self)@.busy() ==> conversion is None,
            !old(self)@.busy() ==> conversion == Some(
                Conversion {
                    selection: old(self)@.atoms.clipboard,
                    target,
                    property: old(self)@.property,
                },
            ),
    {
        if self.busy() {
            return None;
        }
        self.target = target;
        self.incremental = false;
        self.phase = Phase::Waiting;
        self.data = Vec::new();
        self.last_event = now;
        Some(Conversion { selection: self.atoms.clipboard, target, property: self.property })
    }

    /// The request to make next.
    pub fn next(&self) -> (next: Next)
        ensures
            next == self@.next(),
    {
        match self.phase {
            Phase::Idle => Next::Nothing,
            Phase::Waiting => Next::Wait,
            Phase::Probing { property } => Next::GetProperty {
                delete: false,
                property,
                type_: self.expected_type(),
                long_length: 0,
            },
            Phase::Reading { property, long_length } => Next::GetProperty {
                delete: false,
                property,
                type_: self.expected_type(),
                long_length,
            },
            Phase::Draining => Next::GetProperty {
                delete: true,
                property: self.property,
                type_: self.expected_type(),
                long_length: u32::MAX,
            },
            _ => Next::Done,
        }
    }

    /// The state of the adapter.
    pub fn state(&self) -> (state: TransferState)
        ensures
            state == self@.state(),
    {
        match self.phase {
            Phase::Idle => TransferState::Idle,
            Phase::Complete => TransferState::Complete,
            Phase::TimedOut => TransferState::TimedOut,
            Phase::ForeignError => TransferState::ForeignError,
            _ => if self.target == self.atoms.targets {
                TransferState::AwaitingTargets
            } else {
                TransferState::AwaitingData
            },
        }
    }

    /// How many milliseconds a wait that begins at `now` may last before the
    /// limit is passed.
    pub fn remaining(&self, now: u64) -> (left: u64)
        ensures
            self@.timed_out(now) ==> left == 0,
            !self@.timed_out(now) && now >= self@.last_event ==> left == TIMEOUT_LIMIT - (now
                - self@.last_event),
            now < self@.last_event ==> left == TIMEOUT_LIMIT,
    {
        if now < self.last_event {
            TIMEOUT_LIMIT
        } else if now - self.last_event > TIMEOUT_LIMIT {
            0
        } else {
            TIMEOUT_LIMIT - (now - self.last_event)
        }
    }

    /// Takes in an event that arrived at `now`; `Other` also stands for a wait
    /// that ended without an event.
    pub fn on_event(&mut self, event: X11Event, now: u64)
        ensures
            final(self)@ == old(self)@.after_event(event, now),
    {
        match self.phase {
            Phase::Waiting => {},
            _ => {
                return ;
            },
        }
        if now >= self.last_event && now - self.last_event > TIMEOUT_LIMIT {
            self.phase = Phase::TimedOut;
            return ;
        }
        match event {
            X11Event::SelectionNotify { selection, property } => {
                if selection == self.atoms.clipboard {
                    self.phase = Phase::Probing { property };
                }
            },
            X11Event::PropertyNotify { new_value } => {
                if self.incremental && new_value {
                    self.phase = Phase::Draining;
                }
            },
            X11Event::Other => {},
        }
    }

    /// Takes in that a native call of the transfer has failed: a request
    /// that could not be sent, a reply that did not come, a connection that
    /// broke. The transfer ends with `ForeignClipboardError`.
    pub fn on_failure(&mut self)
        ensures
            final(self)@ == old(self)@.after_failure(),
    {
        if self.busy() {
            self.phase = Phase::ForeignError;
        }
    }

    /// Takes in the reply to the property request that [`Self::next`] asked
    /// for, and says which property to delete before going on.
    pub fn on_reply(&mut self, reply: PropertyReply, now: u64) -> (delete: Option<u32>)
        ensures
            final(self)@ == old(self)@.after_reply(reply@, now),
            delete == old(self)@.deleted_after_reply(reply@),
    {
        let mut reply = reply;
        match self.phase {
            Phase::Probing { property } => {
                if reply.type_ == self.atoms.incr {
                    self.incremental = true;
                    self.phase = Phase::Waiting;
                    self.last_event = now;
                    Some(property)
                } else if reply.type_ != self.expected_type() {
                    self.phase = Phase::ForeignError;
                    None
                } else {
                    let long_length = reply.bytes_after / 4 + if reply.bytes_after % 4 == 0 {
                        0
                    } else {
                        1
                    };
                    self.phase = Phase::Reading { property, long_length };
                    None
                }
            },
            Phase::Reading { .. } => {
                self.data.append(&mut reply.value);
                self.phase = Phase::Complete;
                None
            },
            Phase::Draining => {
                if reply.value.len() == 0 {
                    self.phase = Phase::Complete;
                    Some(self.property)
                } else {
                    self.data.append(&mut reply.value);
                    self.phase = Phase::Waiting;
                    self.last_event = now;
                    None
                }
            },
            _ => None,
        }
    }

    /// Takes the result of an ended transfer and leaves the adapter idle.
    /// Before the end there is nothing to take.
    pub fn take_result(&mut self) -> (result: Option<Result<Vec<u8>, ClipboardError>>)
        ensures
            match old(self)@.outcome() {
                None => result is None && final(self)@ == old(self)@,
                Some(Ok(bytes)) => result matches Some(Ok(taken)) && taken@ == bytes
                    && final(self)@ == (TransferView {
                    phase: Phase::Idle,
                    data: Seq::empty(),
                    ..old(self)@
                }),
                Some(Err(error)) => result == Some(
                    Err::<Vec<u8>, ClipboardError>(error),
                ) && final(self)@ == (TransferView {
                    phase: Phase::Idle,
                    data: Seq::empty(),
                    ..old(self)@
                }),
            },
    {
        match self.phase {
            Phase::Complete => {
                let mut taken: Vec<u8> = Vec::new();
                std::mem::swap(&mut self.data, &mut taken);
                self.phase = Phase::Idle;
                Some(Ok(taken))
            },
            Phase::TimedOut => {
                self.data = Vec::new();
                self.phase = Phase::Idle;
                Some(Err(ClipboardError::Timeout))
            },
            Phase::ForeignError => {
                self.data = Vec::new();
                self.phase = Phase::Idle;
                Some(Err(ClipboardError::ForeignClipboardError))
            },
            _ => None,
        }
    }
}

/// The order of the bytes within the 32-bit values of a property.
#[derive(Debug, Clone, Copy, PartialEq, Eq, Structural)]
pub enum ByteOrder {
    LittleEndian,
    BigEndian,
}

/// The 32-bit value that four bytes hold in the given order.
pub open spec fn word_of(b0: u8, b1: u8, b2: u8, b3: u8, order: ByteOrder) -> int {
    match order {
        ByteOrder::LittleEndian => b0 + 0x100 * b1 + 0x1_0000 * b2 + 0x100_0000 * b3,
        ByteOrder::BigEndian => b3 + 0x100 * b2 + 0x1_0000 * b1 + 0x100_0000 * b0,
    }
}

/// The atoms that a list of targets holds: one for every four bytes.
pub open spec fn atoms_of(bytes: Seq<u8>, order: ByteOrder) -> Seq<int> {
    Seq::new(
        bytes.len() / 4,
        |i: int| word_of(bytes[4 * i], bytes[4 * i + 1], bytes[4 * i + 2], bytes[4 * i + 3], order),
    )
}

/// Reads the reply to a `TARGETS` conversion as a list of atoms. A length
/// that is no multiple of four means that the owner broke the protocol.
pub fn parse_atoms(bytes: &[u8], order: ByteOrder) -> (parsed: Result<Vec<u32>, ClipboardError>)
    ensures
        bytes@.len() % 4 != 0 ==> parsed == Err::<Vec<u32>, ClipboardError>(
            ClipboardError::ForeignClipboardError,
        ),
        bytes@.len() % 4 == 0 ==> (parsed matches Ok(atoms) && atoms@.map_values(|a: u32| a as int)
            == atoms_of(bytes@, order)),
{
    if bytes.len() % 4 != 0 {
        return Err(ClipboardError::ForeignClipboardError);
    }
    let count = bytes.len() / 4;
    let mut atoms: Vec<u32> = Vec::new();
    let mut i: usize = 0;
    while i < count
        invariant
            4 * count == bytes@.len(),
            bytes@.len() <= usize::MAX,
            i <= count,
            atoms@.len() == i,
            forall|k: int|
                0 <= k < i ==> atoms@[k] as int == word_of(
                    bytes@[4 * k],
                    bytes@[4 * k + 1],
                    bytes@[4 * k + 2],
                    bytes@[4 * k + 3],
                    order,
                ),
        decreases count - i,
    {
        let b0 = bytes[4 * i];
        let b1 = bytes[4 * i + 1];
        let b2 = bytes[4 * i + 2];
        let b3 = bytes[4 * i + 3];
        let atom: u32 = match order {
            ByteOrder::LittleEndian => (b0 as u32) + 0x100 * (b1 as u32) + 0x1_0000 * (b2 as u32)
                + 0x100_0000 * (b3 as u32),
            ByteOrder::BigEndian => (b3 as u32) + 0x100 * (b2 as u32) + 0x1_0000 * (b1 as u32)
                + 0x100_0000 * (b0 as u32),
        };
        atoms.push(atom);
        i += 1;
    }
    Ok(atoms)
}

/// One chunk of an incremental transfer on its way: the events that come
/// while the transfer waits for it, each with its time; the time of the
/// property change that announces it; the reply that holds it, and the time
/// at which the reply is taken in.
pub struct Delivery {
    pub idle: Seq<(X11Event, u64)>,
    pub notified: u64,
    pub reply: ReplyView,
    pub read: u64,
}

/// Whether an event leaves an incremental transfer waiting as it is: any
/// event but the owner's notification for the clipboard and the change of a
/// property to a new value.
pub open spec fn passes_by(clipboard: u32, event: X11Event) -> bool {
    match event {
        X11Event::SelectionNotify { selection, .. } => selection != clipboard,
        X11Event::PropertyNotify { new_value } => !new_value,
        X11Event::Other => true,
    }
}

/// Whether a delivery keeps to the course of an incremental transfer that
/// last made progress at `before`: the events that come first pass by, and
/// they and the announcement come within the limit.
pub open spec fn on_course(clipboard: u32, before: u64, delivery: Delivery) -> bool {
    &&& delivery.notified <= before + TIMEOUT_LIMIT
    &&& forall|i: int|
        0 <= i < delivery.idle.len() ==> passes_by(clipboard, (#[trigger] delivery.idle[i]).0)
            && delivery.idle[i].1 <= before + TIMEOUT_LIMIT
}

/// The time at which the last of the deliveries was read, or `start` if
/// there was none.
pub open spec fn latest(start: u64, deliveries: Seq<Delivery>) -> u64 {
    if deliveries.len() == 0 {
        start
    } else {
        deliveries.last().read
    }
}

/// Whether every delivery keeps to the course, the first after `start` and
/// each other after the one before it was read.
pub open spec fn all_on_course(clipboard: u32, start: u64, deliveries: Seq<Delivery>) -> bool
    decreases deliveries.len(),
{
    if deliveries.len() == 0 {
        true
    } else {
        all_on_course(clipboard, start, deliveries.drop_last()) && on_course(
            clipboard,
            latest(start, deliveries.drop_last()),
            deliveries.last(),
        )
    }
}

/// The bytes of all deliveries, one after the other.
pub open spec fn joined(deliveries: Seq<Delivery>) -> Seq<u8>
    decreases deliveries.len(),
{
    if deliveries.len() == 0 {
        Seq::empty()
    } else {
        joined(deliveries.drop_last()) + deliveries.last().reply.value
    }
}

/// The transfer after the events have come in order, each at its time.
pub open spec fn after_events(transfer: TransferView, events: Seq<(X11Event, u64)>) -> TransferView
    decreases events.len(),
{
    if events.len() == 0 {
        transfer
    } else {
        after_events(transfer, events.drop_last()).after_event(events.last().0, events.last().1)
    }
}

/// The transfer after one delivery: its idle events, the announcement of a
/// new property value, and the reply.
pub open spec fn after_delivery(transfer: TransferView, delivery: Delivery) -> TransferView {
    after_events(transfer, delivery.idle).after_event(
        X11Event::PropertyNotify { new_value: true },
        delivery.notified,
    ).after_reply(delivery.reply, delivery.read)
}

/// The transfer after the deliveries, in order.
pub open spec fn after_deliveries(transfer: TransferView, deliveries: Seq<Delivery>) -> TransferView
    decreases deliveries.len(),
{
    if deliveries.len() == 0 {
        transfer
    } else {
        after_delivery(after_deliveries(transfer, deliveries.drop_last()), deliveries.last())
    }
}

/// Events that pass by, and come within the limit, leave a waiting
/// incremental transfer as it is.
pub proof fn lemma_events_pass_by(transfer: TransferView, events: Seq<(X11Event, u64)>)
    requires
        transfer.phase is Waiting,
        transfer.incremental,
        forall|i: int|
            0 <= i < events.len() ==> passes_by(transfer.atoms.clipboard, (#[trigger] events[i]).0)
                && events[i].1 <= transfer.last_event + TIMEOUT_LIMIT,
    ensures
        after_events(transfer, events) == transfer,
    decreases events.len(),
{
    if events.len() > 0 {
        let head = events.drop_last();
        lemma_events_pass_by(transfer, head);
    }
}

/// A delivery on course whose chunk is not empty appends the chunk, and the
/// incremental transfer waits for the next.
pub proof fn lemma_chunk_is_appended(transfer: TransferView, delivery: Delivery)
    requires
        transfer.phase is Waiting,
        transfer.incremental,
        delivery.reply.value.len() > 0,
        on_course(transfer.atoms.clipboard, transfer.last_event, delivery),
    ensures
        after_delivery(transfer, delivery) == (TransferView {
            data: transfer.data + delivery.reply.value,
            last_event: delivery.read,
            ..transfer
        }),
{
    lemma_events_pass_by(transfer, delivery.idle);
}

/// While the deliveries are on course and their chunks not empty, an
/// incremental transfer keeps waiting and has received the chunks joined.
pub proof fn lemma_chunks_accumulate(transfer: TransferView, deliveries: Seq<Delivery>)
    requires
        transfer.phase is Waiting,
        transfer.incremental,
        forall|k: int|
            0 <= k < deliveries.len() ==> (#[trigger] deliveries[k]).reply.value.len() > 0,
        all_on_course(transfer.atoms.clipboard, transfer.last_event, deliveries),
    ensures
        after_deliveries(transfer, deliveries) == (TransferView {
            data: transfer.data + joined(deliveries),
            last_event: latest(transfer.last_event, deliveries),
            ..transfer
        }),
    decreases deliveries.len(),
{
    if deliveries.len() > 0 {
        let head = deliveries.drop_last();
        lemma_chunks_accumulate(transfer, head);
        lemma_chunk_is_appended(after_deliveries(transfer, head), deliveries.last());
        assert((transfer.data + joined(head)) + deliveries.last().reply.value =~= transfer.data
            + joined(deliveries));
    }
}

/// Reassembly: an incremental transfer completes with the chunks joined in
/// the order of their arrival, and so with the same bytes as a transfer that
/// reads the content in one piece, however the content is split. The owner
/// announces the incremental transfer; the chunks, none of them empty, are
/// each announced by a new property value and read; an empty chunk ends the
/// stream. Between them any events may come that pass by, at any times
/// within the limit.
pub proof fn lemma_incremental_equals_single(
    start: TransferView,
    owner_property: u32,
    announcement: ReplyView,
    announced: u64,
    deliveries: Seq<Delivery>,
    end: Delivery,
    probe: ReplyView,
    probed: u64,
    whole: ReplyView,
    read: u64,
)
    requires
        start.phase == (Phase::Probing { property: owner_property }),
        start.data.len() == 0,
        start.atoms.incr != start.expected_type(),
        announcement.type_ == start.atoms.incr,
        forall|k: int|
            0 <= k < deliveries.len() ==> (#[trigger] deliveries[k]).reply.value.len() > 0,
        all_on_course(start.atoms.clipboard, announced, deliveries),
        end.reply.value.len() == 0,
        on_course(start.atoms.clipboard, latest(announced, deliveries), end),
        probe.type_ == start.expected_type(),
        whole.value == joined(deliveries),
    ensures
        ({
            let streamed = after_delivery(
                after_deliveries(start.after_reply(announcement, announced), deliveries),
                end,
            );
            let single = start.after_reply(probe, probed).after_reply(whole, read);
            &&& streamed.outcome() == Some(Ok::<Seq<u8>, ClipboardError>(joined(deliveries)))
            &&& single.outcome() == streamed.outcome()
        }),
{
    let incremental = start.after_reply(announcement, announced);
    lemma_chunks_accumulate(incremental, deliveries);
    let collected = after_deliveries(incremental, deliveries);
    lemma_events_pass_by(collected, end.idle);
}
} // verus!
