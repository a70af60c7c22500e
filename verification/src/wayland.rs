//! The Wayland adapter's view of the seats: which capabilities each has,
//! which one the user touched last, and what a paste request comes to.

use std::collections::HashMap;
use vstd::prelude::*;
use vstd::string::StringExecFns;
use crate::clipboard_error::{ClipboardError, ErrorView};
use crate::data_access::DataAccess;
use crate::event::{ClipboardEventSource, ClipboardHandler, EventRecord};
use crate::session::Session;

verus! {
broadcast use vstd::std_specs::hash::group_hash_axioms;

/// What the adapter's thread is asked to do.
#[derive(Debug, Clone, Copy, PartialEq, Eq, Structural)]
pub enum ThreadCommand {
    RequestData,
    Exit,
}

/// A capability that a seat gains or loses.
#[derive(Debug, Clone, Copy, PartialEq, Eq, Structural)]
pub enum Capability {
    Keyboard,
    Pointer,
    Touch,
    Other,
}

/// What the adapter reads of a keyboard event.
#[derive(Debug, Clone, Copy, PartialEq, Eq, Structural)]
pub enum KeyboardEvent {
    Key,
    Modifiers,
    Other,
}

/// What the adapter reads of a pointer event.
#[derive(Debug, Clone, Copy, PartialEq, Eq, Structural)]
pub enum PointerEventKind {
    Press,
    Release,
    Other,
}

/// Which handles the adapter holds for one seat.
#[derive(Debug, Clone, Copy, PartialEq, Eq, Structural)]
pub struct SeatCapabilities {
    pub keyboard: bool,
    pub pointer: bool,
    pub touch: bool,
    pub data_device: bool,
}

/// What a seat has once a capability was announced. The keyboard brings the
/// data device with it where the compositor offers data devices at all; the
/// pointer and the touch handle are held if they could be acquired.
pub open spec fn with_capability(
    seat: SeatCapabilities,
    capability: Capability,
    acquired: bool,
    data_device_manager: bool,
) -> SeatCapabilities {
    match capability {
        Capability::Keyboard => SeatCapabilities {
            keyboard: true,
            data_device: seat.data_device || data_device_manager,
            ..seat
        },
        Capability::Pointer => SeatCapabilities { pointer: acquired, ..seat },
        Capability::Touch => SeatCapabilities { touch: acquired, ..seat },
        Capability::Other => seat,
    }
}

/// What a seat has once a capability was withdrawn. The data device goes
/// with the keyboard.
pub open spec fn without_capability(
    seat: SeatCapabilities,
    capability: Capability,
) -> SeatCapabilities {
    match capability {
        Capability::Keyboard => SeatCapabilities { keyboard: false, data_device: false, ..seat },
        Capability::Pointer => SeatCapabilities { pointer: false, ..seat },
        Capability::Touch => SeatCapabilities { touch: false, ..seat },
        Capability::Other => seat,
    }
}

/// Whether any of the pointer events is a press or a release.
pub open spec fn has_button_event(events: Seq<PointerEventKind>) -> bool {
    exists|i: int| 0 <= i < events.len() && (events[i] is Press || events[i] is Release)
}

/// Where the transfer of one representation through a pipe can fail.
#[derive(Debug, Clone, Copy, PartialEq, Eq, Structural)]
pub enum ReceiveFailure {
    /// The offer did not open a pipe for the representation.
    Refused,
    /// The pipe could not be read to its end.
    Unreadable,
}

/// The description under which a failed transfer is reported.
pub open spec fn receive_failure_text(failure: ReceiveFailure) -> Seq<char> {
    match failure {
        ReceiveFailure::Refused => "selection does not want to give after offering wayland"@,
        ReceiveFailure::Unreadable => "Failed to read clipboard content"@,
    }
}

/// The error that a failed transfer of one representation is reported as.
pub fn receive_error(failure: ReceiveFailure) -> (error: ClipboardError)
    ensures
        error@ == ErrorView::Unknown(receive_failure_text(failure)),
{
    match failure {
        ReceiveFailure::Refused => ClipboardError::Unknown(
            String::from_str("selection does not want to give after offering wayland"),
        ),
        ReceiveFailure::Unreadable => ClipboardError::Unknown(
            String::from_str("Failed to read clipboard content"),
        ),
    }
}

/// What a paste request comes to, before the selection is looked at: the
/// seat whose data device holds it, or the reason why there is none.
pub open spec fn located(
    seats: Map<u32, SeatCapabilities>,
    latest_seat: Option<u32>,
) -> Result<u32, ErrorView> {
    match latest_seat {
        None => Err(ErrorView::Unknown("No latest in wayland"@)),
        Some(seat) => if !seats.contains_key(seat) {
            Err(ErrorView::Unknown("Latest seat not available in wayland"@))
        } else if !seats[seat].data_device {
            Err(ErrorView::Unknown("no data device in wayland"@))
        } else {
            Ok(seat)
        },
    }
}

/// The seats of the display and the one with the latest input.
pub struct WaylandHandler {
    seats: HashMap<u32, SeatCapabilities>,
    latest_seat: Option<u32>,
    data_device_manager: bool,
    exit: bool,
}

impl WaylandHandler {
    /// The capabilities held, by seat.
    pub closed spec fn seats(&self) -> Map<u32, SeatCapabilities> {
        self.seats@
    }

    /// The seat that last had a key, button or touch event.
    pub closed spec fn latest_seat(&self) -> Option<u32> {
        self.latest_seat
    }

    /// Whether the compositor offers data devices.
    pub closed spec fn data_device_manager(&self) -> bool {
        self.data_device_manager
    }

    /// Whether the adapter's thread has been told to end.
    pub closed spec fn exiting(&self) -> bool {
        self.exit
    }

    /// A seat holds a data device only together with its keyboard.
    pub closed spec fn wf(&self) -> bool {
        forall|seat: u32| #[trigger]
            self.seats@.contains_key(seat) && self.seats@[seat].data_device
                ==> self.seats@[seat].keyboard
    }

    /// The state for a display whose seats are not known yet.
    pub fn new(data_device_manager: bool) -> (handler: Self)
        ensures
            handler.wf(),
            handler.seats() == Map::<u32, SeatCapabilities>::empty(),
            handler.latest_seat() is None,
            handler.data_device_manager() == data_device_manager,
            !handler.exiting(),
    {
        WaylandHandler {
            seats: HashMap::new(),
            latest_seat: None,
            data_device_manager,
            exit: false,
        }
    }

    /// Whether the adapter's thread has been told to end.
    pub fn should_exit(&self) -> (exit: bool)
        ensures
            exit == self.exiting(),
    {
        self.exit
    }

    /// Takes in a seat, with no capability yet.
    pub fn new_seat(&mut self, seat: u32)
        requires
            old(self).wf(),
        ensures
            final(self).wf(),
            final(self).seats() == old(self).seats().insert(
                seat,
                SeatCapabilities {
                    keyboard: false,
                    pointer: false,
                    touch: false,
                    data_device: false,
                },
            ),
            final(self).latest_seat() == old(self).latest_seat(),
            final(self).data_device_manager() == old(self).data_device_manager(),
            final(self).exiting() == old(self).exiting(),
    {
        self.seats.insert(
            seat,
            SeatCapabilities { keyboard: false, pointer: false, touch: false, data_device: false },
        );
    }

    /// Forgets a seat.
    pub fn remove_seat(&mut self, seat: u32)
        requires
            old(self).wf(),
        ensures
            final(self).wf(),
            final(self).seats() == old(self).seats().remove(seat),
            final(self).latest_seat() == old(self).latest_seat(),
            final(self).data_device_manager() == old(self).data_device_manager(),
            final(self).exiting() == old(self).exiting(),
    {
        self.seats.remove(&seat);
    }

    /// The capabilities held for a seat.
    pub fn capabilities(&self, seat: u32) -> (held: Option<SeatCapabilities>)
        ensures
            held == if self.seats().contains_key(seat) {
                Some(self.seats()[seat])
            } else {
                None
            },
    {
        match self.seats.get(&seat) {
            Some(held) => Some(*held),
            None => None,
        }
    }

    /// Takes in a capability that a seat has gained; `acquired` says whether
    /// the handle for a pointer or a touch device could be had. Returns
    /// whether the seat is known; an unknown seat changes nothing.
    pub fn new_capability(
        &mut self,
        seat: u32,
        capability: Capability,
        acquired: bool,
    ) -> (known: bool)
        requires
            old(self).wf(),
        ensures
            final(self).wf(),
            known == old(self).seats().contains_key(seat),
            known ==> final(self).seats() == old(self).seats().insert(
                seat,
                with_capability(
                    old(self).seats()[seat],
                    capability,
                    acquired,
                    old(self).data_device_manager(),
                ),
            ),
            !known ==> final(self).seats() == old(self).seats(),
            final(self).latest_seat() == old(self).latest_seat(),
            final(self).data_device_manager() == old(self).data_device_manager(),
            final(self).exiting() == old(self).exiting(),
    {
        let held = match self.capabilities(seat) {
            Some(held) => held,
            None => {
                return false;
            },
        };
        let updated = match capability {
            Capability::Keyboard => SeatCapabilities {
                keyboard: true,
                pointer: held.pointer,
                touch: held.touch,
                data_device: held.data_device || self.data_device_manager,
            },
            Capability::Pointer => SeatCapabilities {
                keyboard: held.keyboard,
                pointer: acquired,
                touch: held.touch,
                data_device: held.data_device,
            },
            Capability::Touch => SeatCapabilities {
                keyboard: held.keyboard,
                pointer: held.pointer,
                touch: acquired,
                data_device: held.data_device,
            },
            Capability::Other => held,
        };
        self.seats.insert(seat, updated);
        true
    }

    /// Takes in a capability that a seat has lost. Returns whether the seat
    /// is known; an unknown seat changes nothing.
    pub fn remove_capability(&mut self, seat: u32, capability: Capability) -> (known: bool)
        requires
            old(self).wf(),
        ensures
            final(self).wf(),
            known == old(self).seats().contains_key(seat),
            known ==> final(self).seats() == old(self).seats().insert(
                seat,
                without_capability(old(self).seats()[seat], capability),
            ),
            !known ==> final(self).seats() == old(self).seats(),
            final(self).latest_seat() == old(self).latest_seat(),
            final(self).data_device_manager() == old(self).data_device_manager(),
            final(self).exiting() == old(self).exiting(),
    {
        let held = match self.capabilities(seat) {
            Some(held) => held,
            None => {
                return false;
            },
        };
        let updated = match capability {
            Capability::Keyboard => SeatCapabilities {
                keyboard: false,
                pointer: held.pointer,
                touch: held.touch,
                data_device: false,
            },
            Capability::Pointer => SeatCapabilities {
                keyboard: held.keyboard,
                pointer: false,
                touch: held.touch,
                data_device: held.data_device,
            },
            Capability::Touch => SeatCapabilities {
                keyboard: held.keyboard,
                pointer: held.pointer,
                touch: false,
                data_device: held.data_device,
            },
            Capability::Other => held,
        };
        self.seats.insert(seat, updated);
        true
    }

    /// Takes in a keyboard event of a seat: a key or a change of modifiers
    /// makes the seat the latest.
    pub fn keyboard_event(&mut self, seat: u32, event: KeyboardEvent)
        ensures
            final(self).latest_seat() == if event is Key || event is Modifiers {
                Some(seat)
            } else {
                old(self).latest_seat()
            },
            final(self).seats() == old(self).seats(),
            final(self).data_device_manager() == old(self).data_device_manager(),
            final(self).exiting() == old(self).exiting(),
            old(self).wf() ==> final(self).wf(),
    {
        match event {
            KeyboardEvent::Key | KeyboardEvent::Modifiers => {
                self.latest_seat = Some(seat);
            },
            KeyboardEvent::Other => {},
        }
    }

    /// Takes in a touch that went down or up on a seat, which makes the seat
    /// the latest.
    pub fn touch_event(&mut self, seat: u32)
        ensures
            final(self).latest_seat() == Some(seat),
            final(self).seats() == old(self).seats(),
            final(self).data_device_manager() == old(self).data_device_manager(),
            final(self).exiting() == old(self).exiting(),
            old(self).wf() ==> final(self).wf(),
    {
        self.latest_seat = Some(seat);
    }

    /// Takes in the pointer events of one frame: a button that was pressed
    /// or released makes the seat the latest.
    pub fn pointer_frame(&mut self, seat: u32, events: &[PointerEventKind])
        ensures
            final(self).latest_seat() == if has_button_event(events@) {
                Some(seat)
            } else {
                old(self).latest_seat()
            },
            final(self).seats() == old(self).seats(),
            final(self).data_device_manager() == old(self).data_device_manager(),
            final(self).exiting() == old(self).exiting(),
            old(self).wf() ==> final(self).wf(),
    {
        let mut i: usize = 0;
        while i < events.len()
            invariant
                i <= events@.len(),
                forall|k: int| 0 <= k < i ==> !(events@[k] is Press || events@[k] is Release),
                *self == *old(self),
            decreases events@.len() - i,
        {
            match events[i] {
                PointerEventKind::Press | PointerEventKind::Release => {
                    self.latest_seat = Some(seat);
                    return ;
                },
                PointerEventKind::Other => {},
            }
            i += 1;
        }
    }

    /// Finds the data device for a paste: that of the seat with the latest
    /// input. Without such a seat the request fails rather than guess.
    pub fn locate_data_device(&self) -> (found: Result<u32, ClipboardError>)
        ensures
            match located(self.seats(), self.latest_seat()) {
                Ok(seat) => found == Ok::<u32, ClipboardError>(seat),
                Err(error) => found matches Err(e) && e@ == error,
            },
    {
        let latest = match self.latest_seat {
            Some(latest) => latest,
            None => {
                return Err(ClipboardError::Unknown(String::from_str("No latest in wayland")));
            },
        };
        let held = match self.capabilities(latest) {
            Some(held) => held,
            None => {
                return Err(
                    ClipboardError::Unknown(
                        String::from_str("Latest seat not available in wayland"),
                    ),
                );
            },
        };
        if !held.data_device {
            return Err(ClipboardError::Unknown(String::from_str("no data device in wayland")));
        }
        Ok(latest)
    }

    /// Opens a paste transaction. `Started` is delivered first; if no data
    /// device can be found the failure is delivered at once. Otherwise the
    /// transaction stays in flight and its source comes back with the seat
    /// whose selection is to be looked up, for [`Self::complete_request`].
    pub fn request_data<H: ClipboardHandler>(&self, session: &mut Session<H>) -> (pending: Option<
        (ClipboardEventSource, u32),
    >)
        requires
            old(session).wf(),
        ensures
            final(session).wf(),
            final(session)@ == match located(self.seats(), self.latest_seat()) {
                Ok(_) => old(session)@.started(),
                Err(error) => old(session)@.started().ended(
                    EventRecord::Failed { source: old(session).next_source(), error },
                ),
            },
            match pending {
                Some((minted, seat)) => {
                    &&& old(session).next_source() < usize::MAX
                    &&& minted@ == old(session).next_source()
                    &&& located(self.seats(), self.latest_seat()) == Ok::<u32, ErrorView>(seat)
                },
                None => old(session).next_source() == usize::MAX || located(
                    self.seats(),
                    self.latest_seat(),
                ) is Err,
            },
    {
        proof {
            session.lemma_transactions_in_order(session.next_source());
        }
        let source = match session.started_paste_handling() {
            Some(source) => source,
            None => {
                return None;
            },
        };
        match self.locate_data_device() {
            Ok(seat) => Some((source, seat)),
            Err(error) => {
                session.failed_paste_handling(error, source);
                None
            },
        }
    }

    /// Ends a paste transaction with what the data device holds: a selection
    /// offer becomes the paste result; without one the clipboard is empty.
    pub fn complete_request<H: ClipboardHandler>(
        session: &mut Session<H>,
        source: ClipboardEventSource,
        offer: Option<DataAccess<H::Access>>,
    ) -> (delivered: bool)
        requires
            old(session).wf(),
        ensures
            final(session).wf(),
            delivered == old(session).pending().contains(source@),
            final(session)@ == old(session)@.ended(
                match offer {
                    Some(data) => EventRecord::PasteResult { source: source@, access: data@ },
                    None => EventRecord::Failed { source: source@, error: ErrorView::Empty },
                },
            ),
    {
        match offer {
            Some(data) => session.paste_result(&data, source),
            None => session.failed_paste_handling(ClipboardError::Empty, source),
        }
    }

    /// Carries out a command from the owner of the adapter: a request for
    /// data opens a paste transaction, as [`Self::request_data`] does; the
    /// command to exit marks the adapter for its thread to end.
    pub fn on_command<H: ClipboardHandler>(
        &mut self,
        command: ThreadCommand,
        session: &mut Session<H>,
    ) -> (pending: Option<(ClipboardEventSource, u32)>)
        requires
            old(session).wf(),
        ensures
            final(session).wf(),
            final(self).seats() == old(self).seats(),
            final(self).latest_seat() == old(self).latest_seat(),
            final(self).data_device_manager() == old(self).data_device_manager(),
            old(self).wf() ==> final(self).wf(),
            final(self).exiting() == (old(self).exiting() || command is Exit),
            final(session)@ == match command {
                ThreadCommand::Exit => old(session)@,
                ThreadCommand::RequestData => match located(
                    old(self).seats(),
                    old(self).latest_seat(),
                ) {
                    Ok(_) => old(session)@.started(),
                    Err(error) => old(session)@.started().ended(
                        EventRecord::Failed { source: old(session).next_source(), error },
                    ),
                },
            },
            match pending {
                Some((minted, seat)) => {
                    &&& command is RequestData
                    &&& old(session).next_source() < usize::MAX
                    &&& minted@ == old(session).next_source()
                    &&& located(old(self).seats(), old(self).latest_seat()) == Ok::<u32, ErrorView>(
                        seat,
                    )
                },
                None => command is Exit || old(session).next_source() == usize::MAX || located(
                    old(self).seats(),
                    old(self).latest_seat(),
                ) is Err,
            },
    {
        match command {
            ThreadCommand::RequestData => self.request_data(session),
            ThreadCommand::Exit => {
                self.exit = true;
                None
            },
        }
    }
}
} // verus!
