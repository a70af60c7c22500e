//! The choice of the adapter from the host's display handle.

use vstd::prelude::*;
use raw_window_handle::RawDisplayHandle;
use crate::clipboard_error::{ClipboardError, ErrorView};
use crate::event::{ClipboardEventSource, ClipboardHandler, EventRecord};
use crate::session::Session;

verus! {
/// `raw_window_handle::RawDisplayHandle`, carried through without a look
/// inside.
#[verifier::external_type_specification]
#[verifier::external_body]
pub struct ExRawDisplayHandle(RawDisplayHandle);

/// The kinds of display that an adapter exists for, and `Other` for the rest.
#[derive(Debug, Clone, Copy, PartialEq, Eq, Structural)]
pub enum DisplayKind {
    Xlib,
    Xcb,
    Wayland,
    Windows,
    Web,
    Other,
}

/// The adapters, of which an engine runs exactly one.
#[derive(Debug, Clone, Copy, PartialEq, Eq, Structural)]
pub enum Adapter {
    X11,
    Wayland,
    Windows,
    Browser,
}

/// The adapter that serves a kind of display.
pub open spec fn adapter_of(kind: DisplayKind) -> Option<Adapter> {
    match kind {
        DisplayKind::Xlib | DisplayKind::Xcb => Some(Adapter::X11),
        DisplayKind::Wayland => Some(Adapter::Wayland),
        DisplayKind::Windows => Some(Adapter::Windows),
        DisplayKind::Web => Some(Adapter::Browser),
        DisplayKind::Other => None,
    }
}

/// The kind of display that a `raw_window_handle::RawDisplayHandle` stands
/// for: which of its variants it is.
pub uninterp spec fn kind_of_display(handle: RawDisplayHandle) -> DisplayKind;

/// Tells the variants of `raw_window_handle::RawDisplayHandle` apart by a
/// match on the handle. The result depends on the variant alone.
#[verifier::external_body]
fn display_kind(handle: &RawDisplayHandle) -> (kind: DisplayKind)
    ensures
        kind == kind_of_display(*handle),
{
    match handle {
        RawDisplayHandle::Xlib(_) => DisplayKind::Xlib,
        RawDisplayHandle::Xcb(_) => DisplayKind::Xcb,
        RawDisplayHandle::Wayland(_) => DisplayKind::Wayland,
        RawDisplayHandle::Windows(_) => DisplayKind::Windows,
        RawDisplayHandle::Web(_) => DisplayKind::Web,
        _ => DisplayKind::Other,
    }
}

/// Takes in a request for a display that no adapter serves: the transaction
/// is opened and ends at once, with the clipboard's data unavailable.
pub fn request_without_adapter<H: ClipboardHandler>(session: &mut Session<H>) -> (minted: Option<
    ClipboardEventSource,
>)
    requires
        old(session).wf(),
    ensures
        final(session).wf(),
        final(session)@ == old(session)@.started().ended(
            EventRecord::Failed {
                source: old(session).next_source(),
                error: ErrorView::ClipboardDataUnavailable,
            },
        ),
        match minted {
            Some(source) => old(session).next_source() < usize::MAX && source@
                == old(session).next_source(),
            None => old(session).next_source() == usize::MAX,
        },
{
    session.refuse_paste_handling(ClipboardError::ClipboardDataUnavailable)
}

impl Adapter {
    /// The adapter that serves a kind of display, if one does.
    pub fn for_kind(kind: DisplayKind) -> (adapter: Option<Adapter>)
        ensures
            adapter == adapter_of(kind),
    {
        match kind {
            DisplayKind::Xlib | DisplayKind::Xcb => Some(Adapter::X11),
            DisplayKind::Wayland => Some(Adapter::Wayland),
            DisplayKind::Windows => Some(Adapter::Windows),
            DisplayKind::Web => Some(Adapter::Browser),
            DisplayKind::Other => None,
        }
    }

    /// The adapter for the display behind `handle`: the one that serves its
    /// kind, or none where no adapter exists for it.
    pub fn select(handle: &RawDisplayHandle) -> (adapter: Option<Adapter>)
        ensures
            adapter == adapter_of(kind_of_display(*handle)),
    {
        let kind = display_kind(handle);
        Adapter::for_kind(kind)
    }
}
} // verus!
