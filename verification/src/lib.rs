//! Retrieval of clipboard content through one event model.
//!
//! The crate holds the rules of the paste-request protocol: the shared error
//! and event vocabulary, the negotiation of a content representation, and the
//! decision logic of the X11, Wayland, Windows and browser adapters. Native
//! calls are made by the embedding code, which feeds their results in as plain
//! values.

pub mod clipboard_data;
pub mod clipboard_error;
pub mod data_access;
pub mod event;
pub mod format_conversion;
pub mod html;
pub mod implementations;
pub mod mime_type;
pub mod platform;
pub mod session;
pub mod text;
pub mod wasm;
pub mod wayland;
pub mod windows;
pub mod x11;

pub use clipboard_data::{detect_image_type, ClipboardData, Image, ImageFormat, Text};
pub use clipboard_error::{ClipboardError, ErrorView};
pub use data_access::{
    AccessView, DataAccess, InternalDataAccess, ReadFromClipboard, WriteToClipboard,
};
pub use event::{ClipboardEvent, ClipboardEventSource, ClipboardHandler, WasmOrSend};
pub use mime_type::MimeType;
pub use platform::{Adapter, DisplayKind};
pub use session::{Session, SessionView};
