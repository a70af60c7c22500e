//! The closed taxonomy of failures.

use vstd::prelude::*;

verus! {
/// Why a transaction, or the fetch of a single representation, failed.
#[derive(Debug, Clone, PartialEq, Eq)]
pub enum ClipboardError {
    Timeout,
    /// The clipboard owner on the other side did not keep to the agreed handshake.
    ForeignClipboardError,
    ClipboardDataUnavailable,
    AllocationFailed,
    SetFailed,
    OpenFailed,
    FormatNotAvailable,
    LockFailed,
    ReadFailed,
    Utf16ConversionFailed,
    Empty,
    InUse,
    WriteFailed,
    UnsupportedMimeType,
    Unknown(String),
}

/// The mathematical value of a [`ClipboardError`]: the same variants, with the
/// description of `Unknown` as a sequence of characters.
pub enum ErrorView {
    Timeout,
    ForeignClipboardError,
    ClipboardDataUnavailable,
    AllocationFailed,
    SetFailed,
    OpenFailed,
    FormatNotAvailable,
    LockFailed,
    ReadFailed,
    Utf16ConversionFailed,
    Empty,
    InUse,
    WriteFailed,
    UnsupportedMimeType,
    Unknown(Seq<char>),
}

impl View for ClipboardError {
    type V = ErrorView;

    open spec fn view(&self) -> ErrorView {
        match self {
            ClipboardError::Timeout => ErrorView::Timeout,
            ClipboardError::ForeignClipboardError => ErrorView::ForeignClipboardError,
            ClipboardError::ClipboardDataUnavailable => ErrorView::ClipboardDataUnavailable,
            ClipboardError::AllocationFailed => ErrorView::AllocationFailed,
            ClipboardError::SetFailed => ErrorView::SetFailed,
            ClipboardError::OpenFailed => ErrorView::OpenFailed,
            ClipboardError::FormatNotAvailable => ErrorView::FormatNotAvailable,
            ClipboardError::LockFailed => ErrorView::LockFailed,
            ClipboardError::ReadFailed => ErrorView::ReadFailed,
            ClipboardError::Utf16ConversionFailed => ErrorView::Utf16ConversionFailed,
            ClipboardError::Empty => ErrorView::Empty,
            ClipboardError::InUse => ErrorView::InUse,
            ClipboardError::WriteFailed => ErrorView::WriteFailed,
            ClipboardError::UnsupportedMimeType => ErrorView::UnsupportedMimeType,
            ClipboardError::Unknown(description) => ErrorView::Unknown(description@),
        }
    }
}

/// The errors that have a numeric code, in the order of their codes: the code
/// of an error is its position in this sequence.
pub open spec fn coded_errors() -> Seq<ErrorView> {
    seq![
        ErrorView::Timeout,
        ErrorView::ForeignClipboardError,
        ErrorView::ClipboardDataUnavailable,
        ErrorView::AllocationFailed,
        ErrorView::SetFailed,
        ErrorView::OpenFailed,
        ErrorView::FormatNotAvailable,
        ErrorView::LockFailed,
        ErrorView::ReadFailed,
        ErrorView::Utf16ConversionFailed,
        ErrorView::Empty,
        ErrorView::InUse,
        ErrorView::WriteFailed,
        ErrorView::UnsupportedMimeType,
    ]
}

impl ClipboardError {
    /// The error that `code` stands for, if it stands for one.
    pub fn try_from(code: u32) -> (decoded: Option<Self>)
        ensures
            code < coded_errors().len() ==> (decoded matches Some(error) && error@
                == coded_errors()[code as int]),
            code >= coded_errors().len() ==> decoded is None,
    {
        match code {
            0 => Some(Self::Timeout),
            1 => Some(Self::ForeignClipboardError),
            2 => Some(Self::ClipboardDataUnavailable),
            3 => Some(Self::AllocationFailed),
            4 => Some(Self::SetFailed),
            5 => Some(Self::OpenFailed),
            6 => Some(Self::FormatNotAvailable),
            7 => Some(Self::LockFailed),
            8 => Some(Self::ReadFailed),
            9 => Some(Self::Utf16ConversionFailed),
            10 => Some(Self::Empty),
            11 => Some(Self::InUse),
            12 => Some(Self::WriteFailed),
            13 => Some(Self::UnsupportedMimeType),
            _ => None,
        }
    }

    /// The numeric code of this error. `Unknown` carries a description and has
    /// no code.
    pub fn code(&self) -> (code: Option<u32>)
        ensures
            self@ is Unknown <==> code is None,
            code matches Some(c) ==> (c < coded_errors().len() && coded_errors()[c as int]
                == self@),
    {
        match self {
            ClipboardError::Timeout => Some(0),
            ClipboardError::ForeignClipboardError => Some(1),
            ClipboardError::ClipboardDataUnavailable => Some(2),
            ClipboardError::AllocationFailed => Some(3),
            ClipboardError::SetFailed => Some(4),
            ClipboardError::OpenFailed => Some(5),
            ClipboardError::FormatNotAvailable => Some(6),
            ClipboardError::LockFailed => Some(7),
            ClipboardError::ReadFailed => Some(8),
            ClipboardError::Utf16ConversionFailed => Some(9),
            ClipboardError::Empty => Some(10),
            ClipboardError::InUse => Some(11),
            ClipboardError::WriteFailed => Some(12),
            ClipboardError::UnsupportedMimeType => Some(13),
            ClipboardError::Unknown(_) => None,
        }
    }
}

/// No two codes stand for the same error, so encoding an error and decoding
/// the code gives the error back.
pub proof fn lemma_codes_are_distinct(first: u32, second: u32)
    requires
        first < coded_errors().len(),
        second < coded_errors().len(),
        coded_errors()[first as int] == coded_errors()[second as int],
    ensures
        first == second,
{
}
} // verus!
