//! Lazy access to the representations of one paste.

use vstd::prelude::*;
use crate::clipboard_error::{ClipboardError, ErrorView};
use crate::text::{contains_text, texts};

verus! {
/// The mathematical value of what a fetch gives: the bytes, or the failure.
pub open spec fn answer_view(answer: Result<Vec<u8>, ClipboardError>) -> Result<
    Seq<u8>,
    ErrorView,
> {
    match answer {
        Ok(bytes) => Ok(bytes@),
        Err(error) => Err(error@),
    }
}

/// What an adapter provides for one transaction: the names of the
/// representations on offer and the native transfer of one of them. Each call
/// may enter the native transfer path again, so the same fetch may give one
/// answer now and another later.
pub trait InternalDataAccess {
    /// Whether `answer` is one that a fetch of `mime_type` may give. An
    /// adapter that says nothing here admits every answer, as one whose
    /// transfers go through the system must; an adapter that holds the
    /// content itself admits the answers that it can give.
    open spec fn may_answer(
        &self,
        mime_type: Seq<char>,
        answer: Result<Seq<u8>, ErrorView>,
    ) -> bool {
        true
    }

    /// Whether `types` is a list of representations that the adapter may
    /// say it has on offer. An adapter that says nothing here admits every
    /// list.
    open spec fn may_offer(&self, types: Seq<Seq<char>>) -> bool {
        true
    }

    fn mime_types(&self) -> (types: Vec<String>)
        ensures
            self.may_offer(texts(types@)),
    ;

    fn get_raw_data(&self, mime_type: &str) -> (fetched: Result<Vec<u8>, ClipboardError>)
        ensures
            self.may_answer(mime_type@, answer_view(fetched)),
    ;
}

/// A value that an application reads from the clipboard: it decides from the
/// offered representations whether it can be read, and fetches what it needs.
pub trait ReadFromClipboard: Sized {
    /// Whether `answer` is one that [`Self::is_available`] may give for
    /// these representations. A type that says nothing here admits both
    /// answers.
    open spec fn may_be_available(mime_types: Seq<Seq<char>>, answer: bool) -> bool {
        true
    }

    /// Whether `value` is one that [`Self::read`] may give from a handle
    /// with this value. A type that says nothing here admits every value.
    open spec fn may_read(access: AccessView, value: Option<Self>) -> bool {
        true
    }

    fn is_available(mime_types: &[String]) -> (available: bool)
        ensures
            Self::may_be_available(texts(mime_types@), available),
    ;

    fn read<P: InternalDataAccess>(data: &DataAccess<P>) -> (value: Option<Self>)
        ensures
            Self::may_read(data@, value),
    ;
}

/// A value that an application offers to the clipboard.
pub trait WriteToClipboard {
    fn viable_conversions(&self) -> Vec<String>;

    fn convert_to(&self, mime_type: &str) -> Option<Vec<u8>>;
}

/// The mathematical value of a handle: the representations on offer, and
/// for each name the answers that a fetch through the handle may give.
pub struct AccessView {
    pub types: Seq<Seq<char>>,
    pub answers: Set<(Seq<char>, Result<Seq<u8>, ErrorView>)>,
}

impl AccessView {
    /// Whether `answer` is one that a fetch of `mime_type` may give.
    pub open spec fn may_fetch(
        self,
        mime_type: Seq<char>,
        answer: Result<Seq<u8>, ErrorView>,
    ) -> bool {
        self.answers.contains((mime_type, answer))
    }

    /// Whether a failure is among the answers that a fetch of `mime_type`
    /// may give.
    pub open spec fn may_fail(self, mime_type: Seq<char>) -> bool {
        exists|error: ErrorView| #[trigger]
            self.may_fetch(mime_type, Err::<Seq<u8>, ErrorView>(error))
    }
}

/// The handle that a paste result carries. The set of representations is
/// read from the adapter once, when the handle is made, and stays as it is
/// for the rest of the transaction.
pub struct DataAccess<P: InternalDataAccess> {
    mime_types: Vec<String>,
    internal: P,
}

impl<P: InternalDataAccess> View for DataAccess<P> {
    type V = AccessView;

    /// A fetch of a representation on offer gives an answer of the adapter;
    /// a fetch of any other gives `FormatNotAvailable`.
    open spec fn view(&self) -> AccessView {
        AccessView {
            types: self.types(),
            answers: Set::new(
                |fetch: (Seq<char>, Result<Seq<u8>, ErrorView>)|
                    if self.types().contains(fetch.0) {
                        self.adapter().may_answer(fetch.0, fetch.1)
                    } else {
                        fetch.1 == Err::<Seq<u8>, ErrorView>(ErrorView::FormatNotAvailable)
                    },
            ),
        }
    }
}

impl<P: InternalDataAccess> DataAccess<P> {
    /// The names of the representations on offer, in the adapter's order.
    pub closed spec fn types(&self) -> Seq<Seq<char>> {
        texts(self.mime_types@)
    }

    /// The adapter behind the handle.
    pub closed spec fn adapter(&self) -> P {
        self.internal
    }

    /// Wraps an adapter's access, asking it once for what is on offer: the
    /// handle lists what the adapter said.
    pub fn new(internal: P) -> (access: Self)
        ensures
            access.adapter() == internal,
            internal.may_offer(access.types()),
    {
        let mime_types = internal.mime_types();
        DataAccess { mime_types, internal }
    }

    /// Wraps an adapter's access whose offer is already known.
    pub fn with_types(mime_types: Vec<String>, internal: P) -> (access: Self)
        ensures
            access.types() == texts(mime_types@),
            access.adapter() == internal,
    {
        DataAccess { mime_types, internal }
    }

    /// The adapter behind the handle.
    pub fn internal(&self) -> (internal: &P)
        ensures
            *internal == self.adapter(),
    {
        &self.internal
    }

    /// The names of the representations on offer.
    pub fn raw_types(&self) -> (types: &[String])
        ensures
            texts(types@) == self.types(),
    {
        self.mime_types.as_slice()
    }

    /// Whether `mime_type` is among the representations on offer.
    pub fn offers(&self, mime_type: &str) -> (listed: bool)
        ensures
            listed == self.types().contains(mime_type@),
    {
        contains_text(self.mime_types.as_slice(), mime_type)
    }

    /// Fetches the bytes of one representation. A representation that is not
    /// on offer is refused without a native transfer; for one that is, the
    /// adapter's answer is handed on as it came, so that what comes back is
    /// an answer that the adapter may give.
    pub fn get_raw_data(&self, mime_type: &str) -> (fetched: Result<Vec<u8>, ClipboardError>)
        ensures
            !self.types().contains(mime_type@) ==> fetched == Err::<Vec<u8>, ClipboardError>(
                ClipboardError::FormatNotAvailable,
            ),
            self@.may_fetch(mime_type@, answer_view(fetched)),
    {
        if !self.offers(mime_type) {
            return Err(ClipboardError::FormatNotAvailable);
        }
        self.internal.get_raw_data(mime_type)
    }

    /// Fetches the names in their order until a fetch succeeds, and returns
    /// what that fetch gave with the position of its name. The bytes are an
    /// answer that the fetch of that name may give, and every name before it
    /// is one whose fetch may fail; where nothing comes back, every name is
    /// one whose fetch may fail. A name that is not on offer is passed over
    /// without a native transfer. With an adapter that gives one answer for
    /// each name, the result is the first name with bytes, and its bytes.
    pub fn get_first_success(&self, mime_types: &[&str]) -> (fetched: Option<(usize, Vec<u8>)>)
        ensures
            fetched matches Some((index, _)) ==> index < mime_types@.len() && self.types().contains(
                mime_types@[index as int]@,
            ),
            (forall|i: int|
                0 <= i < mime_types@.len() ==> !self.types().contains(
                    (#[trigger] mime_types@[i])@,
                )) ==> fetched is None,
            match fetched {
                Some((index, bytes)) => {
                    &&& index < mime_types@.len()
                    &&& self@.may_fetch(mime_types@[index as int]@, Ok(bytes@))
                    &&& forall|i: int|
                        0 <= i < index ==> self@.may_fail((#[trigger] mime_types@[i])@)
                },
                None => forall|i: int|
                    0 <= i < mime_types@.len() ==> self@.may_fail((#[trigger] mime_types@[i])@),
            },
    {
        let mut i: usize = 0;
        while i < mime_types.len()
            invariant
                i <= mime_types@.len(),
                forall|k: int| 0 <= k < i ==> self@.may_fail((#[trigger] mime_types@[k])@),
            decreases mime_types@.len() - i,
        {
            match self.get_raw_data(mime_types[i]) {
                Ok(bytes) => {
                    return Some((i, bytes));
                },
                Err(_) => {},
            }
            i += 1;
        }
        None
    }

    /// Whether a value of the type `T` can be read from what is on offer:
    /// an answer that the type may give for the representations on offer.
    pub fn is_available<T: ReadFromClipboard>(&self) -> (available: bool)
        ensures
            T::may_be_available(self.types(), available),
    {
        T::is_available(self.raw_types())
    }

    /// Reads a value of the type `T`: one that the type may read from this
    /// handle.
    pub fn get_data<T: ReadFromClipboard>(&self) -> (value: Option<T>)
        ensures
            T::may_read(self@, value),
    {
        T::read(self)
    }

    /// Reads a value of the type `T`: the value where the type reads one
    /// from this handle, and `UnsupportedMimeType` where it reads none.
    pub fn resolve<T: ReadFromClipboard>(&self) -> (value: Result<T, ClipboardError>)
        ensures
            match value {
                Ok(read) => T::may_read(self@, Some(read)),
                Err(error) => error == ClipboardError::UnsupportedMimeType && T::may_read(
                    self@,
                    None,
                ),
            },
    {
        match T::read(self) {
            Some(value) => Ok(value),
            None => Err(ClipboardError::UnsupportedMimeType),
        }
    }
}
} // verus!
