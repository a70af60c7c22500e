//! Reading text from the clipboard.

use vstd::prelude::*;
use crate::data_access::{AccessView, DataAccess, InternalDataAccess, ReadFromClipboard};
use crate::text::{contains_text, texts, to_string, utf16_lossy, utf8_lossy};
use crate::windows::{read_wide_text_lossy, wide_text};

verus! {
/// The representations that hold text, most wanted first: the UTF-8 ones
/// before the legacy one, and the platform's wide text last.
pub open spec fn text_types() -> Seq<Seq<char>> {
    seq!["text/plain;charset=utf-8"@, "UTF8_STRING"@, "text/plain"@, "CF_UNICODETEXT"@]
}

/// The position of the wide-text representation among [`text_types`].
pub const WIDE_TEXT: usize = 3;

/// Whether any of the representations on offer holds text.
pub open spec fn offers_text(offers: Seq<Seq<char>>) -> bool {
    exists|i: int| 0 <= i < text_types().len() && offers.contains(#[trigger] text_types()[i])
}

/// The representations that hold text, most wanted first.
pub fn text_type_names() -> (names: Vec<&'static str>)
    ensures
        names@.len() == text_types().len(),
        forall|i: int| 0 <= i < names@.len() ==> (#[trigger] names@[i])@ == text_types()[i],
{
    vec!["text/plain;charset=utf-8", "UTF8_STRING", "text/plain", "CF_UNICODETEXT"]
}

/// The text that the bytes of the representation at `index` of
/// [`text_types`] hold: wide text by its code units, any other as UTF-8.
pub open spec fn decoded_text(index: int, bytes: Seq<u8>) -> Seq<char> {
    if index == WIDE_TEXT {
        utf16_lossy(wide_text(bytes))
    } else {
        utf8_lossy(bytes)
    }
}

/// Whether `text` is what reading text from a handle may give: the decoded
/// bytes that the fetch of a text representation may give, the fetch of
/// every one before it being one that may fail; or nothing, the fetch of
/// every text representation being one that may fail.
pub open spec fn is_text_read(access: AccessView, text: Option<Seq<char>>) -> bool {
    match text {
        Some(text) => exists|index: int, bytes: Seq<u8>|
            {
                &&& 0 <= index < text_types().len()
                &&& #[trigger] access.may_fetch(text_types()[index], Ok(bytes))
                &&& text == decoded_text(index, bytes)
                &&& forall|earlier: int|
                    0 <= earlier < index ==> access.may_fail(#[trigger] text_types()[earlier])
            },
        None => forall|index: int|
            0 <= index < text_types().len() ==> access.may_fail(#[trigger] text_types()[index]),
    }
}

/// Reads the bytes of the text representation at `index` of [`text_types`]
/// as text: wide text by its code units, any other as UTF-8. What is not
/// text comes out as the replacement character.
pub fn decode_text(index: usize, bytes: Vec<u8>) -> (text: String)
    ensures
        index == WIDE_TEXT ==> text@ == utf16_lossy(wide_text(bytes@)),
        index != WIDE_TEXT ==> text@ == utf8_lossy(bytes@),
        text@ == decoded_text(index as int, bytes@),
{
    if index == WIDE_TEXT {
        read_wide_text_lossy(bytes.as_slice())
    } else {
        to_string(bytes)
    }
}

impl ReadFromClipboard for String {
    /// Text is available exactly where a text representation is on offer.
    open spec fn may_be_available(mime_types: Seq<Seq<char>>, answer: bool) -> bool {
        answer == offers_text(mime_types)
    }

    /// See [`is_text_read`].
    open spec fn may_read(access: AccessView, value: Option<String>) -> bool {
        is_text_read(
            access,
            match value {
                Some(text) => Some(text@),
                None => None,
            },
        )
    }

    fn is_available(mime_types: &[String]) -> (available: bool)
        ensures
            available == offers_text(texts(mime_types@)),
    {
        let names = text_type_names();
        let mut i: usize = 0;
        while i < names.len()
            invariant
                i <= names@.len(),
                names@.len() == text_types().len(),
                forall|k: int| 0 <= k < names@.len() ==> (#[trigger] names@[k])@ == text_types()[k],
                forall|k: int|
                    0 <= k < i ==> !texts(mime_types@).contains(#[trigger] text_types()[k]),
            decreases names@.len() - i,
        {
            if contains_text(mime_types, names[i]) {
                return true;
            }
            i += 1;
        }
        false
    }

    /// Fetches the text representations on offer in the order of
    /// [`text_types`] until one fetch succeeds, and decodes what it gave.
    /// Where none is on offer nothing is fetched and nothing is read.
    fn read<P: InternalDataAccess>(data: &DataAccess<P>) -> (text: Option<String>)
        ensures
            !offers_text(data.types()) ==> text is None,
            is_text_read(
                data@,
                match text {
                    Some(text) => Some(text@),
                    None => None,
                },
            ),
    {
        let names = text_type_names();
        match data.get_first_success(names.as_slice()) {
            Some((index, bytes)) => {
                let text = decode_text(index, bytes);
                proof {
                    assert forall|earlier: int| 0 <= earlier < index implies data@.may_fail(
                        #[trigger] text_types()[earlier],
                    ) by {
                        assert(names@[earlier]@ == text_types()[earlier]);
                    }
                }
                Some(text)
            },
            None => {
                proof {
                    assert forall|index: int|
                        0 <= index < text_types().len() implies data@.may_fail(
                        #[trigger] text_types()[index],
                    ) by {
                        assert(names@[index]@ == text_types()[index]);
                    }
                }
                None
            },
        }
    }
}
} // verus!
