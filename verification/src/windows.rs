//! The rules of the Windows clipboard adapter: opening under contention,
//! the names of formats, the enumeration of what is published, and the
//! reading of wide text.

use vstd::prelude::*;
use crate::clipboard_data::{detect_image_type, sniffed_format, ClipboardData, Image, Text};
use crate::clipboard_error::{ClipboardError, ErrorView};
use crate::event::{ClipboardEventSource, ClipboardHandler, EventRecord};
use crate::session::{Session, SessionView};
use crate::format_conversion::{get_format_name, is_standard, is_standard_code};
use crate::text::{
    decode_utf16, decode_utf16_lossy, same_text, texts, to_string, utf16_decoded, utf16_lossy,
    utf8_lossy,
};

verus! {
pub const CF_BITMAP: u32 = 2;

pub const CF_UNICODETEXT: u32 = 13;

pub const CF_HDROP: u32 = 15;

/// How often the clipboard is tried before the adapter gives up.
pub const N_RETRIES: usize = 5;

/// The pause between two tries, in milliseconds.
pub const TIME_BETWEEN_RETRIES: u64 = 100;

/// What to do after one try to open the clipboard.
#[derive(Debug, Clone, PartialEq, Eq)]
pub enum OpenStep {
    /// The clipboard is open.
    Opened,
    /// Pause for so many milliseconds, then try again.
    RetryAfter { millis: u64 },
    /// Every try has failed.
    GiveUp { error: ClipboardError },
}

/// What to do after a try, given how many tries had failed before it.
pub open spec fn open_step(failed_before: nat, opened: bool) -> OpenStep {
    if opened {
        OpenStep::Opened
    } else if failed_before + 1 >= N_RETRIES {
        OpenStep::GiveUp { error: ClipboardError::InUse }
    } else {
        OpenStep::RetryAfter { millis: TIME_BETWEEN_RETRIES }
    }
}

/// How a run of tries ends, given how many had failed before it: with the
/// clipboard open, with `InUse`, or undecided where the tries run out first.
pub open spec fn open_outcome(failed_before: nat, tries: Seq<bool>) -> Option<
    Result<(), ClipboardError>,
>
    decreases tries.len(),
{
    if tries.len() == 0 {
        None
    } else {
        match open_step(failed_before, tries[0]) {
            OpenStep::Opened => Some(Ok(())),
            OpenStep::GiveUp { error } => Some(Err(error)),
            OpenStep::RetryAfter { .. } => open_outcome(failed_before + 1, tries.drop_first()),
        }
    }
}

/// So many failed tries in a row.
pub open spec fn failures(count: nat) -> Seq<bool> {
    Seq::new(count, |i: int| false)
}

/// Counts the failed tries to open the clipboard.
#[derive(Debug, Clone, Copy, PartialEq, Eq)]
pub struct OpenAttempts {
    failed: usize,
}

impl OpenAttempts {
    /// The number of tries that have failed, which never passes the bound.
    pub closed spec fn failed(&self) -> nat {
        self.failed as nat
    }

    pub closed spec fn wf(&self) -> bool {
        self.failed <= N_RETRIES
    }

    pub fn new() -> (attempts: Self)
        ensures
            attempts.wf(),
            attempts.failed() == 0,
    {
        OpenAttempts { failed: 0 }
    }

    /// Takes in the result of one try and says how to go on. After the bound
    /// has been reached every further failure gives up again.
    pub fn on_result(&mut self, opened: bool) -> (step: OpenStep)
        requires
            old(self).wf(),
        ensures
            final(self).wf(),
            step == open_step(old(self).failed(), opened),
            final(self).failed() == if opened || old(self).failed() >= N_RETRIES {
                old(self).failed()
            } else {
                old(self).failed() + 1
            },
    {
        if opened {
            OpenStep::Opened
        } else {
            if self.failed < N_RETRIES {
                self.failed = self.failed + 1;
            }
            if self.failed >= N_RETRIES {
                OpenStep::GiveUp { error: ClipboardError::InUse }
            } else {
                OpenStep::RetryAfter { millis: TIME_BETWEEN_RETRIES }
            }
        }
    }

    /// Takes in the result of one try to open the clipboard for the
    /// transaction `source`, and says how to go on, as [`Self::on_result`]
    /// does. Where every try has failed the transaction ends at once, with
    /// `InUse`; any other step delivers nothing.
    pub fn on_result_of_request<H: ClipboardHandler>(
        &mut self,
        opened: bool,
        session: &mut Session<H>,
        source: ClipboardEventSource,
    ) -> (step: OpenStep)
        requires
            old(self).wf(),
            old(session).wf(),
        ensures
            final(self).wf(),
            final(session).wf(),
            step == open_step(old(self).failed(), opened),
            final(self).failed() == if opened || old(self).failed() >= N_RETRIES {
                old(self).failed()
            } else {
                old(self).failed() + 1
            },
            final(session)@ == if step is GiveUp {
                old(session)@.ended(
                    EventRecord::Failed { source: source@, error: ErrorView::InUse },
                )
            } else {
                old(session)@
            },
    {
        let step = self.on_result(opened);
        match step {
            OpenStep::GiveUp { .. } => {
                session.failed_paste_handling(ClipboardError::InUse, source);
            },
            _ => {},
        }
        step
    }
}

/// The open clipboard, which is to be closed once and only once.
#[derive(Debug)]
pub struct ClipboardHandle {
    open: bool,
}

impl ClipboardHandle {
    /// Whether the clipboard is still to be closed.
    pub closed spec fn is_open(&self) -> bool {
        self.open
    }

    /// The handle for a try to open the clipboard: there is one if the try
    /// succeeded, and `OpenFailed` if it did not.
    pub fn new(opened: bool) -> (handle: Result<Self, ClipboardError>)
        ensures
            opened ==> (handle matches Ok(h) && h.is_open()),
            !opened ==> (handle matches Err(error) && error == ClipboardError::OpenFailed),
    {
        if opened {
            Ok(ClipboardHandle { open: true })
        } else {
            Err(ClipboardError::OpenFailed)
        }
    }

    /// Gives the handle up. The result says whether the clipboard is to be
    /// closed now: it is the first time, and never again.
    pub fn close(&mut self) -> (release: bool)
        ensures
            release == old(self).is_open(),
            !final(self).is_open(),
    {
        let release = self.open;
        self.open = false;
        release
    }
}

/// Contention: when fewer tries fail than the bound allows and the next one
/// succeeds, the clipboard is open and `InUse` does not come up; when as
/// many fail as the bound allows, the outcome is `InUse`, whatever follows.
pub proof fn lemma_contention(failed: nat, rest: Seq<bool>)
    ensures
        failed < N_RETRIES ==> open_outcome(0, failures(failed).push(true)) == Some(
            Ok::<(), ClipboardError>(()),
        ),
        failed >= N_RETRIES ==> open_outcome(0, failures(failed) + rest) == Some(
            Err::<(), ClipboardError>(ClipboardError::InUse),
        ),
{
    lemma_contention_from(0, failed, rest);
}

proof fn lemma_contention_from(before: nat, failed: nat, rest: Seq<bool>)
    requires
        before < N_RETRIES,
    ensures
        before + failed < N_RETRIES ==> open_outcome(before, failures(failed).push(true)) == Some(
            Ok::<(), ClipboardError>(()),
        ),
        before + failed >= N_RETRIES ==> open_outcome(before, failures(failed) + rest) == Some(
            Err::<(), ClipboardError>(ClipboardError::InUse),
        ),
    decreases failed,
{
    if failed > 0 {
        let tail = (failed - 1) as nat;
        assert(failures(failed).push(true).drop_first() =~= failures(tail).push(true));
        assert((failures(failed) + rest).drop_first() =~= failures(tail) + rest);
        if before + 1 < N_RETRIES {
            lemma_contention_from(before + 1, tail, rest);
        }
    }
}

/// The session after a run of tries to open the clipboard for the
/// transaction `source`, given how many had failed before it: each try is
/// taken in as [`OpenAttempts::on_result_of_request`] takes it in, and the
/// run ends with the first try that opens the clipboard or gives up.
pub open spec fn after_tries(
    session: SessionView,
    source: usize,
    failed_before: nat,
    tries: Seq<bool>,
) -> SessionView
    decreases tries.len(),
{
    if tries.len() == 0 {
        session
    } else {
        match open_step(failed_before, tries[0]) {
            OpenStep::Opened => session,
            OpenStep::GiveUp { error } => session.ended(
                EventRecord::Failed { source, error: error@ },
            ),
            OpenStep::RetryAfter { .. } => after_tries(
                session,
                source,
                failed_before + 1,
                tries.drop_first(),
            ),
        }
    }
}

/// Contention at a request: when fewer tries fail than the bound allows and
/// the next one succeeds, nothing is delivered, so that `InUse` does not
/// come up; when as many fail as the bound allows, the transaction ends
/// with `InUse`, whatever follows.
pub proof fn lemma_contention_at_request(
    session: SessionView,
    source: usize,
    failed: nat,
    rest: Seq<bool>,
)
    ensures
        failed < N_RETRIES ==> after_tries(session, source, 0, failures(failed).push(true))
            == session,
        failed >= N_RETRIES ==> after_tries(session, source, 0, failures(failed) + rest)
            == session.ended(EventRecord::Failed { source, error: ErrorView::InUse }),
{
    lemma_contention_at_request_from(session, source, 0, failed, rest);
}

proof fn lemma_contention_at_request_from(
    session: SessionView,
    source: usize,
    before: nat,
    failed: nat,
    rest: Seq<bool>,
)
    requires
        before < N_RETRIES,
    ensures
        before + failed < N_RETRIES ==> after_tries(
            session,
            source,
            before,
            failures(failed).push(true),
        ) == session,
        before + failed >= N_RETRIES ==> after_tries(
            session,
            source,
            before,
            failures(failed) + rest,
        ) == session.ended(EventRecord::Failed { source, error: ErrorView::InUse }),
    decreases failed,
{
    if failed > 0 {
        let tail = (failed - 1) as nat;
        assert(failures(failed).push(true).drop_first() =~= failures(tail).push(true));
        assert((failures(failed) + rest).drop_first() =~= failures(tail) + rest);
        if before + 1 < N_RETRIES {
            lemma_contention_at_request_from(session, source, before + 1, tail, rest);
        }
    }
}

/// Decides what follows a failed step of a read: after the last attempt the
/// failure `err` stands; before it, the pause to keep before the clipboard
/// is opened again for the next attempt.
pub fn retry_or_err(attempt: usize, max_retries: usize, err: ClipboardError) -> (decision: Result<
    u64,
    ClipboardError,
>)
    ensures
        attempt == max_retries ==> decision == Err::<u64, ClipboardError>(err),
        attempt != max_retries ==> decision == Ok::<u64, ClipboardError>(TIME_BETWEEN_RETRIES),
{
    if attempt == max_retries {
        Err(err)
    } else {
        Ok(TIME_BETWEEN_RETRIES)
    }
}

/// The formats that each get a kind of reading of their own, as registered
/// with the system at run time.
#[derive(Debug, Clone, Copy, PartialEq, Eq, Structural)]
pub struct RegisteredFormats {
    pub png: u32,
    pub jpeg: u32,
    pub image_png: u32,
    pub image_jpeg: u32,
    pub gif: u32,
    pub webp: u32,
    pub html: u32,
}

/// How the content of a format is read.
#[derive(Debug, Clone, Copy, PartialEq, Eq, Structural)]
pub enum FormatKind {
    /// Wide text that ends at its terminator.
    UnicodeText,
    /// Marked-up text in UTF-8.
    Html,
    /// A list of files.
    FileDrop,
    /// A device-dependent bitmap.
    Bitmap,
    /// An encoded image under a vendor's name.
    EncodedImage,
    Unsupported,
}

/// How the content of `format` is read.
pub open spec fn kind_of(format: u32, registered: RegisteredFormats) -> FormatKind {
    if format == CF_UNICODETEXT {
        FormatKind::UnicodeText
    } else if format == registered.html {
        FormatKind::Html
    } else if format == CF_HDROP {
        FormatKind::FileDrop
    } else if format == CF_BITMAP {
        FormatKind::Bitmap
    } else if format == registered.png || format == registered.image_png || format
        == registered.jpeg || format == registered.image_jpeg || format == registered.gif || format
        == registered.webp {
        FormatKind::EncodedImage
    } else {
        FormatKind::Unsupported
    }
}

pub fn classify_format(format: u32, registered: &RegisteredFormats) -> (kind: FormatKind)
    ensures
        kind == kind_of(format, *registered),
{
    if format == CF_UNICODETEXT {
        FormatKind::UnicodeText
    } else if format == registered.html {
        FormatKind::Html
    } else if format == CF_HDROP {
        FormatKind::FileDrop
    } else if format == CF_BITMAP {
        FormatKind::Bitmap
    } else if format == registered.png || format == registered.image_png || format
        == registered.jpeg || format == registered.image_jpeg || format == registered.gif || format
        == registered.webp {
        FormatKind::EncodedImage
    } else {
        FormatKind::Unsupported
    }
}

/// Whether a file with this extension, in lower case, is read as an image
/// when it is dropped on the clipboard.
pub open spec fn names_image(extension: Seq<char>) -> bool {
    extension == "png"@ || extension == "jpeg"@ || extension == "jpg"@ || extension == "webp"@
        || extension == "gif"@
}

/// Whether a dropped file with this extension, in lower case, is read as an
/// image.
pub fn is_image_extension(extension: &str) -> (image: bool)
    ensures
        image == names_image(extension@),
{
    same_text(extension, "png") || same_text(extension, "jpeg") || same_text(extension, "jpg")
        || same_text(extension, "webp") || same_text(extension, "gif")
}

/// The code unit that two bytes hold, low byte first.
pub open spec fn unit_of(low: u8, high: u8) -> u16 {
    (low + 0x100 * high) as u16
}

/// The code units of the wide text that begins at `start`: those up to the
/// first one that is zero, or up to the last whole unit where none is.
pub open spec fn wide_text_from(bytes: Seq<u8>, start: int) -> Seq<u16>
    decreases bytes.len() - start,
{
    if start < 0 || start + 2 > bytes.len() {
        Seq::empty()
    } else if unit_of(bytes[start], bytes[start + 1]) == 0 {
        Seq::empty()
    } else {
        seq![unit_of(bytes[start], bytes[start + 1])] + wide_text_from(bytes, start + 2)
    }
}

/// The code units of the wide text that the bytes hold.
pub open spec fn wide_text(bytes: Seq<u8>) -> Seq<u16> {
    wide_text_from(bytes, 0)
}

/// Finds the length of a wide text by its terminator and returns its code
/// units. The format carries no length of its own.
pub fn wide_text_units(bytes: &[u8]) -> (units: Vec<u16>)
    ensures
        units@ == wide_text(bytes@),
{
    let mut units: Vec<u16> = Vec::new();
    let n = bytes.len();
    let mut i: usize = 0;
    while n - i >= 2
        invariant
            n == bytes@.len(),
            i <= n,
            wide_text(bytes@) == units@ + wide_text_from(bytes@, i as int),
        decreases bytes@.len() - i,
    {
        let unit: u16 = (bytes[i] as u16) + 0x100 * (bytes[i + 1] as u16);
        if unit == 0 {
            return units;
        }
        units.push(unit);
        i += 2;
    }
    units
}

/// Reads the content of the wide-text format.
pub fn read_wide_text(bytes: &[u8]) -> (text: Result<String, ClipboardError>)
    ensures
        match utf16_decoded(wide_text(bytes@)) {
            Some(chars) => text matches Ok(read) && read@ == chars,
            None => text == Err::<String, ClipboardError>(ClipboardError::Utf16ConversionFailed),
        },
{
    let units = wide_text_units(bytes);
    match decode_utf16(units.as_slice()) {
        Some(read) => Ok(read),
        None => Err(ClipboardError::Utf16ConversionFailed),
    }
}

/// Reads the content of the wide-text format, with the replacement character
/// in place of what is not text.
pub fn read_wide_text_lossy(bytes: &[u8]) -> (text: String)
    ensures
        text@ == utf16_lossy(wide_text(bytes@)),
{
    let units = wide_text_units(bytes);
    decode_utf16_lossy(units.as_slice())
}

/// Whether `value` is what the bytes of a format of the given kind come to:
/// wide text and markup become text; an encoded image or a dropped file is
/// classified by its signature, and refused where it has none; the bytes of
/// a bitmap are kept as they are.
pub open spec fn interpreted(
    kind: FormatKind,
    bytes: Seq<u8>,
    value: Result<ClipboardData, ClipboardError>,
) -> bool {
    match kind {
        FormatKind::UnicodeText => match utf16_decoded(wide_text(bytes)) {
            Some(chars) => value matches Ok(ClipboardData::Text(Text::Plain(read))) && read@
                == chars,
            None => value == Err::<ClipboardData, ClipboardError>(
                ClipboardError::Utf16ConversionFailed,
            ),
        },
        FormatKind::Html => value matches Ok(ClipboardData::Text(Text::HTML(read))) && read@
            == utf8_lossy(bytes),
        FormatKind::Bitmap => value matches Ok(ClipboardData::Image(Image::BMP(kept))) && kept@
            == bytes,
        FormatKind::EncodedImage | FormatKind::FileDrop => match sniffed_format(bytes) {
            Some(format) => value matches Ok(ClipboardData::Image(image)) && image.format()
                == format && image.bytes() == bytes,
            None => value == Err::<ClipboardData, ClipboardError>(
                ClipboardError::FormatNotAvailable,
            ),
        },
        FormatKind::Unsupported => value == Err::<ClipboardData, ClipboardError>(
            ClipboardError::FormatNotAvailable,
        ),
    }
}

/// Turns the bytes read for a format into a clipboard value, by the kind of
/// the format.
pub fn interpret(kind: FormatKind, bytes: Vec<u8>) -> (value: Result<ClipboardData, ClipboardError>)
    ensures
        interpreted(kind, bytes@, value),
{
    match kind {
        FormatKind::UnicodeText => match read_wide_text(bytes.as_slice()) {
            Ok(read) => Ok(ClipboardData::Text(Text::Plain(read))),
            Err(error) => Err(error),
        },
        FormatKind::Html => Ok(ClipboardData::Text(Text::HTML(to_string(bytes)))),
        FormatKind::Bitmap => Ok(ClipboardData::Image(Image::BMP(bytes))),
        FormatKind::EncodedImage | FormatKind::FileDrop => match detect_image_type(
            bytes.as_slice(),
        ) {
            Some(image) => Ok(ClipboardData::Image(image)),
            None => Err(ClipboardError::FormatNotAvailable),
        },
        FormatKind::Unsupported => Err(ClipboardError::FormatNotAvailable),
    }
}

/// The name that a format is listed under, given what the system has it
/// registered as.
pub open spec fn is_listed_name(name: Seq<char>, format: u32, registered_name: Seq<u16>) -> bool {
    if is_standard_code(format) {
        is_standard(format, name)
    } else if registered_name.len() == 0 {
        name == "unknown"@
    } else {
        name == utf16_lossy(registered_name)
    }
}

/// The formats that the open clipboard publishes, gathered one question at
/// a time: each question names the format before, the first names none.
pub struct WindowsDataAccess {
    formats: Vec<u32>,
    mime_types: Vec<String>,
    count: i32,
    complete: bool,
}

impl WindowsDataAccess {
    /// The codes gathered so far, in the order in which the system gave them.
    pub closed spec fn formats(&self) -> Seq<u32> {
        self.formats@
    }

    /// The names of the codes gathered so far, in the same order.
    pub closed spec fn types(&self) -> Seq<Seq<char>> {
        texts(self.mime_types@)
    }

    /// The number of formats that the system said it has.
    pub closed spec fn count(&self) -> i32 {
        self.count
    }

    /// Whether the enumeration has ended.
    pub closed spec fn complete(&self) -> bool {
        self.complete
    }

    pub closed spec fn wf(&self) -> bool {
        &&& self.formats@.len() == self.mime_types@.len()
        &&& forall|k: int| 0 <= k < self.formats@.len() ==> #[trigger] self.formats@[k] != 0
    }

    /// An enumeration that has not begun, of a clipboard that says it holds
    /// `count` formats.
    pub fn new(count: i32) -> (access: Self)
        ensures
            access.wf(),
            access.formats() == Seq::<u32>::empty(),
            access.types() == Seq::<Seq<char>>::empty(),
            access.count() == count,
            !access.complete(),
    {
        let access = WindowsDataAccess {
            formats: Vec::new(),
            mime_types: Vec::new(),
            count,
            complete: false,
        };
        access
    }

    /// The format to name in the next question: the one gathered last, or
    /// zero at the start. Nothing once the enumeration has ended.
    pub fn next_query(&self) -> (previous: Option<u32>)
        requires
            self.wf(),
        ensures
            self.complete() ==> previous is None,
            !self.complete() ==> previous == Some(
                if self.formats().len() == 0 {
                    0u32
                } else {
                    self.formats().last()
                },
            ),
    {
        if self.complete {
            None
        } else if self.formats.len() == 0 {
            Some(0)
        } else {
            Some(self.formats[self.formats.len() - 1])
        }
    }

    /// Takes in the answer to a question: zero ends the enumeration; any
    /// other format is gathered under its name, and ends the enumeration if
    /// it is the last that the system said it has.
    pub fn record(&mut self, next: u32, registered_name: &[u16])
        requires
            old(self).wf(),
        ensures
            final(self).wf(),
            final(self).count() == old(self).count(),
            old(self).complete() || next == 0 ==> final(self).complete() && final(self).formats()
                == old(self).formats() && final(self).types() == old(self).types(),
            !old(self).complete() && next != 0 ==> ({
                &&& final(self).formats() == old(self).formats().push(next)
                &&& final(self).types().len() == old(self).types().len() + 1
                &&& final(self).types().drop_last() == old(self).types()
                &&& is_listed_name(final(self).types().last(), next, registered_name@)
                &&& final(self).complete() == (final(self).formats().len() == old(self).count())
            }),
    {
        if self.complete {
            return ;
        }
        if next == 0 {
            self.complete = true;
            return ;
        }
        let name = get_format_name(next, registered_name);
        self.formats.push(next);
        self.mime_types.push(name);
        if self.count >= 0 && self.formats.len() == self.count as usize {
            self.complete = true;
        }
    }

    /// Whether the enumeration has ended.
    pub fn is_complete(&self) -> (complete: bool)
        ensures
            complete == self.complete(),
    {
        self.complete
    }

    /// The names gathered so far.
    pub fn mime_types(&self) -> (types: &[String])
        ensures
            texts(types@) == self.types(),
    {
        self.mime_types.as_slice()
    }

    /// The codes gathered so far.
    pub fn format_codes(&self) -> (codes: &[u32])
        ensures
            codes@ == self.formats(),
    {
        self.formats.as_slice()
    }

    /// Judges the memory behind a format before it is copied out: without a
    /// valid handle, without a lock, or with nothing in it, the data is
    /// unavailable.
    pub fn check_memory(handle_valid: bool, locked: bool, size: usize) -> (usable: Result<
        (),
        ClipboardError,
    >)
        ensures
            handle_valid && locked && size > 0 ==> usable == Ok::<(), ClipboardError>(()),
            !(handle_valid && locked && size > 0) ==> usable == Err::<(), ClipboardError>(
                ClipboardError::ClipboardDataUnavailable,
            ),
    {
        if handle_valid && locked && size > 0 {
            Ok(())
        } else {
            Err(ClipboardError::ClipboardDataUnavailable)
        }
    }
}

/// What the native calls of one attempt to read a format came to.
#[derive(Debug, PartialEq, Eq)]
pub enum ReadStep {
    /// The clipboard does not hold the format.
    NotAvailable,
    /// The clipboard gave no handle for the format.
    NoHandle,
    /// The memory behind the handle could not be locked.
    NotLocked,
    /// The bytes that were copied out.
    Content(Vec<u8>),
}

/// How an attempt to read a format ends.
#[derive(Debug, PartialEq, Eq)]
pub enum AttemptOutcome {
    /// The read has ended, with a value or for good with a failure.
    Done(Result<ClipboardData, ClipboardError>),
    /// Pause for so many milliseconds, open the clipboard again and make the
    /// next attempt.
    RetryAfter { millis: u64 },
}

/// The failure that the bytes of a format come to, if they come to one.
pub open spec fn content_failure(kind: FormatKind, bytes: Seq<u8>) -> Option<ClipboardError> {
    match kind {
        FormatKind::UnicodeText => if utf16_decoded(wide_text(bytes)) is None {
            Some(ClipboardError::Utf16ConversionFailed)
        } else {
            None
        },
        FormatKind::EncodedImage | FormatKind::FileDrop => if sniffed_format(bytes) is None {
            Some(ClipboardError::FormatNotAvailable)
        } else {
            None
        },
        FormatKind::Unsupported => Some(ClipboardError::FormatNotAvailable),
        FormatKind::Html | FormatKind::Bitmap => None,
    }
}

/// The failure that an attempt stands for, if it is one: a step that did not
/// get to the bytes, or bytes that could not be turned into a value.
pub open spec fn attempt_failure(kind: FormatKind, step: ReadStep) -> Option<ClipboardError> {
    match step {
        ReadStep::NotAvailable => Some(ClipboardError::FormatNotAvailable),
        ReadStep::NoHandle => Some(ClipboardError::Empty),
        ReadStep::NotLocked => Some(ClipboardError::LockFailed),
        ReadStep::Content(bytes) => content_failure(kind, bytes@),
    }
}

/// Whether a failure is tried again. Text that is not UTF-16 stays what it
/// is, however often it is read.
pub open spec fn is_retried(error: ClipboardError) -> bool {
    error != ClipboardError::Utf16ConversionFailed
}

/// Judges one attempt, the `attempt`-th of [`N_RETRIES`], to read a format
/// of the given kind. Bytes that give a value end the read. A failure is
/// tried again as long as attempts are left, after the pause; the failure of
/// the last attempt, and one that no further attempt can mend, end the read.
pub fn read_attempt(kind: FormatKind, attempt: usize, step: ReadStep) -> (outcome: AttemptOutcome)
    ensures
        match attempt_failure(kind, step) {
            None => step matches ReadStep::Content(bytes) && outcome matches AttemptOutcome::Done(
                Ok(value),
            ) && interpreted(kind, bytes@, Ok(value)),
            Some(error) => outcome == if attempt == N_RETRIES || !is_retried(error) {
                AttemptOutcome::Done(Err(error))
            } else {
                AttemptOutcome::RetryAfter { millis: TIME_BETWEEN_RETRIES }
            },
        },
{
    let failure = match step {
        ReadStep::NotAvailable => ClipboardError::FormatNotAvailable,
        ReadStep::NoHandle => ClipboardError::Empty,
        ReadStep::NotLocked => ClipboardError::LockFailed,
        ReadStep::Content(bytes) => match interpret(kind, bytes) {
            Ok(value) => {
                return AttemptOutcome::Done(Ok(value));
            },
            Err(ClipboardError::Utf16ConversionFailed) => {
                return AttemptOutcome::Done(Err(ClipboardError::Utf16ConversionFailed));
            },
            Err(error) => error,
        },
    };
    match retry_or_err(attempt, N_RETRIES, failure) {
        Ok(millis) => AttemptOutcome::RetryAfter { millis },
        Err(error) => AttemptOutcome::Done(Err(error)),
    }
}
} // verus!
