use gengine_clipboard::format_conversion::{
    get_format_code, get_format_name, standard_format_code, standard_format_name, FormatCode,
};
use gengine_clipboard::windows::{
    classify_format, interpret, read_attempt, read_wide_text, read_wide_text_lossy, retry_or_err,
    wide_text_units, AttemptOutcome, ClipboardHandle, FormatKind, OpenAttempts, OpenStep, ReadStep,
    RegisteredFormats, WindowsDataAccess, CF_BITMAP, CF_HDROP, CF_UNICODETEXT, N_RETRIES,
    TIME_BETWEEN_RETRIES,
};
use gengine_clipboard::{ClipboardData, ClipboardError, Image, Text};

fn open_with(failures: usize) -> Result<(), ClipboardError> {
    let mut attempts = OpenAttempts::new();
    let mut tries = 0;
    loop {
        let opened = tries >= failures;
        tries += 1;
        match attempts.on_result(opened) {
            OpenStep::Opened => return Ok(()),
            OpenStep::RetryAfter { millis } => assert_eq!(millis, 100),
            OpenStep::GiveUp { error } => return Err(error),
        }
        assert!(tries < 100);
    }
}

#[test]
fn fewer_failures_than_the_bound_end_in_success() {
    for failures in 0..5 {
        assert_eq!(open_with(failures), Ok(()));
    }
}

#[test]
fn as_many_failures_as_the_bound_end_in_use() {
    for failures in 5..12 {
        assert_eq!(open_with(failures), Err(ClipboardError::InUse));
    }
}

#[test]
fn the_fifth_failure_gives_up() {
    let mut attempts = OpenAttempts::new();
    for _ in 0..4 {
        assert_eq!(attempts.on_result(false), OpenStep::RetryAfter { millis: TIME_BETWEEN_RETRIES });
    }
    assert_eq!(attempts.on_result(false), OpenStep::GiveUp { error: ClipboardError::InUse });
    assert_eq!(attempts.on_result(false), OpenStep::GiveUp { error: ClipboardError::InUse });
    assert_eq!(N_RETRIES, 5);
    assert_eq!(TIME_BETWEEN_RETRIES, 100);
}

#[test]
fn the_last_attempt_keeps_its_error() {
    assert_eq!(retry_or_err(5, 5, ClipboardError::LockFailed), Err(ClipboardError::LockFailed));
    assert_eq!(retry_or_err(1, 5, ClipboardError::LockFailed), Ok(100));
    assert_eq!(retry_or_err(4, 5, ClipboardError::Empty), Ok(100));
    assert_eq!(retry_or_err(0, 0, ClipboardError::Empty), Err(ClipboardError::Empty));
}

fn registered() -> RegisteredFormats {
    RegisteredFormats {
        png: 0xC001,
        jpeg: 0xC002,
        image_png: 0xC003,
        image_jpeg: 0xC004,
        gif: 0xC005,
        webp: 0xC006,
        html: 0xC007,
    }
}

#[test]
fn formats_are_classified_by_their_code() {
    let r = registered();
    assert_eq!(classify_format(CF_UNICODETEXT, &r), FormatKind::UnicodeText);
    assert_eq!(classify_format(13, &r), FormatKind::UnicodeText);
    assert_eq!(classify_format(0xC007, &r), FormatKind::Html);
    assert_eq!(classify_format(CF_HDROP, &r), FormatKind::FileDrop);
    assert_eq!(classify_format(CF_BITMAP, &r), FormatKind::Bitmap);
    for code in [0xC001, 0xC002, 0xC003, 0xC004, 0xC005, 0xC006] {
        assert_eq!(classify_format(code, &r), FormatKind::EncodedImage);
    }
    assert_eq!(classify_format(8, &r), FormatKind::Unsupported);
    assert_eq!(classify_format(1, &r), FormatKind::Unsupported);
    assert_eq!(classify_format(0xC008, &r), FormatKind::Unsupported);
}

#[test]
fn wide_text_wins_over_a_registered_format_with_its_code() {
    let mut r = registered();
    r.html = CF_UNICODETEXT;
    r.png = CF_HDROP;
    assert_eq!(classify_format(CF_UNICODETEXT, &r), FormatKind::UnicodeText);
    assert_eq!(classify_format(CF_HDROP, &r), FormatKind::FileDrop);
}

#[test]
fn wide_text_ends_at_its_terminator() {
    assert_eq!(wide_text_units(&[b'a', 0, b'b', 0, 0, 0, b'c', 0]), vec![0x61, 0x62]);
    assert_eq!(wide_text_units(&[0x3A, 0x26, 0, 0]), vec![0x263A]);
    assert_eq!(wide_text_units(&[0, 0, b'a', 0]), Vec::<u16>::new());
    assert_eq!(wide_text_units(&[]), Vec::<u16>::new());
}

#[test]
fn wide_text_without_a_terminator_ends_with_the_buffer() {
    assert_eq!(wide_text_units(&[b'a', 0, b'b', 0]), vec![0x61, 0x62]);
    assert_eq!(wide_text_units(&[b'a', 0, b'b']), vec![0x61]);
    assert_eq!(wide_text_units(&[b'a']), Vec::<u16>::new());
    assert_eq!(wide_text_units(&[0, b'a', 0, 0]), vec![0x6100]);
}

#[test]
fn wide_text_is_read_as_utf16() {
    assert_eq!(read_wide_text(&[b'h', 0, b'i', 0, 0, 0]), Ok("hi".to_string()));
    assert_eq!(read_wide_text(&[0x3D, 0xD8, 0x00, 0xDE, 0, 0]), Ok("\u{1F600}".to_string()));
    assert_eq!(read_wide_text(&[]), Ok(String::new()));
}

#[test]
fn an_unpaired_surrogate_fails_the_conversion() {
    assert_eq!(read_wide_text(&[0x3D, 0xD8, b'a', 0, 0, 0]), Err(ClipboardError::Utf16ConversionFailed));
    assert_eq!(read_wide_text(&[0x00, 0xDC]), Err(ClipboardError::Utf16ConversionFailed));
    assert_eq!(read_wide_text_lossy(&[0x3D, 0xD8, b'a', 0, 0, 0]), "\u{fffd}a");
    assert_eq!(read_wide_text_lossy(&[b'o', 0, b'k', 0]), "ok");
}

#[test]
fn bytes_are_interpreted_by_the_kind_of_their_format() {
    assert_eq!(
        interpret(FormatKind::UnicodeText, vec![b'h', 0, b'i', 0, 0, 0]),
        Ok(ClipboardData::Text(Text::Plain("hi".to_string())))
    );
    assert_eq!(
        interpret(FormatKind::UnicodeText, vec![0x00, 0xD8, 0, 0]),
        Err(ClipboardError::Utf16ConversionFailed)
    );
    assert_eq!(
        interpret(FormatKind::Html, b"<b>x</b>".to_vec()),
        Ok(ClipboardData::Text(Text::HTML("<b>x</b>".to_string())))
    );
    assert_eq!(
        interpret(FormatKind::Html, vec![b'<', 0xFF, b'>']),
        Ok(ClipboardData::Text(Text::HTML("<\u{fffd}>".to_string())))
    );
    assert_eq!(
        interpret(FormatKind::Bitmap, vec![9, 8, 7]),
        Ok(ClipboardData::Image(Image::BMP(vec![9, 8, 7])))
    );
    let png = b"\x89PNG\r\n\x1a\n....".to_vec();
    assert_eq!(
        interpret(FormatKind::EncodedImage, png.clone()),
        Ok(ClipboardData::Image(Image::PNG(png.clone())))
    );
    assert_eq!(interpret(FormatKind::FileDrop, png.clone()), Ok(ClipboardData::Image(Image::PNG(png))));
    assert_eq!(
        interpret(FormatKind::EncodedImage, b"not an image".to_vec()),
        Err(ClipboardError::FormatNotAvailable)
    );
    assert_eq!(interpret(FormatKind::FileDrop, Vec::new()), Err(ClipboardError::FormatNotAvailable));
    assert_eq!(
        interpret(FormatKind::Unsupported, b"GIF89a".to_vec()),
        Err(ClipboardError::FormatNotAvailable)
    );
}

const STANDARD: [(u32, &str); 26] = [
    (2, "CF_BITMAP"),
    (8, "CF_DIB"),
    (17, "CF_DIBV5"),
    (5, "CF_DIF"),
    (0x0082, "CF_DSPBITMAP"),
    (0x008E, "CF_DSPENHMETAFILE"),
    (0x0083, "CF_DSPMETAFILEPICT"),
    (0x0081, "CF_DSPTEXT"),
    (14, "CF_ENHMETAFILE"),
    (0x0300, "CF_GDIOBJFIRST"),
    (0x03FF, "CF_GDIOBJLAST"),
    (15, "CF_HDROP"),
    (16, "CF_LOCALE"),
    (3, "CF_METAFILEPICT"),
    (7, "CF_OEMTEXT"),
    (0x0080, "CF_OWNERDISPLAY"),
    (9, "CF_PALETTE"),
    (10, "CF_PENDATA"),
    (0x0200, "CF_PRIVATEFIRST"),
    (0x02FF, "CF_PRIVATELAST"),
    (11, "CF_RIFF"),
    (4, "CF_SYLK"),
    (1, "CF_TEXT"),
    (6, "CF_TIFF"),
    (13, "CF_UNICODETEXT"),
    (12, "CF_WAVE"),
];

#[test]
fn standard_formats_have_their_names() {
    for (code, name) in STANDARD {
        assert_eq!(standard_format_name(code), Some(name));
        assert_eq!(standard_format_code(name), Some(code));
        assert_eq!(get_format_name(code, &[]), name);
        assert_eq!(get_format_name(code, &[b'x' as u16]), name);
        assert_eq!(get_format_code(name), FormatCode::Standard(code));
    }
}

#[test]
fn other_formats_have_no_standard_name() {
    for code in [0u32, 18, 0x7F, 0x84, 0x201, 0xC001, u32::MAX] {
        assert_eq!(standard_format_name(code), None);
    }
    for name in ["", "PNG", "cf_text", "CF_TEXT ", "CF_", "HTML Format"] {
        assert_eq!(standard_format_code(name), None);
    }
}

#[test]
fn a_registered_format_goes_by_its_registered_name() {
    let wide: Vec<u16> = "HTML Format".encode_utf16().collect();
    assert_eq!(get_format_name(0xC007, &wide), "HTML Format");
    assert_eq!(get_format_name(0xC007, &[]), "unknown");
    assert_eq!(get_format_name(0xC008, &[0xD800, b'a' as u16]), "\u{fffd}a");
}

#[test]
fn an_unknown_name_is_to_be_registered() {
    let mut wide: Vec<u16> = "image/png".encode_utf16().collect();
    wide.push(0);
    assert_eq!(get_format_code("image/png"), FormatCode::Register(wide));
    assert_eq!(get_format_code(""), FormatCode::Register(vec![0]));
    assert_eq!(
        get_format_code("\u{1F600}"),
        FormatCode::Register(vec![0xD83D, 0xDE00, 0])
    );
}

#[test]
fn the_enumeration_asks_with_the_format_before() {
    let mut access = WindowsDataAccess::new(3);
    assert_eq!(access.next_query(), Some(0));
    access.record(13, &[]);
    assert_eq!(access.next_query(), Some(13));
    let html: Vec<u16> = "HTML Format".encode_utf16().collect();
    access.record(0xC007, &html);
    assert_eq!(access.next_query(), Some(0xC007));
    assert!(!access.is_complete());
    access.record(0xC100, &[]);
    assert!(access.is_complete());
    assert_eq!(access.next_query(), None);
    assert_eq!(access.format_codes(), &[13, 0xC007, 0xC100]);
    assert_eq!(
        access.mime_types(),
        &["CF_UNICODETEXT".to_string(), "HTML Format".to_string(), "unknown".to_string()]
    );
}

#[test]
fn zero_ends_the_enumeration() {
    let mut access = WindowsDataAccess::new(10);
    access.record(1, &[]);
    access.record(0, &[]);
    assert!(access.is_complete());
    access.record(7, &[]);
    assert_eq!(access.format_codes(), &[1]);
    assert_eq!(access.mime_types(), &["CF_TEXT".to_string()]);
    let mut empty = WindowsDataAccess::new(0);
    assert_eq!(empty.next_query(), Some(0));
    empty.record(0, &[]);
    assert!(empty.is_complete());
    assert!(empty.mime_types().is_empty());
}

#[test]
fn a_count_that_is_never_reached_sets_no_ceiling() {
    let mut access = WindowsDataAccess::new(-1);
    for code in 1..=40u32 {
        access.record(code, &[]);
        assert!(!access.is_complete());
    }
    assert_eq!(access.format_codes().len(), 40);
    let mut short = WindowsDataAccess::new(0);
    short.record(2, &[]);
    short.record(8, &[]);
    assert!(!short.is_complete());
    assert_eq!(short.mime_types(), &["CF_BITMAP".to_string(), "CF_DIB".to_string()]);
}

#[test]
fn memory_without_content_is_unavailable() {
    assert_eq!(WindowsDataAccess::check_memory(true, true, 1), Ok(()));
    assert_eq!(WindowsDataAccess::check_memory(true, true, usize::MAX), Ok(()));
    for (valid, locked, size) in [(false, true, 4), (true, false, 4), (true, true, 0), (false, false, 0)] {
        assert_eq!(
            WindowsDataAccess::check_memory(valid, locked, size),
            Err(ClipboardError::ClipboardDataUnavailable)
        );
    }
}

#[test]
fn an_open_clipboard_is_closed_once() {
    let mut handle = ClipboardHandle::new(true).unwrap();
    assert!(handle.close());
    assert!(!handle.close());
    assert!(!handle.close());
}

#[test]
fn a_failed_open_gives_no_handle() {
    assert_eq!(ClipboardHandle::new(false).err(), Some(ClipboardError::OpenFailed));
}

#[test]
fn an_attempt_with_a_value_ends_the_read() {
    for attempt in 1..=5 {
        assert_eq!(
            read_attempt(FormatKind::Html, attempt, ReadStep::Content(b"<p>".to_vec())),
            AttemptOutcome::Done(Ok(ClipboardData::Text(Text::HTML("<p>".to_string()))))
        );
    }
    assert_eq!(
        read_attempt(FormatKind::UnicodeText, 1, ReadStep::Content(vec![b'a', 0, 0, 0])),
        AttemptOutcome::Done(Ok(ClipboardData::Text(Text::Plain("a".to_string()))))
    );
    assert_eq!(
        read_attempt(FormatKind::EncodedImage, 5, ReadStep::Content(b"GIF89a".to_vec())),
        AttemptOutcome::Done(Ok(ClipboardData::Image(Image::GIF(b"GIF89a".to_vec()))))
    );
}

#[test]
fn a_failed_attempt_is_tried_again_until_the_last() {
    let failures = [
        (ReadStep::NotAvailable, ClipboardError::FormatNotAvailable),
        (ReadStep::NoHandle, ClipboardError::Empty),
        (ReadStep::NotLocked, ClipboardError::LockFailed),
        (ReadStep::Content(b"no image".to_vec()), ClipboardError::FormatNotAvailable),
    ];
    for (step, error) in failures {
        for attempt in 1..5 {
            let again = match &step {
                ReadStep::Content(bytes) => ReadStep::Content(bytes.clone()),
                ReadStep::NotAvailable => ReadStep::NotAvailable,
                ReadStep::NoHandle => ReadStep::NoHandle,
                ReadStep::NotLocked => ReadStep::NotLocked,
            };
            assert_eq!(
                read_attempt(FormatKind::EncodedImage, attempt, again),
                AttemptOutcome::RetryAfter { millis: 100 }
            );
        }
        assert_eq!(read_attempt(FormatKind::EncodedImage, 5, step), AttemptOutcome::Done(Err(error)));
    }
    assert_eq!(
        read_attempt(FormatKind::Unsupported, 2, ReadStep::Content(b"GIF89a".to_vec())),
        AttemptOutcome::RetryAfter { millis: 100 }
    );
    assert_eq!(
        read_attempt(FormatKind::Unsupported, 5, ReadStep::Content(b"GIF89a".to_vec())),
        AttemptOutcome::Done(Err(ClipboardError::FormatNotAvailable))
    );
}

#[test]
fn text_that_is_not_utf16_is_not_read_again() {
    for attempt in 1..=5 {
        assert_eq!(
            read_attempt(FormatKind::UnicodeText, attempt, ReadStep::Content(vec![0x00, 0xD8, 0, 0])),
            AttemptOutcome::Done(Err(ClipboardError::Utf16ConversionFailed))
        );
    }
}

struct Silent {
    seen: Vec<String>,
}

impl gengine_clipboard::ClipboardHandler for Silent {
    type Access = gengine_clipboard::wasm::WasmDataAccess;

    fn handle_event(
        &mut self,
        event: gengine_clipboard::ClipboardEvent<'_, gengine_clipboard::wasm::WasmDataAccess>,
    ) {
        self.seen.push(match event {
            gengine_clipboard::ClipboardEvent::StartedPasteHandling { source } => {
                format!("started {}", source.value())
            }
            gengine_clipboard::ClipboardEvent::FailedPasteHandling { error, source } => {
                format!("failed {} {:?}", source.value(), error)
            }
            gengine_clipboard::ClipboardEvent::PasteResult { source, .. } => {
                format!("result {}", source.value())
            }
        });
    }
}

fn request_with(failures: usize) -> Vec<String> {
    let mut session = gengine_clipboard::Session::new(Silent { seen: Vec::new() });
    let source = session.started_paste_handling().unwrap();
    let mut attempts = OpenAttempts::new();
    let mut tries = 0;
    loop {
        let opened = tries >= failures;
        tries += 1;
        match attempts.on_result_of_request(opened, &mut session, source) {
            OpenStep::Opened => {
                session.failed_paste_handling(ClipboardError::Empty, source);
                break;
            }
            OpenStep::RetryAfter { .. } => {}
            OpenStep::GiveUp { .. } => break,
        }
    }
    session.into_handler().seen
}

#[test]
fn a_request_under_contention_ends_in_use_after_five_failures() {
    for failures in 0..5 {
        assert_eq!(request_with(failures), vec!["started 0".to_string(), "failed 0 Empty".to_string()]);
    }
    for failures in 5..9 {
        assert_eq!(request_with(failures), vec!["started 0".to_string(), "failed 0 InUse".to_string()]);
    }
}

#[test]
fn dropped_files_are_images_by_their_extension() {
    for extension in ["png", "jpeg", "jpg", "webp", "gif"] {
        assert!(gengine_clipboard::windows::is_image_extension(extension));
    }
    for extension in ["", "bmp", "PNG", "png ", "txt", "jpe"] {
        assert!(!gengine_clipboard::windows::is_image_extension(extension));
    }
}
