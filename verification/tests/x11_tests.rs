use gengine_clipboard::x11::{
    parse_atoms, AtomManager, ByteOrder, Conversion, Next, PropertyReply, TransferState,
    X11DataAcess, X11Event, TIMEOUT_LIMIT,
};
use gengine_clipboard::ClipboardError;

const ATOM: u32 = 4;
const CLIPBOARD: u32 = 300;
const TARGETS: u32 = 301;
const INCR: u32 = 302;
const RECEIVER: u32 = 400;
const UTF8: u32 = 500;
const OWNER_PROPERTY: u32 = 401;

fn adapter() -> X11DataAcess {
    X11DataAcess::new(AtomManager::new(ATOM, CLIPBOARD, TARGETS, INCR), RECEIVER)
}

fn reply(type_: u32, bytes_after: u32, value: &[u8]) -> PropertyReply {
    PropertyReply { type_, bytes_after, value: value.to_vec() }
}

fn notify() -> X11Event {
    X11Event::SelectionNotify { selection: CLIPBOARD, property: OWNER_PROPERTY }
}

fn single(target: u32, expected_type: u32, content: &[u8]) -> Result<Vec<u8>, ClipboardError> {
    let mut x = adapter();
    x.request(target, 0).unwrap();
    x.on_event(notify(), 1);
    assert_eq!(x.on_reply(reply(expected_type, content.len() as u32, b""), 1), None);
    assert_eq!(x.on_reply(reply(expected_type, 0, content), 1), None);
    assert_eq!(x.next(), Next::Done);
    x.take_result().unwrap()
}

fn incremental(target: u32, chunks: &[&[u8]]) -> Result<Vec<u8>, ClipboardError> {
    let mut x = adapter();
    x.request(target, 0).unwrap();
    x.on_event(notify(), 1);
    assert_eq!(x.on_reply(reply(INCR, 0, b""), 1), Some(OWNER_PROPERTY));
    let mut now = 1;
    for chunk in chunks {
        now += 10;
        assert_eq!(x.next(), Next::Wait);
        x.on_event(X11Event::PropertyNotify { new_value: true }, now);
        assert_eq!(
            x.next(),
            Next::GetProperty { delete: true, property: RECEIVER, type_: target, long_length: u32::MAX }
        );
        assert_eq!(x.on_reply(reply(target, 0, chunk), now), None);
    }
    x.on_event(X11Event::PropertyNotify { new_value: true }, now + 10);
    assert_eq!(x.on_reply(reply(target, 0, b""), now + 10), Some(RECEIVER));
    assert_eq!(x.next(), Next::Done);
    x.take_result().unwrap()
}

#[test]
fn an_idle_adapter_asks_for_nothing() {
    let mut x = adapter();
    assert_eq!(x.state(), TransferState::Idle);
    assert_eq!(x.next(), Next::Nothing);
    assert_eq!(x.take_result(), None);
    x.on_event(notify(), 5);
    assert_eq!(x.on_reply(reply(UTF8, 0, b"stray"), 5), None);
    assert_eq!(x.state(), TransferState::Idle);
}

#[test]
fn a_request_names_the_conversion() {
    let mut x = adapter();
    assert_eq!(
        x.request(UTF8, 10),
        Some(Conversion { selection: CLIPBOARD, target: UTF8, property: RECEIVER })
    );
    assert_eq!(x.state(), TransferState::AwaitingData);
    assert_eq!(x.next(), Next::Wait);
    assert_eq!(x.request(TARGETS, 11), None);
    assert_eq!(x.state(), TransferState::AwaitingData);
}

#[test]
fn a_request_for_targets_awaits_targets() {
    let mut x = adapter();
    x.request(TARGETS, 0).unwrap();
    assert_eq!(x.state(), TransferState::AwaitingTargets);
    x.on_event(notify(), 1);
    assert_eq!(
        x.next(),
        Next::GetProperty { delete: false, property: OWNER_PROPERTY, type_: ATOM, long_length: 0 }
    );
}

#[test]
fn a_single_transfer_reads_the_property_in_one_piece() {
    let mut x = adapter();
    x.request(UTF8, 0).unwrap();
    x.on_event(notify(), 100);
    assert_eq!(
        x.next(),
        Next::GetProperty { delete: false, property: OWNER_PROPERTY, type_: UTF8, long_length: 0 }
    );
    assert_eq!(x.on_reply(reply(UTF8, 10, b""), 100), None);
    assert_eq!(
        x.next(),
        Next::GetProperty { delete: false, property: OWNER_PROPERTY, type_: UTF8, long_length: 3 }
    );
    assert_eq!(x.on_reply(reply(UTF8, 0, b"0123456789"), 101), None);
    assert_eq!(x.state(), TransferState::Complete);
    assert_eq!(x.next(), Next::Done);
    assert_eq!(x.take_result(), Some(Ok(b"0123456789".to_vec())));
    assert_eq!(x.state(), TransferState::Idle);
    assert_eq!(x.take_result(), None);
}

#[test]
fn the_length_to_read_is_rounded_up_to_words() {
    for (bytes_after, words) in [(0u32, 0u32), (1, 1), (3, 1), (4, 1), (5, 2), (8, 2), (u32::MAX, 0x4000_0000)] {
        let mut x = adapter();
        x.request(UTF8, 0).unwrap();
        x.on_event(notify(), 1);
        x.on_reply(reply(UTF8, bytes_after, b""), 1);
        assert_eq!(
            x.next(),
            Next::GetProperty { delete: false, property: OWNER_PROPERTY, type_: UTF8, long_length: words }
        );
    }
}

#[test]
fn chunks_are_joined_in_the_order_of_arrival() {
    assert_eq!(incremental(UTF8, &[b"abc", b"de", b"f"]), Ok(b"abcdef".to_vec()));
}

#[test]
fn incremental_and_single_transfers_agree() {
    let content: Vec<u8> = (0..=255u8).cycle().take(1000).collect();
    let whole = single(UTF8, UTF8, &content);
    assert_eq!(whole, Ok(content.clone()));
    for size in [1usize, 7, 64, 999, 1000, 5000] {
        let chunks: Vec<&[u8]> = content.chunks(size).collect();
        assert_eq!(incremental(UTF8, &chunks), whole);
    }
}

#[test]
fn an_incremental_transfer_without_chunks_is_empty() {
    assert_eq!(incremental(UTF8, &[]), Ok(Vec::new()));
    assert_eq!(single(UTF8, UTF8, b""), Ok(Vec::new()));
}

#[test]
fn a_wrong_property_type_is_a_foreign_error() {
    let mut x = adapter();
    x.request(UTF8, 0).unwrap();
    x.on_event(notify(), 1);
    assert_eq!(x.on_reply(reply(ATOM, 4, b""), 1), None);
    assert_eq!(x.state(), TransferState::ForeignError);
    assert_eq!(x.next(), Next::Done);
    assert_eq!(x.take_result(), Some(Err(ClipboardError::ForeignClipboardError)));
}

#[test]
fn targets_must_come_as_atoms() {
    assert_eq!(single(TARGETS, ATOM, &[1, 0, 0, 0]), Ok(vec![1, 0, 0, 0]));
    let mut x = adapter();
    x.request(TARGETS, 0).unwrap();
    x.on_event(notify(), 1);
    x.on_reply(reply(TARGETS, 4, b""), 1);
    assert_eq!(x.take_result(), Some(Err(ClipboardError::ForeignClipboardError)));
}

#[test]
fn silence_past_the_limit_times_out() {
    let mut x = adapter();
    x.request(UTF8, 1000).unwrap();
    x.on_event(X11Event::Other, 1000 + TIMEOUT_LIMIT);
    assert_eq!(x.state(), TransferState::AwaitingData);
    x.on_event(X11Event::Other, 1000 + TIMEOUT_LIMIT + 1);
    assert_eq!(x.state(), TransferState::TimedOut);
    assert_eq!(x.next(), Next::Done);
    assert_eq!(x.take_result(), Some(Err(ClipboardError::Timeout)));
}

#[test]
fn a_late_notification_times_out() {
    let mut x = adapter();
    x.request(UTF8, 0).unwrap();
    x.on_event(notify(), 2001);
    assert_eq!(x.take_result(), Some(Err(ClipboardError::Timeout)));
}

#[test]
fn every_chunk_renews_the_limit() {
    let mut x = adapter();
    x.request(UTF8, 0).unwrap();
    x.on_event(notify(), 1500);
    assert_eq!(x.on_reply(reply(INCR, 0, b""), 1500), Some(OWNER_PROPERTY));
    x.on_event(X11Event::PropertyNotify { new_value: true }, 3400);
    x.on_reply(reply(UTF8, 0, b"a"), 3400);
    x.on_event(X11Event::PropertyNotify { new_value: true }, 5300);
    x.on_reply(reply(UTF8, 0, b"b"), 5300);
    assert_eq!(x.remaining(5300), 2000);
    assert_eq!(x.remaining(6000), 1300);
    assert_eq!(x.remaining(7300), 0);
    assert_eq!(x.remaining(7301), 0);
    x.on_event(X11Event::PropertyNotify { new_value: true }, 7301);
    assert_eq!(x.take_result(), Some(Err(ClipboardError::Timeout)));
}

#[test]
fn a_clock_that_runs_backwards_does_not_time_out() {
    let mut x = adapter();
    x.request(UTF8, 5000).unwrap();
    assert_eq!(x.remaining(10), 2000);
    x.on_event(X11Event::Other, 10);
    assert_eq!(x.state(), TransferState::AwaitingData);
}

#[test]
fn events_that_do_not_concern_the_transfer_are_passed_over() {
    let mut x = adapter();
    x.request(UTF8, 0).unwrap();
    x.on_event(X11Event::SelectionNotify { selection: CLIPBOARD + 1, property: OWNER_PROPERTY }, 1);
    assert_eq!(x.next(), Next::Wait);
    x.on_event(X11Event::PropertyNotify { new_value: true }, 2);
    assert_eq!(x.next(), Next::Wait);
    x.on_event(X11Event::Other, 3);
    assert_eq!(x.next(), Next::Wait);
    x.on_event(notify(), 4);
    x.on_reply(reply(INCR, 0, b""), 4);
    x.on_event(X11Event::PropertyNotify { new_value: false }, 5);
    assert_eq!(x.next(), Next::Wait);
}

#[test]
fn a_new_request_starts_from_nothing() {
    let mut x = adapter();
    assert_eq!(incremental(UTF8, &[b"first"]), Ok(b"first".to_vec()));
    x.request(UTF8, 0).unwrap();
    x.on_event(notify(), 1);
    x.on_reply(reply(UTF8, 1, b""), 1);
    x.on_reply(reply(UTF8, 0, b"a"), 1);
    assert_eq!(x.take_result(), Some(Ok(b"a".to_vec())));
    x.request(UTF8, 10).unwrap();
    x.on_event(notify(), 11);
    x.on_reply(reply(UTF8, 1, b""), 11);
    x.on_reply(reply(UTF8, 0, b"b"), 11);
    assert_eq!(x.take_result(), Some(Ok(b"b".to_vec())));
}

#[test]
fn atoms_are_read_four_bytes_each() {
    let bytes = [0x2D, 0x01, 0x00, 0x00, 0x78, 0x56, 0x34, 0x12];
    assert_eq!(parse_atoms(&bytes, ByteOrder::LittleEndian), Ok(vec![0x12D, 0x1234_5678]));
    assert_eq!(parse_atoms(&bytes, ByteOrder::BigEndian), Ok(vec![0x2D01_0000, 0x7856_3412]));
    assert_eq!(parse_atoms(&[0xFF; 4], ByteOrder::LittleEndian), Ok(vec![u32::MAX]));
    assert_eq!(parse_atoms(&[], ByteOrder::LittleEndian), Ok(Vec::new()));
}

#[test]
fn atoms_agree_with_the_machine_in_its_own_order() {
    let atoms = [1u32, 300, 0xDEAD_BEEF];
    let mut le = Vec::new();
    let mut be = Vec::new();
    for a in atoms {
        le.extend_from_slice(&a.to_le_bytes());
        be.extend_from_slice(&a.to_be_bytes());
    }
    assert_eq!(parse_atoms(&le, ByteOrder::LittleEndian), Ok(atoms.to_vec()));
    assert_eq!(parse_atoms(&be, ByteOrder::BigEndian), Ok(atoms.to_vec()));
}

#[test]
fn a_list_of_targets_with_a_remainder_is_a_foreign_error() {
    for len in [1usize, 2, 3, 5, 7] {
        let bytes = vec![0u8; len];
        assert_eq!(
            parse_atoms(&bytes, ByteOrder::LittleEndian),
            Err(ClipboardError::ForeignClipboardError)
        );
    }
}

#[test]
fn a_failed_native_call_ends_the_transfer() {
    let mut x = adapter();
    x.request(UTF8, 0).unwrap();
    x.on_failure();
    assert_eq!(x.state(), TransferState::ForeignError);
    assert_eq!(x.next(), Next::Done);
    assert_eq!(x.take_result(), Some(Err(ClipboardError::ForeignClipboardError)));
    let mut probing = adapter();
    probing.request(UTF8, 0).unwrap();
    probing.on_event(notify(), 1);
    probing.on_failure();
    assert_eq!(probing.take_result(), Some(Err(ClipboardError::ForeignClipboardError)));
    assert_eq!(gengine_clipboard::x11::native_failure(), ClipboardError::ForeignClipboardError);
}

#[test]
fn a_failure_outside_a_transfer_changes_nothing() {
    let mut x = adapter();
    x.on_failure();
    assert_eq!(x.state(), TransferState::Idle);
    assert_eq!(single(UTF8, UTF8, b"ok"), Ok(b"ok".to_vec()));
    x.request(UTF8, 0).unwrap();
    x.on_event(notify(), 1);
    x.on_reply(reply(UTF8, 2, b""), 1);
    x.on_reply(reply(UTF8, 0, b"ok"), 1);
    x.on_failure();
    assert_eq!(x.take_result(), Some(Ok(b"ok".to_vec())));
}
