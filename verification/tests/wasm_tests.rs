use gengine_clipboard::wasm::{item_kind, Collector, ItemKind, WasmDataAccess};
use gengine_clipboard::{
    ClipboardError, ClipboardEvent, ClipboardHandler, DataAccess, InternalDataAccess,
};

#[derive(Debug, Clone, PartialEq, Eq)]
enum Seen {
    Started(usize),
    Failed(usize, ClipboardError),
    Result(usize, Vec<(String, Vec<u8>)>),
}

struct Recorder {
    seen: Vec<Seen>,
}

impl ClipboardHandler for Recorder {
    type Access = WasmDataAccess;

    fn handle_event(&mut self, event: ClipboardEvent<'_, WasmDataAccess>) {
        match event {
            ClipboardEvent::StartedPasteHandling { source } => {
                self.seen.push(Seen::Started(source.value()))
            }
            ClipboardEvent::FailedPasteHandling { error, source } => {
                self.seen.push(Seen::Failed(source.value(), error))
            }
            ClipboardEvent::PasteResult { data, source } => {
                let items = data
                    .raw_types()
                    .iter()
                    .map(|name| (name.clone(), data.get_raw_data(name).unwrap()))
                    .collect();
                self.seen.push(Seen::Result(source.value(), items))
            }
        }
    }
}

fn collector() -> Collector<Recorder> {
    Collector::new(Recorder { seen: Vec::new() })
}

fn item(index: usize) -> (String, Vec<u8>) {
    (format!("type/{}", index), vec![index as u8; index + 1])
}

#[test]
fn a_paste_without_items_is_empty() {
    let mut c = collector();
    let source = c.start_paste_handling(0).unwrap();
    assert_eq!(source.value(), 0);
    assert_eq!(c.handler().seen, vec![Seen::Started(0), Seen::Failed(0, ClipboardError::Empty)]);
    assert!(!c.send_error(ClipboardError::Empty, source));
    assert!(!c.insert_data("text/plain".to_string(), vec![1], source));
    assert_eq!(c.handler().seen.len(), 2);
}

#[test]
fn three_items_give_one_result_after_the_third() {
    let mut c = collector();
    let source = c.start_paste_handling(3).unwrap();
    assert_eq!(c.handler().seen, vec![Seen::Started(0)]);
    assert!(c.insert_data("text/plain".to_string(), b"a".to_vec(), source));
    assert_eq!(c.handler().seen.len(), 1);
    assert!(c.insert_data("text/html".to_string(), b"<b>a</b>".to_vec(), source));
    assert_eq!(c.handler().seen.len(), 1);
    assert!(c.insert_data("image/png".to_string(), vec![1, 2, 3], source));
    assert_eq!(
        c.handler().seen,
        vec![
            Seen::Started(0),
            Seen::Result(
                0,
                vec![
                    ("text/plain".to_string(), b"a".to_vec()),
                    ("text/html".to_string(), b"<b>a</b>".to_vec()),
                    ("image/png".to_string(), vec![1, 2, 3]),
                ]
            )
        ]
    );
    assert!(!c.insert_data("late".to_string(), vec![0], source));
    assert_eq!(c.handler().seen.len(), 2);
}

#[test]
fn the_order_of_resolution_does_not_matter() {
    let orders = [[0usize, 1, 2], [0, 2, 1], [1, 0, 2], [1, 2, 0], [2, 0, 1], [2, 1, 0]];
    for order in orders {
        let mut c = collector();
        let source = c.start_paste_handling(3).unwrap();
        for (count, index) in order.iter().enumerate() {
            assert_eq!(c.handler().seen.len(), 1);
            let (name, bytes) = item(*index);
            assert!(c.insert_data(name, bytes, source));
            assert_eq!(c.handler().seen.len(), if count == 2 { 2 } else { 1 });
        }
        let expected: Vec<(String, Vec<u8>)> = order.iter().map(|i| item(*i)).collect();
        assert_eq!(c.handler().seen, vec![Seen::Started(0), Seen::Result(0, expected)]);
    }
}

#[test]
fn a_paste_with_one_item_completes_with_it() {
    let mut c = collector();
    let source = c.start_paste_handling(1).unwrap();
    assert!(c.insert_data("text/plain".to_string(), Vec::new(), source));
    assert_eq!(
        c.handler().seen,
        vec![Seen::Started(0), Seen::Result(0, vec![("text/plain".to_string(), Vec::new())])]
    );
}

#[test]
fn pastes_are_collected_side_by_side() {
    let mut c = collector();
    let first = c.start_paste_handling(2).unwrap();
    let second = c.start_paste_handling(1).unwrap();
    assert_eq!((first.value(), second.value()), (0, 1));
    assert!(c.insert_data("a".to_string(), vec![1], first));
    assert!(c.insert_data("b".to_string(), vec![2], second));
    assert!(c.insert_data("c".to_string(), vec![3], first));
    assert_eq!(
        c.handler().seen,
        vec![
            Seen::Started(0),
            Seen::Started(1),
            Seen::Result(1, vec![("b".to_string(), vec![2])]),
            Seen::Result(0, vec![("a".to_string(), vec![1]), ("c".to_string(), vec![3])]),
        ]
    );
}

#[test]
fn an_error_ends_the_paste_and_drops_its_items() {
    let mut c = collector();
    let source = c.start_paste_handling(2).unwrap();
    assert!(c.insert_data("a".to_string(), vec![1], source));
    assert!(c.send_error(ClipboardError::ReadFailed, source));
    assert!(!c.insert_data("b".to_string(), vec![2], source));
    assert!(!c.send_error(ClipboardError::ReadFailed, source));
    assert_eq!(
        c.handler().seen,
        vec![Seen::Started(0), Seen::Failed(0, ClipboardError::ReadFailed)]
    );
    let next = c.start_paste_handling(1).unwrap();
    assert_eq!(next.value(), 1);
}

#[test]
fn the_first_item_of_a_name_is_the_one_fetched() {
    let access = WasmDataAccess::new(
        vec!["a".to_string(), "b".to_string(), "a".to_string()],
        vec![
            ("a".to_string(), vec![1]),
            ("b".to_string(), vec![2, 2]),
            ("a".to_string(), vec![3, 3, 3]),
        ],
    );
    assert_eq!(access.get_raw_data("a"), Ok(vec![1]));
    assert_eq!(access.get_raw_data("b"), Ok(vec![2, 2]));
    assert_eq!(access.get_raw_data("c"), Err(ClipboardError::FormatNotAvailable));
    assert_eq!(access.mime_types(), vec!["a".to_string(), "b".to_string(), "a".to_string()]);
    let data = DataAccess::new(access);
    assert_eq!(data.get_raw_data("b"), Ok(vec![2, 2]));
    assert_eq!(data.get_raw_data("c"), Err(ClipboardError::FormatNotAvailable));
}

#[test]
fn an_item_listed_without_content_is_not_available() {
    let access = WasmDataAccess::new(vec!["a".to_string()], Vec::new());
    let data = DataAccess::new(access);
    assert!(data.offers("a"));
    assert_eq!(data.get_raw_data("a"), Err(ClipboardError::FormatNotAvailable));
}

#[test]
fn items_are_strings_or_files() {
    assert_eq!(item_kind("string"), Some(ItemKind::String));
    assert_eq!(item_kind("file"), Some(ItemKind::File));
    assert_eq!(item_kind(""), None);
    assert_eq!(item_kind("String"), None);
    assert_eq!(item_kind("files"), None);
}

#[test]
fn items_held_in_memory_are_fetched_in_the_order_asked() {
    let access = WasmDataAccess::new(
        vec!["text/html".to_string(), "text/plain".to_string()],
        vec![
            ("text/html".to_string(), b"<b>hi</b>".to_vec()),
            ("text/plain".to_string(), b"hi".to_vec()),
        ],
    );
    let data = DataAccess::new(access);
    assert_eq!(
        data.get_first_success(&["image/png", "text/plain", "text/html"]),
        Some((1, b"hi".to_vec()))
    );
    assert_eq!(
        data.get_first_success(&["text/html", "text/plain"]),
        Some((0, b"<b>hi</b>".to_vec()))
    );
    assert_eq!(data.get_first_success(&["image/png"]), None);
    assert_eq!(data.get_first_success(&[]), None);
}

#[test]
fn text_held_in_memory_is_read() {
    let access = WasmDataAccess::new(
        vec!["text/html".to_string(), "text/plain".to_string(), "UTF8_STRING".to_string()],
        vec![
            ("text/html".to_string(), b"<b>hi</b>".to_vec()),
            ("text/plain".to_string(), b"plain".to_vec()),
            ("UTF8_STRING".to_string(), b"utf8".to_vec()),
        ],
    );
    let data = DataAccess::new(access);
    assert!(data.is_available::<String>());
    assert_eq!(data.get_data::<String>(), Some("utf8".to_string()));
    assert_eq!(data.resolve::<String>(), Ok("utf8".to_string()));
    let images = DataAccess::new(WasmDataAccess::new(
        vec!["image/png".to_string()],
        vec![("image/png".to_string(), vec![1, 2, 3])],
    ));
    assert!(!images.is_available::<String>());
    assert_eq!(images.get_data::<String>(), None);
    assert_eq!(images.resolve::<String>(), Err(ClipboardError::UnsupportedMimeType));
}
