use gengine_clipboard::html::{strip_html_tags, try_extract_online_image_url};

#[test]
fn tags_are_taken_out() {
    assert_eq!(strip_html_tags("<p>Hello <b>world</b></p>"), "Hello world");
    assert_eq!(strip_html_tags("no tags"), "no tags");
    assert_eq!(strip_html_tags(""), "");
    assert_eq!(strip_html_tags("<br>"), "");
    assert_eq!(strip_html_tags("a<img src=\"x.png\">b"), "ab");
}

#[test]
fn stray_brackets_are_dropped() {
    assert_eq!(strip_html_tags("1 > 0"), "1  0");
    assert_eq!(strip_html_tags("a < b"), "a ");
    assert_eq!(strip_html_tags("a <b <c> d"), "a  d");
    assert_eq!(strip_html_tags("x>>y"), "xy");
}

#[test]
fn text_beyond_ascii_is_kept() {
    assert_eq!(strip_html_tags("<i>gr\u{fc}n</i> \u{1F600}"), "gr\u{fc}n \u{1F600}");
}

#[test]
fn the_first_image_address_is_found() {
    assert_eq!(
        try_extract_online_image_url("<img src=\"https://example.org/a.png\" alt=\"a\">"),
        Some("https://example.org/a.png".to_string())
    );
    assert_eq!(
        try_extract_online_image_url("<img src=\"one\"><img src=\"two\">"),
        Some("one".to_string())
    );
    assert_eq!(try_extract_online_image_url("src=\"\""), Some(String::new()));
    assert_eq!(try_extract_online_image_url("x src=\"\u{e9}\" y"), Some("\u{e9}".to_string()));
}

#[test]
fn markup_without_an_address_gives_nothing() {
    assert_eq!(try_extract_online_image_url(""), None);
    assert_eq!(try_extract_online_image_url("<p>text</p>"), None);
    assert_eq!(try_extract_online_image_url("<img src='single.png'>"), None);
    assert_eq!(try_extract_online_image_url("<img src=\"never closed"), None);
    assert_eq!(try_extract_online_image_url("src="), None);
    assert_eq!(try_extract_online_image_url("SRC=\"upper.png\""), None);
}
