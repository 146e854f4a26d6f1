use cobalt::attributes::Attributes;
use cobalt::front_matter::{extract_attributes, extract_content};

fn value(a: &Attributes, key: &str) -> Option<String> {
    a.get(key).cloned()
}

#[test]
fn content_without_marker_is_whole_text() {
    let text = "just a body\nwith: a colon\n";
    assert_eq!(extract_content(text), Some(text.to_string()));
}

#[test]
fn content_of_empty_file_is_empty() {
    assert_eq!(extract_content(""), Some(String::new()));
}

#[test]
fn content_between_two_markers() {
    assert_eq!(
        extract_content("title: Hi\n---\nBody\n---\n"),
        Some("\nBody\n".to_string())
    );
}

#[test]
fn content_stops_at_second_marker() {
    assert_eq!(extract_content("a---b---c---d"), Some("b".to_string()));
}

#[test]
fn content_with_single_marker_is_malformed() {
    assert_eq!(extract_content("title: Hi\n---\nBody"), None);
}

#[test]
fn content_with_four_dashes() {
    assert_eq!(extract_content("----x---"), Some("-x".to_string()));
}

#[test]
fn attributes_without_marker_hold_only_name() {
    let a = extract_attributes("hello", "key: value\nBody");
    assert_eq!(a.entries.len(), 1);
    assert_eq!(value(&a, "name"), Some("hello".to_string()));
    assert_eq!(value(&a, "key"), None);
}

#[test]
fn attributes_from_header_lines() {
    let a = extract_attributes("post", "title:   Hello   World  \nauthor:me\n---\nBody\n---");
    assert_eq!(value(&a, "title"), Some("Hello   World".to_string()));
    assert_eq!(value(&a, "author"), Some("me".to_string()));
    assert_eq!(value(&a, "name"), Some("post".to_string()));
}

#[test]
fn attribute_line_without_colon_is_skipped() {
    let a = extract_attributes("p", "just words\n---\nx\n---");
    assert_eq!(a.get("just words"), None);
    assert_eq!(value(&a, "name"), Some("p".to_string()));
}

#[test]
fn later_attribute_overrides_earlier() {
    let a = extract_attributes("p", "k: one\nk: two\n---\nx\n---");
    assert_eq!(value(&a, "k"), Some("two".to_string()));
}

#[test]
fn header_name_overrides_stem() {
    let a = extract_attributes("stem", "name: other\n---\nx\n---");
    assert_eq!(value(&a, "name"), Some("other".to_string()));
}

#[test]
fn attribute_value_keeps_later_colons() {
    let a = extract_attributes("p", "url: http://example.com\n---\nx\n---");
    assert_eq!(value(&a, "url"), Some("http://example.com".to_string()));
}

#[test]
fn attribute_key_is_trimmed() {
    let a = extract_attributes("p", "  spaced key  : v\n---\nx\n---");
    assert_eq!(value(&a, "spaced key"), Some("v".to_string()));
}

#[test]
fn leading_marker_leaves_empty_header() {
    let text = "---\ntitle: Hi\n---\nBody";
    assert_eq!(extract_content(text), Some("\ntitle: Hi\n".to_string()));
    let a = extract_attributes("hello", text);
    assert_eq!(a.get("title"), None);
}
