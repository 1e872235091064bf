use mc_mcp::add;
use mc_mcp::chunking::chunk_document;
use mc_mcp::markdown::{html_to_text, parse_markdown_to_text};
use mc_mcp::text::{
    format_i32, format_u64, parse_u64, str_contains, str_eq, trim_str, utf8_len_is,
};

#[test]
fn lib_it_works() {
    let result = add(2, 2);
    assert_eq!(result, 4);
}

#[test]
fn lib_test_parse_simple_markdown() {
    let markdown = "# Header\n\nThis is **bold** text.";
    let expected_text = "Header This is bold text.";
    assert_eq!(parse_markdown_to_text(markdown), expected_text);
}

#[test]
fn lib_test_parse_markdown_with_link() {
    let markdown = "Visit [Google](https://google.com)!";
    let expected_text = "Visit Google!";
    assert_eq!(parse_markdown_to_text(markdown), expected_text);
}

#[test]
fn lib_test_parse_markdown_with_list() {
    let markdown = "* Item 1\n* Item 2";
    let expected_text = "Item 1 Item 2";
    assert_eq!(parse_markdown_to_text(markdown), expected_text);
}

#[test]
fn markdown_test_parse_simple_markdown() {
    let markdown = "# Header\n\nThis is **bold** text.";
    let expected_text = "Header This is bold text.";
    assert_eq!(parse_markdown_to_text(markdown), expected_text);
}

#[test]
fn markdown_test_parse_markdown_with_link() {
    let markdown = "Visit [Google](https://google.com)!";
    let expected_text = "Visit Google!";
    assert_eq!(parse_markdown_to_text(markdown), expected_text);
}

#[test]
fn markdown_test_parse_markdown_with_list() {
    let markdown = "* Item 1\n* Item 2";
    let expected_text = "Item 1 Item 2";
    assert_eq!(parse_markdown_to_text(markdown), expected_text);
}

#[test]
fn add_sums_small_numbers() {
    assert_eq!(add(0, 0), 0);
    assert_eq!(add(40, 2), 42);
    assert_eq!(add(u64::MAX - 1, 1), u64::MAX);
}

#[test]
fn html_to_text_strips_tags_and_collapses_space() {
    assert_eq!(html_to_text("<p>Hello <b>World</b></p>\n"), "Hello World");
    assert_eq!(html_to_text("  a\t\n b  "), "a b");
    assert_eq!(html_to_text(""), "");
    assert_eq!(html_to_text("<br/>"), "");
    assert_eq!(html_to_text("x<y>z"), "xz");
}

#[test]
fn html_to_text_drops_a_dangling_tag() {
    assert_eq!(html_to_text("keep <unclosed rest"), "keep");
    assert_eq!(html_to_text("a > b"), "a b");
}

#[test]
fn html_to_text_is_idempotent_on_an_example() {
    let once = html_to_text("<h1> Title </h1>\n<p>One  two</p>");
    assert_eq!(once, "Title One two");
    assert_eq!(html_to_text(&once), once);
}

#[test]
fn markdown_heading_and_paragraphs_become_one_line() {
    assert_eq!(parse_markdown_to_text("# Title 1\nContent 1\n"), "Title 1 Content 1");
    assert_eq!(parse_markdown_to_text("* List item\n"), "List item");
}

#[test]
fn chunk_document_splits_on_blank_lines() {
    let chunks = chunk_document(
        "test_doc.md",
        "# Test Document\n\nThis is the first paragraph.\n\nThis is the second paragraph.",
    );
    assert_eq!(
        chunks,
        vec![
            "# Test Document".to_string(),
            "This is the first paragraph.".to_string(),
            "This is the second paragraph.".to_string(),
        ]
    );
}

#[test]
fn chunk_document_drops_blank_pieces_and_trims() {
    let chunks = chunk_document("a.md", "\n\n  first  \n\n\n\n second\n\n   \n\n");
    assert_eq!(chunks, vec!["first".to_string(), "second".to_string()]);
    assert!(chunk_document("a.md", "").is_empty());
    assert!(chunk_document("a.md", " \n\n \t ").is_empty());
}

#[test]
fn chunk_document_keeps_single_newlines() {
    let chunks = chunk_document("a.md", "line one\nline two");
    assert_eq!(chunks, vec!["line one\nline two".to_string()]);
}

#[test]
fn decimal_formatting_and_parsing() {
    assert_eq!(format_u64(0), "0");
    assert_eq!(format_u64(384), "384");
    assert_eq!(format_u64(u64::MAX), u64::MAX.to_string());
    assert_eq!(format_i32(-42), "-42");
    assert_eq!(format_i32(i32::MIN), i32::MIN.to_string());
    assert_eq!(format_i32(7), "7");
    assert_eq!(parse_u64("384"), Some(384));
    assert_eq!(parse_u64("+12"), Some(12));
    assert_eq!(parse_u64(""), None);
    assert_eq!(parse_u64("+"), None);
    assert_eq!(parse_u64("12a"), None);
    assert_eq!(parse_u64("-1"), None);
    assert_eq!(parse_u64("18446744073709551615"), Some(u64::MAX));
    assert_eq!(parse_u64("18446744073709551616"), None);
}

#[test]
fn parse_inverts_format() {
    for n in [0u64, 1, 9, 10, 99, 100, 65535, 1 << 40, u64::MAX] {
        assert_eq!(parse_u64(&format_u64(n)), Some(n));
    }
}

#[test]
fn string_helpers() {
    assert_eq!(trim_str("  a b \n"), "a b");
    assert_eq!(trim_str("\u{3000}x\u{a0}"), "x");
    assert!(str_eq("deploy", "deploy"));
    assert!(!str_eq("deploy", "Deploy"));
    assert!(!str_eq("deploy", "deploy "));
    assert!(str_contains("Up 3 minutes", "Up"));
    assert!(!str_contains("Exited (0) 2 hours ago", "Up"));
    assert!(str_contains("abc", ""));
    assert!(!str_contains("", "a"));
    assert!(utf8_len_is("héllo", 6));
    assert!(!utf8_len_is("héllo", 5));
    assert!(utf8_len_is("", 0));
}
