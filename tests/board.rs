use message_board::clean::{clean_field, submission, text_or_empty};
use message_board::message::Message;
use message_board::page::{page_links, requested_offset, PAGE_SIZE};
use message_board::render::{
    back_text, decimal_text, message_html, more_text, page_text, render_list, render_listing,
    render_message, PAGE_AFTER_LIST, PAGE_BETWEEN_LINKS, PAGE_HEAD, PAGE_TAIL,
};
use message_board::stamp::Timestamp;

fn message(name: &str, content: &str, secs: i64) -> Message {
    Message {
        name: name.to_string(),
        content: content.to_string(),
        created_at: Timestamp::new(secs, 0).unwrap(),
    }
}

#[test]
fn script_markup_is_stripped_and_text_kept() {
    let m = submission("Alice", "<script>x</script>Hello");
    assert_eq!(m.name, "Alice");
    assert!(!m.content.contains("<script>"));
    assert!(!m.content.contains("x"));
    assert_eq!(m.content, "Hello");
}

#[test]
fn empty_fields_are_accepted() {
    let m = submission("", "");
    assert_eq!(m.name, "");
    assert_eq!(m.content, "");
}

#[test]
fn tags_are_removed_from_a_field() {
    assert_eq!(clean_field("<b>Lo<!-- comment -->rem</b> ipsum"), "Lorem ipsum");
    assert_eq!(clean_field("plain words"), "plain words");
}

#[test]
fn sanitizing_twice_changes_nothing() {
    let inputs = [
        "<script>x</script>Hello",
        "a < b & c > d",
        "<b>bold</b> &amp; <i>italic</i>",
        "<<foo>script>alert(\"hi\");</script>",
        "",
    ];
    for s in inputs.iter() {
        let once = clean_field(s);
        let twice = clean_field(&once);
        assert_eq!(once, twice);
    }
}

#[test]
fn markup_characters_in_text_are_escaped() {
    assert_eq!(clean_field("a < b"), "a &lt; b");
}

#[test]
fn a_sanitizing_failure_becomes_empty() {
    assert_eq!(text_or_empty(Ok("kept".to_string())), "kept");
}

#[test]
fn timestamp_text_is_chrono_display() {
    let t = Timestamp::new(1431648000, 0).unwrap();
    assert_eq!(t.to_text(), "2015-05-15 00:00:00 UTC");
    assert_eq!(t.secs(), 1431648000);
    assert_eq!(t.nanos(), 0);
}

#[test]
fn timestamp_out_of_range_is_refused() {
    assert!(Timestamp::new(i64::MAX, 0).is_none());
    assert!(Timestamp::new(0, 2_000_000_000).is_none());
}

#[test]
fn timestamps_compare_by_seconds_then_nanoseconds() {
    let a = Timestamp::new(100, 5).unwrap();
    let b = Timestamp::new(100, 7).unwrap();
    let c = Timestamp::new(99, 900).unwrap();
    assert!(b.not_before(&a));
    assert!(!a.not_before(&b));
    assert!(a.not_before(&c));
    assert!(a.not_before(&a));
}

#[test]
fn offset_defaults_to_zero() {
    assert_eq!(requested_offset(None), 0);
    assert_eq!(requested_offset(Some(300)), 300);
}

#[test]
fn links_on_first_full_page() {
    let l = page_links(0, 100);
    assert!(!l.back);
    assert_eq!(l.more, Some(100));
}

#[test]
fn links_on_later_partial_page() {
    let l = page_links(200, 42);
    assert!(l.back);
    assert_eq!(l.more, None);
}

#[test]
fn links_for_pages_over_250_messages() {
    let total: u32 = 250;
    for k in 0..4u32 {
        let offset = k * PAGE_SIZE;
        let left = total.saturating_sub(offset);
        let count = std::cmp::min(PAGE_SIZE, left) as usize;
        let l = page_links(offset, count);
        assert_eq!(l.back, offset > 0);
        assert_eq!(l.more.is_some(), count == 100);
    }
    assert_eq!(page_links(0, 100).more, Some(100));
    assert_eq!(page_links(100, 100).more, Some(200));
    assert_eq!(page_links(200, 50).more, None);
}

#[test]
fn link_past_the_largest_offset_does_not_wrap() {
    assert_eq!(page_links(u32::MAX, 100).more, Some(u32::MAX as u64 + 100));
}

#[test]
fn decimal_numbers() {
    assert_eq!(decimal_text(0), "0");
    assert_eq!(decimal_text(7), "7");
    assert_eq!(decimal_text(100), "100");
    assert_eq!(decimal_text(4294967395), "4294967395");
    assert_eq!(decimal_text(u64::MAX), "18446744073709551615");
}

#[test]
fn control_links() {
    assert_eq!(back_text(true), r#"<a href="/">&laquo; back</a>"#);
    assert_eq!(back_text(false), "");
    assert_eq!(more_text(Some(300)), r#"<a href="/?offset=300">more &raquo;</a>"#);
    assert_eq!(more_text(None), "");
}

#[test]
fn one_message_block() {
    assert_eq!(
        message_html("Bob", "2015-05-15 00:00:00 UTC", "hi"),
        "<div><h3>Bob <span>2015-05-15 00:00:00 UTC</span></h3><p>hi</p></div>\n"
    );
    let m = message("Alice", "Hello", 1431648000);
    assert_eq!(
        render_message(&m),
        "<div><h3>Alice <span>2015-05-15 00:00:00 UTC</span></h3><p>Hello</p></div>\n"
    );
}

#[test]
fn list_keeps_the_given_order() {
    let ms = vec![message("b", "second", 1431648060), message("a", "first", 1431648000)];
    let out = render_list(&ms);
    assert_eq!(
        out,
        "<div><h3>b <span>2015-05-15 00:01:00 UTC</span></h3><p>second</p></div>\n\
         <div><h3>a <span>2015-05-15 00:00:00 UTC</span></h3><p>first</p></div>\n"
    );
}

#[test]
fn empty_board_shows_form_and_no_controls() {
    let page = render_listing(None, &Vec::new());
    assert!(page.contains(r#"<form method="POST" action="/add">"#));
    assert!(page.contains("<h2>Messages:</h2>"));
    assert!(!page.contains("<div><h3>"));
    assert!(!page.contains("back</a>"));
    assert!(!page.contains("more &raquo;"));
    let expected = format!("{}{}{}{}{}", PAGE_HEAD, PAGE_AFTER_LIST, PAGE_BETWEEN_LINKS, "", PAGE_TAIL);
    assert_eq!(page, expected);
}

#[test]
fn full_later_page_shows_both_controls() {
    let ms: Vec<Message> = (0..100).map(|i| message("n", "c", 1431648000 - i)).collect();
    let page = render_listing(Some(100), &ms);
    assert!(page.contains(r#"<a href="/">&laquo; back</a>"#));
    assert!(page.contains(r#"<a href="/?offset=200">more &raquo;</a>"#));
    assert_eq!(page.matches("<div><h3>").count(), 100);
}

#[test]
fn page_assembly() {
    let page = page_text("L", "S", "N");
    assert_eq!(page, format!("{}L{}S{}N{}", PAGE_HEAD, PAGE_AFTER_LIST, PAGE_BETWEEN_LINKS, PAGE_TAIL));
    assert!(page.starts_with("\n            <html>"));
    assert!(page.contains("<span>S</span>\n            <span>N</span>"));
}
