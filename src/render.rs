use vstd::prelude::*;
use crate::message::Message;
use crate::page::{PageLinks, links_for, page_links, requested_offset};

verus! {

/// The page up to the list of messages: the styles and the form.
pub const PAGE_HEAD: &'static str = r#"
            <html>
            <head>
                <title>Message Board</title>
                <style>
                h1 { font-size: 1.5rem; }
                body { font-family: sans-serif; }
                input { display: block; width: 100%; margin-bottom: 0.5rem; }
                textarea { display: block; width: 100%; margin-bottom: 0.5rem; }
                label { display: block; width: 100%; }
                form > h2 { font-size: 1rem; font-weight: bold; text-transform: uppercase; padding: 0.25rem 0.5rem;
                background: #eee; margin: 0; }
                form { border: 1px solid #eee; margin-bottom: 1rem; }
                .form-wrapper { padding: 1rem; }
                .messages > h2 { font-size: 1rem; font-weight: bold; text-transform: uppercase; padding: 0.25rem 0.5rem;
                background: #eee; margin: 2rem 0 1rem 0; }
                .messages > div { padding: 1rem 1rem 0 1rem; border: 1px solid #eee; margin-bottom: 1rem; }
                .messages h3 { font-weight: normal; font-size: 1.125rem; margin: 0; }
                .messages h3 > span { font-size: 0.75rem; }
                .pagination { display: flex; justify-content: space-between; }
                </style>
            </head>
            <body>
            <h1>Message Board</h1>

            <form method="POST" action="/add">
            <h2>Add message</h2>
            <div class="form-wrapper">
            <label for="name-input">Name:</label>
            <input id="name-input" type="text" name="name" />
            <label for="message-input">Message:</label>
            <textarea rows="5" id="message-input" name="message"></textarea>
            <button type="submit">Save</button>
            </div>
            </form>

            <div class="messages">
            <h2>Messages:</h2>
            "#;

/// The page between the list and the first control.
pub const PAGE_AFTER_LIST: &'static str = r#"
            </div>

            <div class="pagination">
            <span>"#;

/// The page between the two controls.
pub const PAGE_BETWEEN_LINKS: &'static str = r#"</span>
            <span>"#;

/// The page after the second control.
pub const PAGE_TAIL: &'static str = r#"</span>
            </div>

            </body>
            </html>
        "#;

/// The decimal digit for `d`, which is below ten.
pub open spec fn digit(d: nat) -> char {
    if d == 0 { '0' }
    else if d == 1 { '1' }
    else if d == 2 { '2' }
    else if d == 3 { '3' }
    else if d == 4 { '4' }
    else if d == 5 { '5' }
    else if d == 6 { '6' }
    else if d == 7 { '7' }
    else if d == 8 { '8' }
    else { '9' }
}

/// `n` written in decimal, without leading zeros.
pub open spec fn decimal(n: nat) -> Seq<char>
    decreases n,
{
    if n < 10 {
        seq![digit(n)]
    } else {
        decimal(n / 10) + seq![digit(n % 10)]
    }
}

fn digit_str(d: u64) -> (r: &'static str)
    requires
        d < 10,
    ensures
        r@ == seq![digit(d as nat)],
{
    if d == 0 {
        proof { reveal_strlit("0"); }
        "0"
    } else if d == 1 {
        proof { reveal_strlit("1"); }
        "1"
    } else if d == 2 {
        proof { reveal_strlit("2"); }
        "2"
    } else if d == 3 {
        proof { reveal_strlit("3"); }
        "3"
    } else if d == 4 {
        proof { reveal_strlit("4"); }
        "4"
    } else if d == 5 {
        proof { reveal_strlit("5"); }
        "5"
    } else if d == 6 {
        proof { reveal_strlit("6"); }
        "6"
    } else if d == 7 {
        proof { reveal_strlit("7"); }
        "7"
    } else if d == 8 {
        proof { reveal_strlit("8"); }
        "8"
    } else {
        proof { reveal_strlit("9"); }
        "9"
    }
}

/// `n` in decimal.
pub fn decimal_text(n: u64) -> (r: String)
    ensures
        r@ == decimal(n as nat),
    decreases n,
{
    if n < 10 {
        String::from_str(digit_str(n))
    } else {
        let mut s = decimal_text(n / 10);
        s.append(digit_str(n % 10));
        s
    }
}

/// One message on the page: the name with the time beside it, then the text.
pub open spec fn block_html(name: Seq<char>, stamp: Seq<char>, content: Seq<char>) -> Seq<char> {
    "<div><h3>"@ + name + " <span>"@ + stamp + "</span></h3><p>"@ + content + "</p></div>\n"@
}

/// The block of a stored message.
pub open spec fn message_block(m: Message) -> Seq<char> {
    block_html(m.name@, m.created_at.text(), m.content@)
}

/// The blocks of the messages, one after another, in the order given.
pub open spec fn list_html(ms: Seq<Message>) -> Seq<char>
    decreases ms.len(),
{
    if ms.len() == 0 {
        Seq::empty()
    } else {
        list_html(ms.drop_last()) + message_block(ms.last())
    }
}

/// Lays out one message from its name, the text of its time and its content.
pub fn message_html(name: &str, stamp: &str, content: &str) -> (r: String)
    ensures
        r@ == block_html(name@, stamp@, content@),
{
    let mut s = String::from_str("<div><h3>");
    s.append(name);
    s.append(" <span>");
    s.append(stamp);
    s.append("</span></h3><p>");
    s.append(content);
    s.append("</p></div>\n");
    s
}

/// Lays out a stored message.
pub fn render_message(m: &Message) -> (r: String)
    ensures
        r@ == message_block(*m),
{
    let stamp = m.created_at.to_text();
    message_html(m.name.as_str(), stamp.as_str(), m.content.as_str())
}

/// Lays out the messages in the order given.
pub fn render_list(ms: &Vec<Message>) -> (r: String)
    ensures
        r@ == list_html(ms@),
{
    let mut s = String::new();
    let mut i: usize = 0;
    while i < ms.len()
        invariant
            i <= ms.len(),
            s@ == list_html(ms@.subrange(0, i as int)),
        decreases ms.len() - i,
    {
        let block = render_message(&ms[i]);
        s.append(block.as_str());
        proof {
            let next = ms@.subrange(0, i + 1);
            assert(next.drop_last() == ms@.subrange(0, i as int));
            assert(next.last() == ms@[i as int]);
        }
        i = i + 1;
    }
    assert(ms@.subrange(0, ms.len() as int) == ms@);
    s
}

/// The link back to the first page, where there is one.
pub open spec fn back_html(back: bool) -> Seq<char> {
    if back {
        "<a href=\"/\">&laquo; back</a>"@
    } else {
        Seq::empty()
    }
}

/// The link to the page at `more`, where there is one.
pub open spec fn more_html(more: Option<u64>) -> Seq<char> {
    match more {
        Some(n) => "<a href=\"/?offset="@ + decimal(n as nat) + "\">more &raquo;</a>"@,
        None => Seq::empty(),
    }
}

/// The whole document around the list of messages and the two controls.
pub open spec fn page_html(list: Seq<char>, start: Seq<char>, next: Seq<char>) -> Seq<char> {
    PAGE_HEAD@ + list + PAGE_AFTER_LIST@ + start + PAGE_BETWEEN_LINKS@ + next + PAGE_TAIL@
}

/// The document that lists `ms` as the page at `offset`.
pub open spec fn listing_html(offset: Option<u32>, ms: Seq<Message>) -> Seq<char> {
    let at = match offset {
        Some(n) => n,
        None => 0u32,
    };
    let links = links_for(at as nat, ms.len());
    page_html(list_html(ms), back_html(links.back), more_html(links.more))
}

/// Lays out the link back to the first page, or nothing.
pub fn back_text(back: bool) -> (r: String)
    ensures
        r@ == back_html(back),
{
    if back {
        String::from_str("<a href=\"/\">&laquo; back</a>")
    } else {
        String::new()
    }
}

/// Lays out the link to more messages, or nothing.
pub fn more_text(more: Option<u64>) -> (r: String)
    ensures
        r@ == more_html(more),
{
    match more {
        Some(n) => {
            let mut s = String::from_str("<a href=\"/?offset=");
            let digits = decimal_text(n);
            s.append(digits.as_str());
            s.append("\">more &raquo;</a>");
            s
        },
        None => String::new(),
    }
}

/// Puts the list and the two controls into the document.
pub fn page_text(list: &str, start: &str, next: &str) -> (r: String)
    ensures
        r@ == page_html(list@, start@, next@),
{
    let mut s = String::from_str(PAGE_HEAD);
    s.append(list);
    s.append(PAGE_AFTER_LIST);
    s.append(start);
    s.append(PAGE_BETWEEN_LINKS);
    s.append(next);
    s.append(PAGE_TAIL);
    s
}

/// The document for a listing request at `offset` whose page holds `ms`,
/// newest first as the store returned them: the form, every message of the
/// page in that order, a link back where the offset is not zero, and a link
/// to more where the page is full.
pub fn render_listing(offset: Option<u32>, ms: &Vec<Message>) -> (r: String)
    ensures
        r@ == listing_html(offset, ms@),
{
    let at = requested_offset(offset);
    let links: PageLinks = page_links(at, ms.len());
    let list = render_list(ms);
    let start = back_text(links.back);
    let next = more_text(links.more);
    page_text(list.as_str(), start.as_str(), next.as_str())
}

} // verus!
