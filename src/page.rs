use vstd::prelude::*;
use crate::message::{Message, page_rows};

verus! {

/// The most messages that one page lists.
pub const PAGE_SIZE: u32 = 100;

/// The offset that a listing request asks for; none means the first page.
pub fn requested_offset(offset: Option<u32>) -> (r: u32)
    ensures
        r == match offset {
            Some(n) => n,
            None => 0,
        },
{
    match offset {
        Some(n) => n,
        None => 0,
    }
}

/// The controls under a page: a link back to the first page, and a link to
/// the page that follows, with its offset.
pub struct PageLinks {
    pub back: bool,
    pub more: Option<u64>,
}

/// The controls for a page that starts at `offset` and shows `count` messages.
pub open spec fn links_for(offset: nat, count: nat) -> PageLinks {
    PageLinks {
        back: offset > 0,
        more: if count >= PAGE_SIZE {
            Some((offset + PAGE_SIZE) as u64)
        } else {
            None
        },
    }
}

/// The back link shows on every page but the first; the link to more shows
/// only under a full page, and leads a page size further on.
pub fn page_links(offset: u32, count: usize) -> (r: PageLinks)
    ensures
        r == links_for(offset as nat, count as nat),
{
    let more = if count >= PAGE_SIZE as usize {
        Some(offset as u64 + PAGE_SIZE as u64)
    } else {
        None
    };
    PageLinks { back: offset > 0, more }
}

/// Over `n` stored messages, the page at offset `k` times the page size holds
/// `min(page size, max(0, n - k * page size))` messages; the link to more
/// shows exactly when that page is full, and the back link exactly when the
/// offset is not zero.
pub proof fn lemma_pagination(all: Seq<Message>, k: nat)
    ensures
        ({
            let offset = (k * PAGE_SIZE) as nat;
            let count = page_rows(all, PAGE_SIZE as nat, offset).len();
            let left = if all.len() >= offset { all.len() - offset } else { 0 };
            &&& count == if left <= PAGE_SIZE { left } else { PAGE_SIZE as int }
            &&& (links_for(offset, count as nat).more is Some <==> count == PAGE_SIZE)
            &&& (links_for(offset, count as nat).back <==> offset > 0)
        }),
{
}

} // verus!
