use vstd::prelude::*;
use crate::stamp::Timestamp;

verus! {

/// A stored message, as the listing reads it back.
pub struct Message {
    pub name: String,
    pub content: String,
    pub created_at: Timestamp,
}

/// Whether the messages run from the newest to the oldest.
pub open spec fn newest_first(ms: Seq<Message>) -> bool {
    forall|i: int, j: int|
        0 <= i < j < ms.len() ==> #[trigger] ms[i].created_at.at_or_after(
            #[trigger] ms[j].created_at,
        )
}

/// The rows that a listing of at most `limit` rows after skipping `offset`
/// returns from a table whose rows, newest first, are `all`.
pub open spec fn page_rows(all: Seq<Message>, limit: nat, offset: nat) -> Seq<Message> {
    let start = if offset <= all.len() { offset as int } else { all.len() as int };
    let end = if start + limit <= all.len() { start + limit } else { all.len() as int };
    all.subrange(start, end)
}

/// A page of a table listed newest first is itself listed newest first: for
/// any two rows `a` before `b` on it, `a` is no older than `b`.
pub proof fn lemma_page_newest_first(all: Seq<Message>, limit: nat, offset: nat)
    requires
        newest_first(all),
    ensures
        newest_first(page_rows(all, limit, offset)),
{
    let start = if offset <= all.len() { offset as int } else { all.len() as int };
    let page = page_rows(all, limit, offset);
    assert forall|i: int, j: int| 0 <= i < j < page.len() implies #[trigger] page[i].created_at.at_or_after(
        #[trigger] page[j].created_at,
    ) by {
        assert(page[i] == all[start + i]);
        assert(page[j] == all[start + j]);
    }
}

} // verus!
