//! Bounded, key-ordered pages of stored records.
use vstd::prelude::*;

verus! {

/// Records listed from a catalog table, at most a page size of them.
#[derive(Debug)]
pub struct Page<T> {
    pub revision: u64,
    pub items: Vec<T>,
    /// The key to continue after, present only when more rows exist.
    pub next_after: Option<String>,
}

/// The continuation key of a page cut from `keys` at `size` rows: the key of
/// the last kept row, when a row beyond the page was read.
pub open spec fn continuation(keys: Seq<Seq<char>>, size: nat) -> Option<Seq<char>> {
    if keys.len() > size && size > 0 {
        Some(keys[size - 1])
    } else {
        None
    }
}

/// Cuts one page from `items` (read in key order, one row beyond the page
/// when more exist) whose keys are `keys`.
pub fn page_of<T>(revision: u64, items: Vec<T>, keys: &Vec<String>, size: usize) -> (p: Page<T>)
    requires
        keys@.len() == items@.len(),
    ensures
        p.revision == revision,
        p.items@ == if items@.len() > size {
            items@.subrange(0, size as int)
        } else {
            items@
        },
        crate::protocol::opt_view(p.next_after) == continuation(
            keys@.map_values(|k: String| k@),
            size as nat,
        ),
{
    let mut items = items;
    let more = items.len() > size;
    items.truncate(size);
    let next_after = if more && size > 0 {
        Some(keys[size - 1].clone())
    } else {
        None
    };
    Page { revision, items, next_after }
}

} // verus!
