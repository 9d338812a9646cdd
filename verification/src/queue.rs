//! The now-playing queue list: one row per queued track, numbered.

use vstd::prelude::*;

use crate::text::{decimal, decimal_string};

verus! {

/// A queued track as the now-playing model lists it.
pub struct QueueRow {
    /// The row's number, from one.
    pub number: usize,
    pub title: String,
    pub artist: String,
}

/// One row of the queue list, pre-formatted.
pub struct QueueItem {
    pub number_text: String,
    pub title: String,
    pub artist: String,
}

/// Whether `item` shows `row`: its number followed by a period, its title
/// and its artist.
pub open spec fn shows(item: QueueItem, row: QueueRow) -> bool {
    &&& item.number_text@ == decimal(row.number as nat) + "."@
    &&& item.title@ == row.title@
    &&& item.artist@ == row.artist@
}

impl QueueItem {
    /// The list row for `row`.
    pub fn new(row: &QueueRow) -> (item: Self)
        ensures
            shows(item, *row),
    {
        let mut number_text = decimal_string(row.number as u64);
        number_text.append(".");
        QueueItem { number_text, title: row.title.clone(), artist: row.artist.clone() }
    }
}

/// The list rows for the queue, in queue order.
pub fn model(queue: &[QueueRow]) -> (items: Vec<QueueItem>)
    ensures
        items@.len() == queue@.len(),
        forall|i: int| 0 <= i < queue@.len() ==> shows(#[trigger] items@[i], queue@[i]),
{
    let mut items: Vec<QueueItem> = Vec::new();
    let mut i: usize = 0;
    while i < queue.len()
        invariant
            i <= queue@.len(),
            items@.len() == i,
            forall|k: int| 0 <= k < i ==> shows(#[trigger] items@[k], queue@[k]),
        decreases queue@.len() - i,
    {
        items.push(QueueItem::new(&queue[i]));
        i = i + 1;
    }
    items
}

} // verus!
