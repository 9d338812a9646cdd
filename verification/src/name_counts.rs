//! Rows of a name list with right-aligned count columns, shared by the
//! Artists and Genres views, and the row the context menu was opened on.

use vstd::prelude::*;

use crate::library::ArtistInfo;
use crate::text::{decimal, decimal_string};

verus! {

/// One name+counts row, pre-formatted for the virtual list.
pub struct NameCountRow {
    name: String,
    counts: Vec<String>,
}

impl NameCountRow {
    /// The row's name.
    pub closed spec fn name_view(&self) -> Seq<char> {
        self.name@
    }

    /// The row's formatted counts, in column order.
    pub closed spec fn counts_view(&self) -> Seq<Seq<char>> {
        self.counts@.map_values(|c: String| c@)
    }

    /// Builds a row from its name and one already-formatted string per count
    /// column, in column order.
    pub fn new(name: String, counts: Vec<String>) -> (r: Self)
        ensures
            r.name_view() == name@,
            r.counts_view() == counts@.map_values(|c: String| c@),
    {
        NameCountRow { name, counts }
    }

    /// The row's name.
    pub fn name(&self) -> (s: &str)
        ensures
            s@ == self.name_view(),
    {
        self.name.as_str()
    }

    /// The formatted count for `column`, or `""` past the end.
    pub fn count(&self, column: usize) -> (s: &str)
        ensures
            column < self.counts_view().len() ==> s@ == self.counts_view()[column as int],
            column >= self.counts_view().len() ==> s@ == Seq::<char>::empty(),
    {
        if column < self.counts.len() {
            self.counts[column].as_str()
        } else {
            proof {
                reveal_strlit("");
            }
            ""
        }
    }
}

/// The list's rows in display order, and the row its context menu was last
/// opened on.
pub struct NameCountsView {
    rows: Vec<NameCountRow>,
    context_row: Option<usize>,
}

impl NameCountsView {
    /// The rows' names, in display order.
    pub closed spec fn names(&self) -> Seq<Seq<char>> {
        self.rows@.map_values(|r: NameCountRow| r.name_view())
    }

    /// The rows, each as its name and its formatted counts, in display
    /// order.
    pub closed spec fn rows_view(&self) -> Seq<(Seq<char>, Seq<Seq<char>>)> {
        self.rows@.map_values(|r: NameCountRow| (r.name_view(), r.counts_view()))
    }

    /// The row the context menu was last opened on.
    pub closed spec fn context_view(&self) -> Option<usize> {
        self.context_row
    }

    /// An empty list with no context row.
    pub fn new() -> (v: Self)
        ensures
            v.names() == Seq::<Seq<char>>::empty(),
            v.rows_view() == Seq::<(Seq<char>, Seq<Seq<char>>)>::empty(),
            v.context_view() is None,
    {
        NameCountsView { rows: Vec::new(), context_row: None }
    }

    /// Replaces the rows.
    pub fn set_rows(&mut self, rows: Vec<NameCountRow>)
        ensures
            final(self).names() == rows@.map_values(|r: NameCountRow| r.name_view()),
            final(self).rows_view() == rows@.map_values(
                |r: NameCountRow| (r.name_view(), r.counts_view()),
            ),
            final(self).context_view() == old(self).context_view(),
    {
        self.rows = rows;
    }

    /// The text of the cell at `row`, `column`: column 0 is the name, the
    /// count columns follow (empty past the last count); `None` past the
    /// last row.
    pub fn cell(&self, row: usize, column: usize) -> (s: Option<&str>)
        ensures
            row >= self.rows_view().len() ==> s is None,
            row < self.rows_view().len() ==> s is Some && s->0@ == {
                let r = self.rows_view()[row as int];
                if column == 0 {
                    r.0
                } else if column - 1 < r.1.len() {
                    r.1[column - 1]
                } else {
                    Seq::<char>::empty()
                }
            },
    {
        if row >= self.rows.len() {
            return None;
        }
        if column == 0 {
            Some(self.rows[row].name())
        } else {
            Some(self.rows[row].count(column - 1))
        }
    }

    /// Remembers the row the context menu was opened on.
    pub fn set_context_row(&mut self, row: usize)
        ensures
            final(self).context_view() == Some(row),
            final(self).names() == old(self).names(),
            final(self).rows_view() == old(self).rows_view(),
    {
        self.context_row = Some(row);
    }

    /// The name of the row the context menu was opened on, if any.
    pub fn context_name(&self) -> (n: Option<String>)
        ensures
            match self.context_view() {
                Some(i) => if i < self.names().len() {
                    n is Some && n->0@ == self.names()[i as int]
                } else {
                    n is None
                },
                None => n is None,
            },
    {
        match self.context_row {
            Some(index) => {
                if index < self.rows.len() {
                    Some(self.rows[index].name.clone())
                } else {
                    None
                }
            },
            None => None,
        }
    }
}

/// Builds the Artists list row for `artist`: its name, then its album and
/// track counts.
pub fn row_for(artist: &ArtistInfo) -> (r: NameCountRow)
    ensures
        r.name_view() == artist.name@,
        r.counts_view() == seq![
            decimal(artist.album_count as nat),
            decimal(artist.track_count as nat),
        ],
{
    let mut counts: Vec<String> = Vec::new();
    counts.push(decimal_string(artist.album_count as u64));
    counts.push(decimal_string(artist.track_count as u64));
    let r = NameCountRow::new(artist.name.clone(), counts);
    proof {
        assert(r.counts_view() =~= seq![
            decimal(artist.album_count as nat),
            decimal(artist.track_count as nat),
        ]);
    }
    r
}

} // verus!
