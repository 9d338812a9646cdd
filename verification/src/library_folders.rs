//! The library settings page: the music folders it lists, its status line,
//! and the commands its buttons and the folder picker raise.

use vstd::prelude::*;

use crate::commands::Command;
use crate::presets::views;
use crate::text::str_eq;

verus! {

/// The folders the page lists, as last pushed to its list.
pub struct LibraryFolders {
    applied: Vec<String>,
}

impl LibraryFolders {
    /// The folders as listed.
    pub closed spec fn listed(&self) -> Seq<Seq<char>> {
        views(self.applied@)
    }

    /// Nothing listed yet.
    pub fn new() -> (l: Self)
        ensures
            l.listed() == Seq::<Seq<char>>::empty(),
    {
        LibraryFolders { applied: Vec::new() }
    }

    /// Takes the library's current `folders`; returns whether they differ
    /// from those listed, so the list, its status line and its selection
    /// are rebuilt only then.
    pub fn sync(&mut self, folders: &Vec<String>) -> (changed: bool)
        ensures
            changed == (old(self).listed() != views(folders@)),
            final(self).listed() == views(folders@),
    {
        let mut same = self.applied.len() == folders.len();
        proof {
            if !same {
                assert(views(self.applied@).len() != views(folders@).len());
            }
        }
        let mut i: usize = 0;
        if same {
            while i < folders.len()
                invariant_except_break
                    same,
                invariant
                    i <= folders@.len(),
                    self.applied@.len() == folders@.len(),
                    forall|k: int| 0 <= k < i ==> #[trigger] self.applied@[k]@ == folders@[k]@,
                ensures
                    same ==> forall|k: int| 0 <= k < folders@.len() ==> #[trigger] self.applied@[k]@ == folders@[k]@,
                    !same ==> views(self.applied@) != views(folders@),
                    self.applied@.len() == folders@.len(),
                decreases folders@.len() - i,
            {
                if !str_eq(self.applied[i].as_str(), folders[i].as_str()) {
                    proof {
                        assert(views(self.applied@)[i as int] != views(folders@)[i as int]);
                    }
                    same = false;
                    break;
                }
                i = i + 1;
            }
        }
        if same {
            proof {
                assert(views(self.applied@) =~= views(folders@));
            }
            return false;
        }
        self.applied = folders.clone();
        proof {
            assert(views(self.applied@) =~= views(folders@));
        }
        true
    }

    /// The command for a folder picked in the dialog: add it, unless it is
    /// already listed.
    pub fn folder_picked(&self, path: String) -> (c: Option<Command>)
        ensures
            self.listed().contains(path@) ==> c is None,
            !self.listed().contains(path@) ==> (c matches Some(Command::LibraryAddFolder(p)) && p@
                == path@),
    {
        let mut i: usize = 0;
        while i < self.applied.len()
            invariant
                i <= self.applied@.len(),
                forall|k: int| 0 <= k < i ==> #[trigger] self.applied@[k]@ != path@,
            decreases self.applied@.len() - i,
        {
            if str_eq(self.applied[i].as_str(), path.as_str()) {
                proof {
                    assert(self.listed()[i as int] == path@);
                }
                return None;
            }
            i = i + 1;
        }
        proof {
            if self.listed().contains(path@) {
                let k = choose|k: int| 0 <= k < self.listed().len() && self.listed()[k] == path@;
                assert(self.applied@[k]@ == path@);
            }
        }
        Some(Command::LibraryAddFolder(path))
    }

    /// The command of the "Remove" button for the selected list row: remove
    /// that folder; nothing without a selection.
    pub fn remove_selected(&self, selected: Option<usize>) -> (c: Option<Command>)
        ensures
            match selected {
                Some(i) => if i < self.listed().len() {
                    (c matches Some(Command::LibraryRemoveFolder(p)) && p@ == self.listed()[i as int])
                } else {
                    c is None
                },
                None => c is None,
            },
    {
        match selected {
            Some(i) => {
                if i < self.applied.len() {
                    Some(Command::LibraryRemoveFolder(self.applied[i].clone()))
                } else {
                    None
                }
            },
            None => None,
        }
    }
}

/// The page's status line: a prompt while no folder is configured.
pub fn folders_status(no_folders: bool) -> (s: &'static str)
    ensures
        s@ == (if no_folders { "No folders yet. Add one to start scanning."@ } else { ""@ }),
{
    if no_folders {
        "No folders yet. Add one to start scanning."
    } else {
        proof {
            reveal_strlit("");
        }
        ""
    }
}

} // verus!
