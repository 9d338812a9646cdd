//! The Folders view's selection and filter: a selected directory, and
//! whether tracks in its subfolders count too.
//!
//! Paths are matched by whole path components, so selecting `C:\music\Lib`
//! never matches tracks under `C:\music\Library`.

use vstd::prelude::*;

use crate::library::TrackInfo;
use crate::text::chars_of;

verus! {

/// A path separator: Windows' backslash or a forward slash.
pub open spec fn is_sep(c: char) -> bool {
    c == '\\' || c == '/'
}

/// The part of `path` below directory `dir`, when `path` lies under it: what
/// follows `dir` and the separator after it.
pub open spec fn below(dir: Seq<char>, path: Seq<char>) -> Option<Seq<char>> {
    if dir.len() <= path.len() && path.take(dir.len() as int) == dir {
        if dir.len() > 0 && is_sep(dir.last()) {
            Some(path.skip(dir.len() as int))
        } else if dir.len() < path.len() && is_sep(path[dir.len() as int]) {
            Some(path.skip(dir.len() as int + 1))
        } else {
            None
        }
    } else {
        None
    }
}

/// Whether `s` holds no path separator.
pub open spec fn no_sep(s: Seq<char>) -> bool {
    forall|i: int| 0 <= i < s.len() ==> !is_sep(#[trigger] s[i])
}

/// Whether a track at `path` passes the folder filter.
pub open spec fn folder_matches(selected: Option<Seq<char>>, include_subfolders: bool, path: Seq<
    char,
>) -> bool {
    match selected {
        None => true,
        Some(dir) => match below(dir, path) {
            None => false,
            Some(rest) => rest.len() > 0 && (include_subfolders || no_sep(rest)),
        },
    }
}

/// The Folders view's filter state.
#[derive(Debug, Clone, Default)]
pub struct FolderTreeState {
    /// The selected directory; `None` shows every track.
    pub selected: Option<String>,
    /// Whether tracks in the selected directory's subfolders match too.
    pub include_subfolders: bool,
}

impl FolderTreeState {
    /// Whether `track` lies in the selected directory (or, with
    /// `include_subfolders`, anywhere below it). Everything matches while no
    /// directory is selected.
    #[verifier::loop_isolation(false)]
    pub fn matches(&self, track: &TrackInfo) -> (r: bool)
        ensures
            r == folder_matches(
                match self.selected {
                    Some(s) => Some(s@),
                    None => None,
                },
                self.include_subfolders,
                track.path@,
            ),
    {
        match &self.selected {
            None => true,
            Some(dir) => {
                let d = chars_of(dir.as_str());
                let p = chars_of(track.path.as_str());
                if d.len() > p.len() {
                    return false;
                }
                let mut i: usize = 0;
                while i < d.len()
                    invariant
                        d@.len() <= p@.len(),
                        i <= d@.len(),
                        p@.take(i as int) == d@.take(i as int),
                    decreases d@.len() - i,
                {
                    if d[i] != p[i] {
                        proof {
                            assert(p@.take(d@.len() as int)[i as int] == p@[i as int]);
                            assert(p@.take(d@.len() as int)[i as int] != d@[i as int]);
                            assert(p@.take(d@.len() as int) != d@);
                        }
                        return false;
                    }
                    proof {
                        assert(p@.take(i + 1) =~= p@.take(i as int).push(p@[i as int]));
                        assert(d@.take(i + 1) =~= d@.take(i as int).push(d@[i as int]));
                    }
                    i = i + 1;
                }
                proof {
                    assert(d@.take(d@.len() as int) =~= d@);
                }
                let start: usize;
                if d.len() > 0 && (d[d.len() - 1] == '\\' || d[d.len() - 1] == '/') {
                    start = d.len();
                } else if d.len() < p.len() && (p[d.len()] == '\\' || p[d.len()] == '/') {
                    start = d.len() + 1;
                } else {
                    return false;
                }
                if start >= p.len() {
                    return false;
                }
                if self.include_subfolders {
                    return true;
                }
                let mut j: usize = start;
                while j < p.len()
                    invariant
                        start <= j <= p@.len(),
                        forall|k: int| start <= k < j ==> !is_sep(#[trigger] p@[k]),
                    decreases p@.len() - j,
                {
                    if p[j] == '\\' || p[j] == '/' {
                        proof {
                            let rest = p@.skip(start as int);
                            assert(rest[(j - start) as int] == p@[j as int]);
                            assert(is_sep(rest[(j - start) as int]));
                            assert(!no_sep(rest));
                        }
                        return false;
                    }
                    j = j + 1;
                }
                proof {
                    assert forall|k: int| 0 <= k < p@.skip(start as int).len() implies !is_sep(
                        #[trigger] p@.skip(start as int)[k],
                    ) by {
                        assert(p@.skip(start as int)[k] == p@[start + k]);
                    }
                }
                true
            },
        }
    }
}

/// Every track that matches without subfolders matches with them too, and
/// nothing outside the selected directory matches either way.
pub proof fn lemma_subfolders_widen(selected: Option<Seq<char>>, path: Seq<char>)
    ensures
        folder_matches(selected, false, path) ==> folder_matches(selected, true, path),
        selected is Some && below(selected->0, path) is None ==> !folder_matches(selected, true, path),
{
}

/// No selection lets every track through.
pub proof fn lemma_no_selection_matches_all(include_subfolders: bool, path: Seq<char>)
    ensures
        folder_matches(None, include_subfolders, path),
{
}

/// With subfolders included, a track matches exactly when its path lies
/// strictly below the selected directory, at any depth: its path starts with
/// the directory, a separator ends the directory there, and something
/// follows. Without them, only when nothing after the directory holds a
/// separator, so the track sits directly in it.
pub proof fn lemma_folder_match_is_containment(dir: Seq<char>, path: Seq<char>)
    ensures
        folder_matches(Some(dir), true, path) <==> (dir.len() < path.len() && path.take(
            dir.len() as int,
        ) == dir && ((dir.len() > 0 && is_sep(dir.last())) || is_sep(path[dir.len() as int]))
            && !(dir.len() + 1 == path.len() && !(dir.len() > 0 && is_sep(dir.last())))),
        folder_matches(Some(dir), false, path) <==> (folder_matches(Some(dir), true, path)
            && forall|i: int| dir.len() <= i < path.len() ==> (#[trigger] is_sep(path[i]) ==> (i
                == dir.len() && !(dir.len() > 0 && is_sep(dir.last()))))),
{
    if dir.len() <= path.len() && path.take(dir.len() as int) == dir {
        if dir.len() > 0 && is_sep(dir.last()) {
            let rest = path.skip(dir.len() as int);
            assert forall|i: int| 0 <= i < rest.len() implies rest[i] == path[dir.len() + i] by {}
            if !no_sep(rest) {
                let i = choose|i: int| 0 <= i < rest.len() && is_sep(#[trigger] rest[i]);
                assert(is_sep(path[dir.len() + i]));
            }
            if no_sep(rest) {
                assert forall|i: int| dir.len() <= i < path.len() implies !#[trigger] is_sep(path[i]) by {
                    assert(path[i] == rest[i - dir.len()]);
                }
            }
        } else if dir.len() < path.len() && is_sep(path[dir.len() as int]) {
            let rest = path.skip(dir.len() as int + 1);
            if !no_sep(rest) {
                let i = choose|i: int| 0 <= i < rest.len() && is_sep(#[trigger] rest[i]);
                assert(path[dir.len() + 1 + i] == rest[i]);
            }
            if no_sep(rest) {
                assert forall|i: int| dir.len() < i < path.len() implies !#[trigger] is_sep(path[i]) by {
                    assert(path[i] == rest[i - dir.len() - 1]);
                }
            }
        }
    }
}

} // verus!
