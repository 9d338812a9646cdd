//! The status bar's progress part, and when the bar's texts are pushed
//! again.

use vstd::prelude::*;

verus! {

/// The progress part: the shell's notice first, then the scan progress, the
/// auto-tag progress and the status message; empty when there is none.
pub open spec fn progress_of(
    notice: Option<Seq<char>>,
    scan: Option<Seq<char>>,
    auto_tag: Option<Seq<char>>,
    message: Option<Seq<char>>,
) -> Seq<char> {
    match notice {
        Some(n) => n,
        None => match scan {
            Some(s) => s,
            None => match auto_tag {
                Some(a) => a,
                None => match message {
                    Some(m) => m,
                    None => Seq::empty(),
                },
            },
        },
    }
}

/// The text of an optional string, by view.
pub open spec fn opt_view(s: Option<&str>) -> Option<Seq<char>> {
    match s {
        Some(t) => Some(t@),
        None => None,
    }
}

/// The progress part of the bar. The shell's one-line notice takes priority
/// over the model's progress lines.
pub fn progress_line(
    notice: Option<&str>,
    scan: Option<&str>,
    auto_tag: Option<&str>,
    message: Option<&str>,
) -> (s: String)
    ensures
        s@ == progress_of(opt_view(notice), opt_view(scan), opt_view(auto_tag), opt_view(message)),
{
    match notice {
        Some(n) => n.to_string(),
        None => match scan {
            Some(t) => t.to_string(),
            None => match auto_tag {
                Some(a) => a.to_string(),
                None => match message {
                    Some(m) => m.to_string(),
                    None => String::new(),
                },
            },
        },
    }
}

/// The status bar's state: the model revision and the progress text it
/// last showed.
pub struct StatusBarView {
    pub applied_revision: u64,
    pub applied_progress: String,
}

impl StatusBarView {
    /// Nothing shown yet: no revision matches.
    pub fn new() -> (s: Self)
        ensures
            s.applied_revision == u64::MAX,
            s.applied_progress@ == Seq::<char>::empty(),
    {
        StatusBarView { applied_revision: u64::MAX, applied_progress: String::new() }
    }

    /// Records the model `revision` and `progress` text, and returns whether
    /// the bar's texts must be pushed: not when both are what it shows.
    pub fn sync(&mut self, revision: u64, progress: String) -> (push: bool)
        ensures
            push == !(revision == old(self).applied_revision && progress@ == old(
                self,
            ).applied_progress@),
            push ==> final(self).applied_revision == revision && final(self).applied_progress@
                == progress@,
            !push ==> final(self).applied_revision == old(self).applied_revision
                && final(self).applied_progress@ == old(self).applied_progress@,
    {
        if revision == self.applied_revision && crate::text::str_eq(
            progress.as_str(),
            self.applied_progress.as_str(),
        ) {
            return false;
        }
        self.applied_revision = revision;
        self.applied_progress = progress;
        true
    }
}

} // verus!
