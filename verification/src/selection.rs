//! Selection model for a single column-browser pane.
//!
//! Each pane's selection is a set of values; the empty set means the
//! "All (N)" row is active. The values are kept as a vector without repeats,
//! viewed as a set of strings.

use vstd::prelude::*;

use crate::text::str_eq;

verus! {

/// Whether no value occurs twice in `s`.
pub open spec fn no_repeats(s: Seq<String>) -> bool {
    forall|i: int, j: int| 0 <= i < j < s.len() ==> s[i]@ != s[j]@
}

/// The strings of `s`, as a set of character sequences.
pub open spec fn string_set(s: Seq<String>) -> Set<Seq<char>> {
    Set::new(|v: Seq<char>| exists|i: int| 0 <= i < s.len() && s[i]@ == v)
}

/// Multi-select state for one pane (Genre, Artist or Album).
#[derive(Debug)]
pub struct PaneSelection {
    selected: Vec<String>,
}

impl View for PaneSelection {
    type V = Set<Seq<char>>;

    closed spec fn view(&self) -> Set<Seq<char>> {
        string_set(self.selected@)
    }
}

/// Where `value` sits in `s`, if it is there.
fn position_of(s: &Vec<String>, value: &str) -> (r: Option<usize>)
    ensures
        match r {
            Some(i) => i < s@.len() && s@[i as int]@ == value@,
            None => !string_set(s@).contains(value@),
        },
{
    let mut i: usize = 0;
    while i < s.len()
        invariant
            i <= s@.len(),
            forall|k: int| 0 <= k < i ==> s@[k]@ != value@,
        decreases s@.len() - i,
    {
        if str_eq(s[i].as_str(), value) {
            return Some(i);
        }
        i = i + 1;
    }
    None
}

impl PaneSelection {
    #[verifier::type_invariant]
    closed spec fn well_formed(self) -> bool {
        no_repeats(self.selected@)
    }

    /// The number of selected values as a set.
    proof fn lemma_len(&self)
        requires
            no_repeats(self.selected@),
        ensures
            self@.finite(),
            self@.len() == self.selected@.len(),
        decreases self.selected@.len(),
    {
        lemma_distinct_len(self.selected@);
    }

    /// An empty selection: the "All" row.
    pub fn new() -> (s: Self)
        ensures
            s@ == Set::<Seq<char>>::empty(),
    {
        let s = PaneSelection { selected: Vec::new() };
        assert(s@ =~= Set::<Seq<char>>::empty());
        s
    }

    /// True when the "All (N)" row is active, i.e. nothing is filtered.
    pub fn is_all(&self) -> (r: bool)
        ensures
            r == (self@ == Set::<Seq<char>>::empty()),
    {
        proof {
            use_type_invariant(self);
            if self.selected@.len() > 0 {
                assert(self@.contains(self.selected@[0]@));
            } else {
                assert(self@ =~= Set::<Seq<char>>::empty());
            }
        }
        self.selected.len() == 0
    }

    /// Whether `value` is one of the selected values.
    pub fn contains(&self, value: &str) -> (r: bool)
        ensures
            r == self@.contains(value@),
    {
        position_of(&self.selected, value).is_some()
    }

    /// Whether a facet `value` passes this pane's filter: everything passes
    /// "All", otherwise only a selected value.
    pub fn matches(&self, value: &str) -> (r: bool)
        ensures
            r == (self@ == Set::<Seq<char>>::empty() || self@.contains(value@)),
    {
        self.is_all() || self.contains(value)
    }

    /// The number of selected values.
    pub fn len(&self) -> (n: usize)
        ensures
            self@.finite(),
            n == self@.len(),
    {
        proof {
            use_type_invariant(self);
            self.lemma_len();
        }
        self.selected.len()
    }

    /// Whether both selections hold the same values.
    pub fn same_as(&self, other: &PaneSelection) -> (r: bool)
        ensures
            r == (self@ == other@),
    {
        proof {
            use_type_invariant(self);
            use_type_invariant(other);
            self.lemma_len();
            other.lemma_len();
        }
        if self.selected.len() != other.selected.len() {
            return false;
        }
        let mut i: usize = 0;
        while i < self.selected.len()
            invariant
                i <= self.selected@.len(),
                forall|k: int| 0 <= k < i ==> other@.contains(#[trigger] self.selected@[k]@),
            decreases self.selected@.len() - i,
        {
            if !other.contains(self.selected[i].as_str()) {
                proof {
                    assert(self@.contains(self.selected@[i as int]@));
                }
                return false;
            }
            i = i + 1;
        }
        proof {
            assert forall|v: Seq<char>| self@.contains(v) implies other@.contains(v) by {
                let k = choose|k: int| 0 <= k < self.selected@.len() && self.selected@[k]@ == v;
                assert(other@.contains(self.selected@[k]@));
            }
            vstd::set_lib::lemma_subset_equality(self@, other@);
        }
        true
    }

    /// Applies a click on `value`; `None` is the "All" row, which clears the
    /// selection. Without `ctrl` the click replaces the selection; with
    /// `ctrl` it toggles the value.
    pub fn click(&mut self, value: Option<&str>, ctrl: bool)
        ensures
            final(self)@ == click_result(
                old(self)@,
                match value {
                    Some(v) => Some(v@),
                    None => None,
                },
                ctrl,
            ),
    {
        proof {
            use_type_invariant(&*self);
        }
        match value {
            None => {
                self.selected = Vec::new();
                assert(self@ =~= Set::<Seq<char>>::empty());
            },
            Some(value) => {
                if ctrl {
                    match position_of(&self.selected, value) {
                        Some(i) => {
                            let ghost before = self.selected@;
                            let mut rest = clone_strings(&self.selected);
                            rest.remove(i);
                            assert forall|v: Seq<char>| string_set(rest@).contains(v)
                                == string_set(before).remove(value@).contains(v) by {
                                if string_set(rest@).contains(v) {
                                    let k = choose|k: int| 0 <= k < rest@.len() && rest@[k]@ == v;
                                    if k < i {
                                        assert(before[k]@ == v);
                                    } else {
                                        assert(before[k + 1]@ == v);
                                    }
                                }
                                if string_set(before).remove(value@).contains(v) {
                                    let k = choose|k: int| 0 <= k < before.len() && before[k]@ == v;
                                    if k < i {
                                        assert(rest@[k]@ == v);
                                    } else {
                                        assert(k != i);
                                        assert(rest@[k - 1]@ == v);
                                    }
                                }
                            }
                            assert(string_set(rest@) =~= string_set(before).remove(value@));
                            self.selected = rest;
                        },
                        None => {
                            let ghost before = self.selected@;
                            let mut more = clone_strings(&self.selected);
                            more.push(value.to_string());
                            assert forall|v: Seq<char>| string_set(more@).contains(v)
                                == string_set(before).insert(value@).contains(v) by {
                                if string_set(more@).contains(v) {
                                    let k = choose|k: int| 0 <= k < more@.len() && more@[k]@ == v;
                                    if k < before.len() {
                                        assert(before[k]@ == v);
                                    }
                                }
                                if string_set(before).contains(v) {
                                    let k = choose|k: int| 0 <= k < before.len() && before[k]@ == v;
                                    assert(more@[k]@ == v);
                                }
                                if v == value@ {
                                    assert(more@[before.len() as int]@ == v);
                                }
                            }
                            assert(string_set(more@) =~= string_set(before).insert(value@));
                            self.selected = more;
                        },
                    }
                } else {
                    let mut one: Vec<String> = Vec::new();
                    one.push(value.to_string());
                    assert forall|v: Seq<char>| string_set(one@).contains(v)
                        == Set::<Seq<char>>::empty().insert(value@).contains(v) by {
                        if v == value@ {
                            assert(one@[0]@ == v);
                        }
                    }
                    assert(string_set(one@) =~= Set::<Seq<char>>::empty().insert(value@));
                    self.selected = one;
                }
            },
        }
    }

    /// Drops selected values no longer offered after a parent selection
    /// changed, so a pane can't keep filtering on a facet that is hidden.
    pub fn retain(&mut self, available: &Vec<String>)
        ensures
            final(self)@ == old(self)@.intersect(string_set(available@)),
    {
        proof {
            use_type_invariant(&*self);
        }
        let ghost before = self.selected@;
        let mut kept: Vec<String> = Vec::new();
        let mut i: usize = 0;
        while i < self.selected.len()
            invariant
                i <= before.len(),
                self.selected@ == before,
                no_repeats(before),
                no_repeats(kept@),
                forall|v: Seq<char>| string_set(kept@).contains(v)
                    <==> (string_set(before.take(i as int)).contains(v)
                        && string_set(available@).contains(v)),
            decreases before.len() - i,
        {
            let keep = position_of(available, self.selected[i].as_str()).is_some();
            let ghost old_kept = kept@;
            if keep {
                kept.push(self.selected[i].clone());
            }
            let ghost pre = before.take(i as int);
            let ghost next = before.take(i + 1);
            assert(next =~= pre.push(before[i as int]));
            assert forall|v: Seq<char>| string_set(kept@).contains(v)
                <==> (string_set(next).contains(v) && string_set(available@).contains(v)) by {
                if string_set(next).contains(v) {
                    let k = choose|k: int| 0 <= k < next.len() && next[k]@ == v;
                    if k < i {
                        assert(pre[k]@ == v);
                    }
                }
                if string_set(pre).contains(v) {
                    let k = choose|k: int| 0 <= k < pre.len() && pre[k]@ == v;
                    assert(next[k]@ == v);
                }
                if string_set(kept@).contains(v) {
                    let k = choose|k: int| 0 <= k < kept@.len() && kept@[k]@ == v;
                    if k < old_kept.len() {
                        assert(old_kept[k]@ == v);
                    } else {
                        assert(next[i as int]@ == v);
                    }
                }
                if string_set(old_kept).contains(v) {
                    let k = choose|k: int| 0 <= k < old_kept.len() && old_kept[k]@ == v;
                    assert(kept@[k]@ == v);
                }
                if keep && v == before[i as int]@ {
                    assert(kept@[old_kept.len() as int]@ == v);
                    assert(next[i as int]@ == v);
                }
            }
            if keep {
                assert forall|a: int, b: int| 0 <= a < b < kept@.len() implies kept@[a]@
                    != kept@[b]@ by {
                    if b == old_kept.len() {
                        assert(string_set(old_kept).contains(old_kept[a]@));
                        assert(string_set(pre).contains(old_kept[a]@));
                        let k = choose|k: int| 0 <= k < pre.len() && pre[k]@ == old_kept[a]@;
                        assert(before[k]@ != before[i as int]@);
                    }
                }
            }
            i = i + 1;
        }
        proof {
            assert(before.take(before.len() as int) =~= before);
            assert(string_set(kept@) =~= string_set(before).intersect(string_set(available@)));
        }
        self.selected = kept;
    }
}

/// A vector without repeats has as many strings as its set view.
proof fn lemma_distinct_len(s: Seq<String>)
    requires
        no_repeats(s),
    ensures
        string_set(s).finite(),
        string_set(s).len() == s.len(),
    decreases s.len(),
{
    if s.len() == 0 {
        assert(string_set(s) =~= Set::<Seq<char>>::empty());
    } else {
        let init = s.drop_last();
        lemma_distinct_len(init);
        assert forall|v: Seq<char>| string_set(s).contains(v)
            == string_set(init).insert(s.last()@).contains(v) by {
            if string_set(s).contains(v) {
                let k = choose|k: int| 0 <= k < s.len() && s[k]@ == v;
                if k < s.len() - 1 {
                    assert(init[k]@ == v);
                }
            }
            if string_set(init).contains(v) {
                let k = choose|k: int| 0 <= k < init.len() && init[k]@ == v;
                assert(s[k]@ == v);
            }
            if v == s.last()@ {
                assert(s[s.len() - 1]@ == v);
            }
        }
        assert(string_set(s) =~= string_set(init).insert(s.last()@));
        if string_set(init).contains(s.last()@) {
            let k = choose|k: int| 0 <= k < init.len() && init[k]@ == s.last()@;
            assert(s[k]@ == s[s.len() - 1]@);
        }
    }
}

/// The selection a click leaves: "All" clears, a plain click selects just
/// the value, a ctrl-click toggles it.
pub open spec fn click_result(before: Set<Seq<char>>, value: Option<Seq<char>>, ctrl: bool) -> Set<
    Seq<char>,
> {
    match value {
        None => Set::empty(),
        Some(v) => if !ctrl {
            Set::empty().insert(v)
        } else if before.contains(v) {
            before.remove(v)
        } else {
            before.insert(v)
        },
    }
}

/// A copy of `v` holding the same strings.
pub(crate) fn clone_strings(v: &Vec<String>) -> (r: Vec<String>)
    ensures
        r@.len() == v@.len(),
        forall|i: int| 0 <= i < v@.len() ==> #[trigger] r@[i]@ == v@[i]@,
{
    let mut r: Vec<String> = Vec::new();
    let mut i: usize = 0;
    while i < v.len()
        invariant
            i <= v@.len(),
            r@.len() == i,
            forall|k: int| 0 <= k < i ==> #[trigger] r@[k]@ == v@[k]@,
        decreases v@.len() - i,
    {
        r.push(v[i].clone());
        i = i + 1;
    }
    r
}

impl Clone for PaneSelection {
    fn clone(&self) -> (r: Self)
        ensures
            r@ == self@,
    {
        proof {
            use_type_invariant(self);
        }
        let selected = clone_strings(&self.selected);
        let r = PaneSelection { selected };
        assert(r@ =~= self@) by {
            assert forall|v: Seq<char>| r@.contains(v) == self@.contains(v) by {
                if r@.contains(v) {
                    let k = choose|k: int| 0 <= k < r.selected@.len() && r.selected@[k]@ == v;
                    assert(self.selected@[k]@ == v);
                }
                if self@.contains(v) {
                    let k = choose|k: int| 0 <= k < self.selected@.len() && self.selected@[k]@
                        == v;
                    assert(r.selected@[k]@ == v);
                }
            }
        }
        r
    }
}

impl Default for PaneSelection {
    fn default() -> (s: Self)
        ensures
            s@ == Set::<Seq<char>>::empty(),
    {
        PaneSelection::new()
    }
}

/// Ctrl-clicking the same value twice leaves the selection as it was.
pub proof fn lemma_ctrl_click_twice(before: Set<Seq<char>>, v: Seq<char>)
    ensures
        click_result(click_result(before, Some(v), true), Some(v), true) == before,
{
    if before.contains(v) {
        assert(before.remove(v).insert(v) =~= before);
    } else {
        assert(before.insert(v).remove(v) =~= before);
    }
}

/// A plain click selects exactly the clicked value, whatever was selected;
/// clicking "All" selects nothing, so every value passes.
pub proof fn lemma_plain_click_selects_one(before: Set<Seq<char>>, v: Seq<char>, w: Seq<char>)
    ensures
        click_result(before, Some(v), false).contains(w) <==> w == v,
        click_result(before, None, false) == Set::<Seq<char>>::empty(),
        click_result(before, None, true) == Set::<Seq<char>>::empty(),
{
}

/// After a retain, the selection holds only values that were selected and
/// are still available.
pub proof fn lemma_retain_narrows(before: Set<Seq<char>>, available: Seq<String>, w: Seq<char>)
    ensures
        before.intersect(string_set(available)).contains(w) ==> before.contains(w)
            && string_set(available).contains(w),
{
}

} // verus!
