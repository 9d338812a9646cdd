//! The visualization presets: the known preset packs and their status
//! line, which pack folders and user folder a scan walks, which files are
//! presets, and the user's preset folder as typed.

use vstd::prelude::*;

use crate::text::{chars_of, decimal, decimal_string, str_eq, string_of};

verus! {

/// The preset-pack folders the Visualization settings page lists, in
/// display order. `milkdrop-texture-pack` holds textures, not presets, so it
/// is not one of them.
pub fn known_packs() -> (p: [&'static str; 4])
    ensures
        p[0]@ == "milkdrop-original"@,
        p[1]@ == "cream-of-the-crop"@,
        p[2]@ == "en-d"@,
        p[3]@ == "projectm-classic"@,
{
    ["milkdrop-original", "cream-of-the-crop", "en-d", "projectm-classic"]
}

/// A pack's status line: installed with its preset count, still being
/// counted, or not installed.
pub open spec fn pack_status_text(installed: bool, count: Option<usize>) -> Seq<char> {
    if !installed {
        "not installed"@
    } else {
        match count {
            Some(n) => decimal(n as nat) + " presets"@,
            None => "counting..."@,
        }
    }
}

/// A pack's status line: installed with a preset count, or not installed.
pub fn pack_status(installed: bool, count: Option<usize>) -> (s: String)
    ensures
        s@ == pack_status_text(installed, count),
{
    if !installed {
        "not installed".to_string()
    } else {
        match count {
            Some(n) => {
                let mut s = decimal_string(n as u64);
                s.append(" presets");
                s
            },
            None => "counting...".to_string(),
        }
    }
}

/// `c` with an ASCII capital letter turned into its small letter.
pub open spec fn ascii_lower(c: char) -> char {
    if 'A' <= c && c <= 'Z' {
        ((c as u32) + 32) as char
    } else {
        c
    }
}

/// Whether `a` and `b` are equal when ASCII letters are compared without
/// case.
pub open spec fn eq_ignore_ascii_case(a: Seq<char>, b: Seq<char>) -> bool {
    a.len() == b.len() && forall|i: int| 0 <= i < a.len() ==> ascii_lower(a[i]) == ascii_lower(b[i])
}

/// Whether a file with extension `ext` is a MilkDrop preset: the extension
/// is `milk` in any ASCII case.
pub fn is_preset_extension(ext: Option<&str>) -> (r: bool)
    ensures
        r == match ext {
            Some(e) => eq_ignore_ascii_case(e@, "milk"@),
            None => false,
        },
{
    proof {
        reveal_strlit("milk");
    }
    let e = match ext {
        Some(e) => e,
        None => return false,
    };
    let c = chars_of(e);
    if c.len() != 4 {
        return false;
    }
    let r = (c[0] == 'm' || c[0] == 'M') && (c[1] == 'i' || c[1] == 'I') && (c[2] == 'l' || c[2]
        == 'L') && (c[3] == 'k' || c[3] == 'K');
    proof {
        assert(ascii_lower('M') == 'm');
        assert(ascii_lower('I') == 'i');
        assert(ascii_lower('L') == 'l');
        assert(ascii_lower('K') == 'k');
        if r {
            assert forall|i: int| 0 <= i < 4 implies ascii_lower(e@[i]) == ascii_lower("milk"@[i]) by {
            }
        } else {
            if eq_ignore_ascii_case(e@, "milk"@) {
                let k: int = if !(c[0] == 'm' || c[0] == 'M') {
                    0
                } else if !(c[1] == 'i' || c[1] == 'I') {
                    1
                } else if !(c[2] == 'l' || c[2] == 'L') {
                    2
                } else {
                    3
                };
                assert(ascii_lower(e@[k]) == ascii_lower("milk"@[k]));
                assert(false);
            }
        }
    }
    r
}

/// The character views of `s`, in order.
pub open spec fn views(s: Seq<String>) -> Seq<Seq<char>> {
    s.map_values(|x: String| x@)
}

/// `v` without the occurrences of `p`, the rest in order.
pub open spec fn without(v: Seq<Seq<char>>, p: Seq<char>) -> Seq<Seq<char>>
    decreases v.len(),
{
    if v.len() == 0 {
        Seq::empty()
    } else {
        let rest = without(v.drop_last(), p);
        if v.last() == p {
            rest
        } else {
            rest.push(v.last())
        }
    }
}

/// The disabled-pack list after switching `pack` on or off: every entry of
/// `pack` removed, then `pack` appended when it is switched off.
pub open spec fn toggled(disabled: Seq<Seq<char>>, pack: Seq<char>, on: bool) -> Seq<Seq<char>> {
    if on {
        without(disabled, pack)
    } else {
        without(disabled, pack).push(pack)
    }
}

/// Whether the pack `name` is enabled: it is not in the disabled list.
pub fn pack_enabled(disabled: &Vec<String>, name: &str) -> (r: bool)
    ensures
        r == !views(disabled@).contains(name@),
{
    let mut i: usize = 0;
    while i < disabled.len()
        invariant
            i <= disabled@.len(),
            forall|k: int| 0 <= k < i ==> #[trigger] disabled@[k]@ != name@,
        decreases disabled@.len() - i,
    {
        if str_eq(disabled[i].as_str(), name) {
            proof {
                assert(views(disabled@)[i as int] == name@);
            }
            return false;
        }
        i = i + 1;
    }
    proof {
        if views(disabled@).contains(name@) {
            let k = choose|k: int| 0 <= k < views(disabled@).len() && views(disabled@)[k] == name@;
            assert(disabled@[k]@ == name@);
        }
    }
    true
}

/// Switches the pack `pack` on or off in the disabled-pack list.
pub fn set_pack_enabled(disabled: &mut Vec<String>, pack: &str, on: bool)
    ensures
        views(final(disabled)@) == toggled(views(old(disabled)@), pack@, on),
{
    let mut kept: Vec<String> = Vec::new();
    let mut i: usize = 0;
    while i < disabled.len()
        invariant
            i <= disabled@.len(),
            disabled@ == old(disabled)@,
            views(kept@) == without(views(disabled@).take(i as int), pack@),
        decreases disabled@.len() - i,
    {
        proof {
            let t = views(disabled@).take(i + 1);
            assert(t.drop_last() =~= views(disabled@).take(i as int));
            assert(t.last() == disabled@[i as int]@);
        }
        if !str_eq(disabled[i].as_str(), pack) {
            kept.push(disabled[i].clone());
            proof {
                assert(views(kept@) =~= without(views(disabled@).take(i as int), pack@).push(
                    disabled@[i as int]@,
                ));
            }
        }
        i = i + 1;
    }
    proof {
        assert(views(disabled@).take(disabled@.len() as int) =~= views(disabled@));
    }
    if !on {
        kept.push(pack.to_string());
        proof {
            assert(views(kept@) =~= without(views(old(disabled)@), pack@).push(pack@));
        }
    }
    *disabled = kept;
}

/// The set of `without(v, p)` is the set of `v` less `p`.
pub proof fn lemma_without_set(v: Seq<Seq<char>>, p: Seq<char>)
    ensures
        without(v, p).to_set() == v.to_set().remove(p),
    decreases v.len(),
{
    if v.len() == 0 {
        assert(without(v, p).to_set() =~= v.to_set().remove(p));
    } else {
        lemma_without_set(v.drop_last(), p);
        let init = v.drop_last();
        assert forall|x: Seq<char>| v.to_set().contains(x) == (init.to_set().contains(x) || x
            == v.last()) by {
            if v.contains(x) {
                let k = choose|k: int| 0 <= k < v.len() && v[k] == x;
                if k < v.len() - 1 {
                    assert(init[k] == x);
                }
            }
            if init.contains(x) {
                let k = choose|k: int| 0 <= k < init.len() && init[k] == x;
                assert(v[k] == x);
            }
            if x == v.last() {
                assert(v[v.len() - 1] == x);
            }
        }
        let rest = without(init, p);
        assert forall|x: Seq<char>| rest.push(v.last()).to_set().contains(x) == (
        rest.to_set().contains(x) || x == v.last()) by {
            let r2 = rest.push(v.last());
            if r2.contains(x) {
                let k = choose|k: int| 0 <= k < r2.len() && r2[k] == x;
                if k < rest.len() {
                    assert(rest[k] == x);
                }
            }
            if rest.contains(x) {
                let k = choose|k: int| 0 <= k < rest.len() && rest[k] == x;
                assert(r2[k] == x);
            }
            if x == v.last() {
                assert(r2[r2.len() - 1] == x);
            }
        }
        if v.last() == p {
            assert(without(v, p) == rest);
            assert(without(v, p).to_set() =~= v.to_set().remove(p));
        } else {
            assert(without(v, p) == rest.push(v.last()));
            assert forall|x: Seq<char>| #[trigger] without(v, p).to_set().contains(x) == v.to_set().remove(
                p,
            ).contains(x) by {
                assert(rest.push(v.last()).to_set().contains(x) == (rest.to_set().contains(x) || x
                    == v.last()));
                assert(v.to_set().contains(x) == (init.to_set().contains(x) || x == v.last()));
                assert(rest.to_set() == init.to_set().remove(p));
            }
            assert(without(v, p).to_set() =~= v.to_set().remove(p));
        }
    }
}

/// Switching a pack off disables it and switching it on enables it; the
/// other packs keep their state.
pub proof fn lemma_toggle_sets(disabled: Seq<Seq<char>>, pack: Seq<char>, on: bool)
    ensures
        toggled(disabled, pack, on).to_set() == (if on {
            disabled.to_set().remove(pack)
        } else {
            disabled.to_set().remove(pack).insert(pack)
        }),
        toggled(disabled, pack, on).contains(pack) == !on,
{
    lemma_without_set(disabled, pack);
    let w = without(disabled, pack);
    if on {
        assert(!w.to_set().contains(pack));
    } else {
        let t = w.push(pack);
        assert forall|x: Seq<char>| t.to_set().contains(x) == (w.to_set().contains(x) || x == pack) by {
            if t.contains(x) {
                let k = choose|k: int| 0 <= k < t.len() && t[k] == x;
                if k < w.len() {
                    assert(w[k] == x);
                }
            }
            if w.contains(x) {
                let k = choose|k: int| 0 <= k < w.len() && w[k] == x;
                assert(t[k] == x);
            }
            if x == pack {
                assert(t[t.len() - 1] == x);
            }
        }
        assert(t.to_set() =~= disabled.to_set().remove(pack).insert(pack));
        assert(t[t.len() - 1] == pack);
    }
}

/// Switching a pack off and back on leaves the other packs' state as it
/// was, and the pack enabled.
pub proof fn lemma_off_then_on(disabled: Seq<Seq<char>>, pack: Seq<char>)
    ensures
        toggled(toggled(disabled, pack, false), pack, true).to_set() == disabled.to_set().remove(
            pack,
        ),
{
    lemma_toggle_sets(disabled, pack, false);
    lemma_toggle_sets(toggled(disabled, pack, false), pack, true);
    assert(disabled.to_set().remove(pack).insert(pack).remove(pack) =~= disabled.to_set().remove(
        pack,
    ));
}

/// Whether a pack folder named `name` is scanned: one whose name cannot be
/// read is kept, a named one only when its pack is enabled.
pub open spec fn name_kept(name: Option<String>, disabled: Seq<Seq<char>>) -> bool {
    match name {
        Some(n) => !disabled.contains(n@),
        None => true,
    }
}

/// The positions of the kept names among `names`, in order.
pub open spec fn kept_indices(names: Seq<Option<String>>, disabled: Seq<Seq<char>>) -> Seq<usize>
    decreases names.len(),
{
    if names.len() == 0 {
        Seq::empty()
    } else {
        let rest = kept_indices(names.drop_last(), disabled);
        if name_kept(names.last(), disabled) {
            rest.push((names.len() - 1) as usize)
        } else {
            rest
        }
    }
}

/// The folders a preset scan walks: of the pack folders found (`paths`,
/// listed sorted, with their folder names `names` when those are valid
/// text), the enabled ones and those whose name cannot be read, in order;
/// then the user's folder when it is set and exists.
pub fn preset_dirs<P>(paths: Vec<P>, names: &Vec<Option<String>>, disabled: &Vec<String>, user_dir: Option<P>) -> (r: Vec<P>)
    requires
        paths@.len() == names@.len(),
    ensures
        r@ == kept_indices(names@, views(disabled@)).map_values(|i: usize| paths@[i as int])
            + match user_dir {
            Some(u) => seq![u],
            None => Seq::<P>::empty(),
        },
{
    let ghost all = paths@;
    let ghost dv = views(disabled@);
    let mut rest = paths;
    let mut r: Vec<P> = Vec::new();
    let mut i: usize = 0;
    while i < names.len()
        invariant
            i <= names@.len(),
            all.len() == names@.len(),
            dv == views(disabled@),
            rest@ == all.skip(i as int),
            r@ == kept_indices(names@.take(i as int), dv).map_values(|k: usize| all[k as int]),
        decreases names@.len() - i,
    {
        let keep = match &names[i] {
            Some(n) => pack_enabled(disabled, n.as_str()),
            None => true,
        };
        let p = rest.remove(0);
        proof {
            assert(names@.take(i + 1).drop_last() =~= names@.take(i as int));
            assert(names@.take(i + 1).last() == names@[i as int]);
            assert(rest@ =~= all.skip(i + 1));
            assert(p == all[i as int]);
        }
        if keep {
            r.push(p);
        }
        proof {
            assert(r@ =~= kept_indices(names@.take(i + 1), dv).map_values(|k: usize| all[k as int]));
        }
        i = i + 1;
    }
    proof {
        assert(names@.take(names@.len() as int) =~= names@);
    }
    match user_dir {
        Some(u) => {
            r.push(u);
        },
        None => {},
    }
    proof {
        assert(r@ =~= kept_indices(names@, dv).map_values(|i: usize| all[i as int]) + match user_dir {
            Some(u) => seq![u],
            None => Seq::<P>::empty(),
        });
    }
    r
}

/// Whether `c` is white space, as `char::is_whitespace` decides: the
/// characters with the Unicode `White_Space` property.
pub open spec fn white_space(c: char) -> bool {
    ||| ('\u{9}' <= c && c <= '\u{d}')
    ||| c == ' '
    ||| c == '\u{85}'
    ||| c == '\u{a0}'
    ||| c == '\u{1680}'
    ||| ('\u{2000}' <= c && c <= '\u{200a}')
    ||| c == '\u{2028}'
    ||| c == '\u{2029}'
    ||| c == '\u{202f}'
    ||| c == '\u{205f}'
    ||| c == '\u{3000}'
}

/// Whether `c` is white space.
pub fn is_whitespace(c: char) -> (r: bool)
    ensures
        r == white_space(c),
{
    ('\u{9}' <= c && c <= '\u{d}') || c == ' ' || c == '\u{85}' || c == '\u{a0}' || c
        == '\u{1680}' || ('\u{2000}' <= c && c <= '\u{200a}') || c == '\u{2028}' || c
        == '\u{2029}' || c == '\u{202f}' || c == '\u{205f}' || c == '\u{3000}'
}

/// Whether the trim of the given kind strips `c`: white space, or the
/// double quote.
pub open spec fn strips(c: char, quotes: bool) -> bool {
    if quotes {
        c == '"'
    } else {
        white_space(c)
    }
}

/// `s` without its leading stripped characters.
pub open spec fn trim_front(s: Seq<char>, quotes: bool) -> Seq<char>
    decreases s.len(),
{
    if s.len() > 0 && strips(s[0], quotes) {
        trim_front(s.drop_first(), quotes)
    } else {
        s
    }
}

/// `s` without its trailing stripped characters.
pub open spec fn trim_back(s: Seq<char>, quotes: bool) -> Seq<char>
    decreases s.len(),
{
    if s.len() > 0 && strips(s.last(), quotes) {
        trim_back(s.drop_last(), quotes)
    } else {
        s
    }
}

/// `s` with white space trimmed at both ends, then double quotes trimmed at
/// both ends (`str::trim`, then `trim_matches('"')`).
pub open spec fn trimmed_path(s: Seq<char>) -> Seq<char> {
    trim_back(trim_front(trim_back(trim_front(s, false), false), true), true)
}

proof fn lemma_trim_front(s: Seq<char>, quotes: bool, i: int)
    requires
        0 <= i <= s.len(),
        forall|k: int| 0 <= k < i ==> strips(#[trigger] s[k], quotes),
        i == s.len() || !strips(s[i], quotes),
    ensures
        trim_front(s, quotes) == s.subrange(i, s.len() as int),
    decreases i,
{
    if i == 0 {
        assert(s.subrange(0, s.len() as int) =~= s);
    } else {
        let t = s.drop_first();
        assert forall|k: int| 0 <= k < i - 1 implies strips(#[trigger] t[k], quotes) by {
            assert(t[k] == s[k + 1]);
        }
        assert(strips(s[0], quotes));
        lemma_trim_front(t, quotes, i - 1);
        assert(t.subrange(i - 1, t.len() as int) =~= s.subrange(i, s.len() as int));
    }
}

proof fn lemma_trim_back(s: Seq<char>, quotes: bool, j: int)
    requires
        0 <= j <= s.len(),
        forall|k: int| j <= k < s.len() ==> strips(#[trigger] s[k], quotes),
        j == 0 || !strips(s[j - 1], quotes),
    ensures
        trim_back(s, quotes) == s.subrange(0, j),
    decreases s.len() - j,
{
    if j == s.len() {
        assert(s.subrange(0, j) =~= s);
    } else {
        let t = s.drop_last();
        assert forall|k: int| j <= k < t.len() implies strips(#[trigger] t[k], quotes) by {
            assert(t[k] == s[k]);
        }
        assert(strips(s.last(), quotes));
        lemma_trim_back(t, quotes, j);
        assert(t.subrange(0, j) =~= s.subrange(0, j));
    }
}

/// `s` trimmed at both ends by the given kind.
fn trim_both(s: &Vec<char>, quotes: bool) -> (r: Vec<char>)
    ensures
        r@ == trim_back(trim_front(s@, quotes), quotes),
{
    let n = s.len();
    let mut i: usize = 0;
    while i < n
        invariant
            n == s@.len(),
            i <= n,
            forall|k: int| 0 <= k < i ==> strips(#[trigger] s@[k], quotes),
        ensures
            i <= n,
            forall|k: int| 0 <= k < i ==> strips(#[trigger] s@[k], quotes),
            i == n || !strips(s@[i as int], quotes),
        decreases n - i,
    {
        let hit = if quotes {
            s[i] == '"'
        } else {
            is_whitespace(s[i])
        };
        if !hit {
            break;
        }
        i = i + 1;
    }
    proof {
        lemma_trim_front(s@, quotes, i as int);
    }
    let ghost front = s@.subrange(i as int, n as int);
    let mut j: usize = n;
    while j > i
        invariant
            n == s@.len(),
            i <= j <= n,
            front == s@.subrange(i as int, n as int),
            forall|k: int| j <= k < n ==> strips(#[trigger] s@[k], quotes),
        ensures
            i <= j <= n,
            forall|k: int| j <= k < n ==> strips(#[trigger] s@[k], quotes),
            j == i || !strips(s@[j - 1], quotes),
        decreases j - i,
    {
        let hit = if quotes {
            s[j - 1] == '"'
        } else {
            is_whitespace(s[j - 1])
        };
        if !hit {
            break;
        }
        j = j - 1;
    }
    proof {
        assert forall|k: int| j - i <= k < front.len() implies strips(#[trigger] front[k], quotes) by {
            assert(front[k] == s@[k + i]);
        }
        if j > i {
            assert(front[j - i - 1] == s@[j - 1]);
        }
        lemma_trim_back(front, quotes, j - i);
        assert(front.subrange(0, j - i) =~= s@.subrange(i as int, j as int));
    }
    let mut r: Vec<char> = Vec::new();
    let mut k: usize = i;
    while k < j
        invariant
            i <= k <= j,
            j <= s@.len(),
            r@ == s@.subrange(i as int, k as int),
        decreases j - k,
    {
        r.push(s[k]);
        proof {
            assert(s@.subrange(i as int, k + 1) =~= s@.subrange(i as int, k as int).push(s@[k as int]));
        }
        k = k + 1;
    }
    r
}

/// Trims a typed path (white space, then surrounding double quotes) and
/// turns an empty one into `None`.
pub fn parse_path(text: &str) -> (p: Option<String>)
    ensures
        trimmed_path(text@).len() == 0 ==> p is None,
        trimmed_path(text@).len() > 0 ==> p is Some && p->0@ == trimmed_path(text@),
{
    let chars = chars_of(text);
    let spaced = trim_both(&chars, false);
    let bare = trim_both(&spaced, true);
    if bare.len() == 0 {
        None
    } else {
        Some(string_of(&bare))
    }
}

/// Where the visualization finds presets besides the installed layout: the
/// packs switched off, and the user's own folder.
pub struct PresetSources {
    pub disabled_packs: Vec<String>,
    pub user_preset_dir: Option<String>,
}

impl PresetSources {
    /// Switches the pack `pack` on or off; the user folder stays.
    pub fn set_pack(&mut self, pack: &str, on: bool)
        ensures
            views(final(self).disabled_packs@) == toggled(views(old(self).disabled_packs@), pack@, on),
            final(self).user_preset_dir == old(self).user_preset_dir,
    {
        set_pack_enabled(&mut self.disabled_packs, pack, on);
    }

    /// Uses the folder the user typed, trimmed; an empty entry clears it.
    pub fn commit_user_dir(&mut self, text: &str)
        ensures
            views(final(self).disabled_packs@) == views(old(self).disabled_packs@),
            trimmed_path(text@).len() == 0 ==> final(self).user_preset_dir is None,
            trimmed_path(text@).len() > 0 ==> final(self).user_preset_dir is Some
                && final(self).user_preset_dir->0@ == trimmed_path(text@),
    {
        self.user_preset_dir = parse_path(text);
    }

    /// Uses the folder picked in the folder dialog.
    pub fn pick_user_dir(&mut self, path: String)
        ensures
            views(final(self).disabled_packs@) == views(old(self).disabled_packs@),
            final(self).user_preset_dir is Some && final(self).user_preset_dir->0@ == path@,
    {
        self.user_preset_dir = Some(path);
    }

    /// Stops using the user preset folder.
    pub fn clear_user_dir(&mut self)
        ensures
            views(final(self).disabled_packs@) == views(old(self).disabled_packs@),
            final(self).user_preset_dir is None,
    {
        self.user_preset_dir = None;
    }
}

/// The preset count of `pack` in a finished count, if it was counted: the
/// first entry for the pack.
pub fn pack_count(counts: &Vec<(String, usize)>, pack: &str) -> (c: Option<usize>)
    ensures
        match c {
            Some(n) => exists|i: int|
                0 <= i < counts@.len() && #[trigger] counts@[i].0@ == pack@ && counts@[i].1 == n
                    && forall|j: int| 0 <= j < i ==> (#[trigger] counts@[j]).0@ != pack@,
            None => forall|i: int| 0 <= i < counts@.len() ==> (#[trigger] counts@[i]).0@ != pack@,
        },
{
    let mut i: usize = 0;
    while i < counts.len()
        invariant
            i <= counts@.len(),
            forall|j: int| 0 <= j < i ==> (#[trigger] counts@[j]).0@ != pack@,
        decreases counts@.len() - i,
    {
        if str_eq(counts[i].0.as_str(), pack) {
            return Some(counts[i].1);
        }
        i = i + 1;
    }
    None
}

/// The note under the "Get more presets" button: what the helper does when
/// it sits next to the executable, where it was looked for otherwise.
pub fn helper_note(present: bool, exe_dir: &str) -> (s: String)
    ensures
        s@ == (if present {
            "Opens the optional preset downloader (cream-of-the-crop, en-d, projectm-classic)."@
        } else {
            "emusic-presets-setup.exe was not found next to "@ + exe_dir@ + "."@
        }),
{
    if present {
        "Opens the optional preset downloader (cream-of-the-crop, en-d, projectm-classic).".to_string()
    } else {
        let mut s = "emusic-presets-setup.exe was not found next to ".to_string();
        s.append(exe_dir);
        s.append(".");
        s
    }
}

/// A typed path made only of white space trims to nothing, so it reads as
/// no folder.
pub proof fn lemma_blank_path_is_none(s: Seq<char>)
    requires
        forall|i: int| 0 <= i < s.len() ==> white_space(#[trigger] s[i]),
    ensures
        trimmed_path(s).len() == 0,
{
    lemma_blank_front(s);
}

proof fn lemma_blank_front(s: Seq<char>)
    requires
        forall|i: int| 0 <= i < s.len() ==> white_space(#[trigger] s[i]),
    ensures
        trim_front(s, false).len() == 0,
    decreases s.len(),
{
    if s.len() > 0 {
        let t = s.drop_first();
        assert forall|i: int| 0 <= i < t.len() implies white_space(#[trigger] t[i]) by {
            assert(t[i] == s[i + 1]);
        }
        assert(white_space(s[0]));
        lemma_blank_front(t);
    }
}

} // verus!
