//! The transport bar's items: their ids, the order the band lays them out
//! in, and how a band event maps back onto a transport intent.

use vstd::prelude::*;

verus! {

/// The bar's items, each with a fixed id on the band.
#[derive(Debug, Clone, Copy, PartialEq, Eq, Structural)]
pub enum BarItem {
    Previous,
    PlayPause,
    Stop,
    Next,
    Repeat,
    Shuffle,
    Elapsed,
    Seek,
    Total,
    Volume,
    Visualizer,
    Search,
    /// The clear button shown while the search query is non-empty.
    ClearSearch,
}

/// The band id of `item`: its position in declaration order, from one.
pub open spec fn item_id(item: BarItem) -> u64 {
    match item {
        BarItem::Previous => 1,
        BarItem::PlayPause => 2,
        BarItem::Stop => 3,
        BarItem::Next => 4,
        BarItem::Repeat => 5,
        BarItem::Shuffle => 6,
        BarItem::Elapsed => 7,
        BarItem::Seek => 8,
        BarItem::Total => 9,
        BarItem::Volume => 10,
        BarItem::Visualizer => 11,
        BarItem::Search => 12,
        BarItem::ClearSearch => 13,
    }
}

impl BarItem {
    /// The item's band id.
    pub fn id(self) -> (i: u64)
        ensures
            i == item_id(self),
    {
        match self {
            BarItem::Previous => 1,
            BarItem::PlayPause => 2,
            BarItem::Stop => 3,
            BarItem::Next => 4,
            BarItem::Repeat => 5,
            BarItem::Shuffle => 6,
            BarItem::Elapsed => 7,
            BarItem::Seek => 8,
            BarItem::Total => 9,
            BarItem::Volume => 10,
            BarItem::Visualizer => 11,
            BarItem::Search => 12,
            BarItem::ClearSearch => 13,
        }
    }
}

/// Distinct items have distinct band ids, so an id names one item.
pub proof fn lemma_item_ids_distinct(a: BarItem, b: BarItem)
    ensures
        item_id(a) == item_id(b) <==> a == b,
{
}

/// An event of the band, by the id of the item it came from; a slider's
/// new value travels beside it.
#[derive(Debug, Clone, Copy, PartialEq, Eq, Structural)]
pub enum BarEvent {
    /// A button was clicked.
    Click(u64),
    /// A toggle changed to the given state.
    Toggle(u64, bool),
    /// A slider is being dragged.
    SliderChange(u64),
    /// A slider drag ended.
    SliderCommit(u64),
}

/// A transport intent of the shared bar model. `Seek` and `SetVolume` take
/// the slider's value, which travels beside the event.
#[derive(Debug, Clone, Copy, PartialEq, Eq, Structural)]
pub enum BarIntent {
    Previous,
    PlayPause,
    Stop,
    Next,
    /// Empty the search query.
    ClearSearch,
    ToggleRepeat,
    ToggleShuffle,
    Seek,
    SetVolume,
}

/// The intent of a band event, `None` when its item carries no action.
pub open spec fn intent_of(event: BarEvent) -> Option<BarIntent> {
    match event {
        BarEvent::Click(id) => if id == item_id(BarItem::Previous) {
            Some(BarIntent::Previous)
        } else if id == item_id(BarItem::PlayPause) {
            Some(BarIntent::PlayPause)
        } else if id == item_id(BarItem::Stop) {
            Some(BarIntent::Stop)
        } else if id == item_id(BarItem::Next) {
            Some(BarIntent::Next)
        } else if id == item_id(BarItem::ClearSearch) {
            Some(BarIntent::ClearSearch)
        } else {
            None
        },
        BarEvent::Toggle(id, _) => if id == item_id(BarItem::Repeat) {
            Some(BarIntent::ToggleRepeat)
        } else if id == item_id(BarItem::Shuffle) {
            Some(BarIntent::ToggleShuffle)
        } else {
            None
        },
        BarEvent::SliderChange(id) => if id == item_id(BarItem::Seek) {
            Some(BarIntent::Seek)
        } else if id == item_id(BarItem::Volume) {
            Some(BarIntent::SetVolume)
        } else {
            None
        },
        BarEvent::SliderCommit(_) => None,
    }
}

/// Maps a band event onto the shared model's intent, or `None` when the item
/// carries no action. A slider commit repeats the last change, so it maps to
/// nothing.
pub fn to_message(event: BarEvent) -> (m: Option<BarIntent>)
    ensures
        m == intent_of(event),
{
    match event {
        BarEvent::Click(clicked) => {
            if clicked == BarItem::Previous.id() {
                Some(BarIntent::Previous)
            } else if clicked == BarItem::PlayPause.id() {
                Some(BarIntent::PlayPause)
            } else if clicked == BarItem::Stop.id() {
                Some(BarIntent::Stop)
            } else if clicked == BarItem::Next.id() {
                Some(BarIntent::Next)
            } else if clicked == BarItem::ClearSearch.id() {
                Some(BarIntent::ClearSearch)
            } else {
                None
            }
        },
        BarEvent::Toggle(toggled, _) => {
            if toggled == BarItem::Repeat.id() {
                Some(BarIntent::ToggleRepeat)
            } else if toggled == BarItem::Shuffle.id() {
                Some(BarIntent::ToggleShuffle)
            } else {
                None
            }
        },
        BarEvent::SliderChange(slider) => {
            if slider == BarItem::Seek.id() {
                Some(BarIntent::Seek)
            } else if slider == BarItem::Volume.id() {
                Some(BarIntent::SetVolume)
            } else {
                None
            }
        },
        BarEvent::SliderCommit(_) => None,
    }
}

/// What the item list depends on beyond the per-frame values; the list is
/// only rebuilt when one of these changes.
#[derive(Debug, Clone, Copy, PartialEq, Eq, Structural)]
pub struct BarSignature {
    pub playing: bool,
    pub repeat: bool,
    pub shuffle: bool,
    pub seek_supported: bool,
    pub has_duration: bool,
    pub visualizer: bool,
}

/// Whether the item list must be rebuilt: when no list was built yet or its
/// signature changed.
pub fn needs_items(previous: Option<BarSignature>, current: BarSignature) -> (r: bool)
    ensures
        r == (previous != Some(current)),
{
    match previous {
        Some(p) => p != current,
        None => true,
    }
}

/// One slot of the band, in layout order.
#[derive(Debug, Clone, Copy, PartialEq, Eq, Structural)]
pub enum BarSlot {
    /// An icon button.
    Button(BarItem),
    /// A checkable icon button and its state.
    Toggle(BarItem, bool),
    /// A text label.
    Label(BarItem),
    /// A slider and whether it takes input.
    Slider(BarItem, bool),
    /// A slot holding an app-owned control.
    Native(BarItem),
    /// Flexible space between groups.
    Spacer,
}

/// The band's layout for `sig`: the transport buttons, the repeat and
/// shuffle toggles, the elapsed label, the seek slider, the total label, the
/// volume slider, the visualizer strip when shown, the search box and its
/// clear button.
pub open spec fn layout_of(sig: BarSignature) -> Seq<BarSlot> {
    let head = seq![
        BarSlot::Button(BarItem::Previous),
        BarSlot::Button(BarItem::PlayPause),
        BarSlot::Button(BarItem::Stop),
        BarSlot::Button(BarItem::Next),
        BarSlot::Spacer,
        BarSlot::Toggle(BarItem::Repeat, sig.repeat),
        BarSlot::Spacer,
        BarSlot::Toggle(BarItem::Shuffle, sig.shuffle),
        BarSlot::Spacer,
        BarSlot::Label(BarItem::Elapsed),
        BarSlot::Slider(BarItem::Seek, sig.seek_supported),
        BarSlot::Label(BarItem::Total),
        BarSlot::Spacer,
        BarSlot::Slider(BarItem::Volume, true),
        BarSlot::Spacer,
    ];
    let viz = if sig.visualizer {
        seq![BarSlot::Native(BarItem::Visualizer), BarSlot::Spacer]
    } else {
        Seq::empty()
    };
    head + viz + seq![BarSlot::Native(BarItem::Search), BarSlot::Button(BarItem::ClearSearch)]
}

/// Builds the item list for the current structural state. The clear button
/// is always present, so its appearing never shifts the layout.
pub fn items(sig: &BarSignature) -> (v: Vec<BarSlot>)
    ensures
        v@ == layout_of(*sig),
{
    let mut v: Vec<BarSlot> = vec![
        BarSlot::Button(BarItem::Previous),
        BarSlot::Button(BarItem::PlayPause),
        BarSlot::Button(BarItem::Stop),
        BarSlot::Button(BarItem::Next),
        BarSlot::Spacer,
        BarSlot::Toggle(BarItem::Repeat, sig.repeat),
        BarSlot::Spacer,
        BarSlot::Toggle(BarItem::Shuffle, sig.shuffle),
        BarSlot::Spacer,
        BarSlot::Label(BarItem::Elapsed),
        BarSlot::Slider(BarItem::Seek, sig.seek_supported),
        BarSlot::Label(BarItem::Total),
        BarSlot::Spacer,
        BarSlot::Slider(BarItem::Volume, true),
        BarSlot::Spacer,
    ];
    if sig.visualizer {
        v.push(BarSlot::Native(BarItem::Visualizer));
        v.push(BarSlot::Spacer);
    }
    v.push(BarSlot::Native(BarItem::Search));
    v.push(BarSlot::Button(BarItem::ClearSearch));
    proof {
        assert(v@ =~= layout_of(*sig));
    }
    v
}

/// The play/pause button's tooltip: what a click does.
pub fn play_tooltip(playing: bool) -> (s: &'static str)
    ensures
        s@ == (if playing { "Pause"@ } else { "Play"@ }),
{
    if playing {
        "Pause"
    } else {
        "Play"
    }
}

/// The seek slider's tooltip: why it is disabled, when it is.
pub fn seek_tooltip(seek_supported: bool) -> (s: &'static str)
    ensures
        s@ == (if seek_supported { "Seek"@ } else { "Seeking isn't available for this track"@ }),
{
    if seek_supported {
        "Seek"
    } else {
        "Seeking isn't available for this track"
    }
}

/// The layout shows the signature: the repeat and shuffle toggles carry
/// their states wherever they appear, the seek slider takes input exactly
/// when seeking is supported, the visualizer strip appears exactly when it
/// is on, and the search box with its clear button always ends the band.
pub proof fn lemma_layout_shows_signature(sig: BarSignature)
    ensures
        ({
            let l = layout_of(sig);
            &&& l.len() == if sig.visualizer { 19int } else { 17int }
            &&& forall|i: int|
                0 <= i < l.len() ==> (#[trigger] l[i] matches BarSlot::Toggle(BarItem::Repeat, b) ==> b
                    == sig.repeat)
            &&& forall|i: int|
                0 <= i < l.len() ==> (#[trigger] l[i] matches BarSlot::Toggle(BarItem::Shuffle, b) ==> b
                    == sig.shuffle)
            &&& forall|i: int|
                0 <= i < l.len() ==> (#[trigger] l[i] matches BarSlot::Slider(BarItem::Seek, b) ==> b
                    == sig.seek_supported)
            &&& l.contains(BarSlot::Toggle(BarItem::Repeat, sig.repeat))
            &&& l.contains(BarSlot::Toggle(BarItem::Shuffle, sig.shuffle))
            &&& l.contains(BarSlot::Slider(BarItem::Seek, sig.seek_supported))
            &&& l.contains(BarSlot::Native(BarItem::Visualizer)) == sig.visualizer
            &&& l[l.len() - 2] == BarSlot::Native(BarItem::Search)
            &&& l[l.len() - 1] == BarSlot::Button(BarItem::ClearSearch)
        }),
{
    let l = layout_of(sig);
    let base = seq![
        BarSlot::Button(BarItem::Previous),
        BarSlot::Button(BarItem::PlayPause),
        BarSlot::Button(BarItem::Stop),
        BarSlot::Button(BarItem::Next),
        BarSlot::Spacer,
        BarSlot::Toggle(BarItem::Repeat, sig.repeat),
        BarSlot::Spacer,
        BarSlot::Toggle(BarItem::Shuffle, sig.shuffle),
        BarSlot::Spacer,
        BarSlot::Label(BarItem::Elapsed),
        BarSlot::Slider(BarItem::Seek, sig.seek_supported),
        BarSlot::Label(BarItem::Total),
        BarSlot::Spacer,
        BarSlot::Slider(BarItem::Volume, true),
        BarSlot::Spacer,
    ];
    let tail = seq![BarSlot::Native(BarItem::Search), BarSlot::Button(BarItem::ClearSearch)];
    if sig.visualizer {
        assert(l =~= base + seq![BarSlot::Native(BarItem::Visualizer), BarSlot::Spacer] + tail);
        assert(l[15] == BarSlot::Native(BarItem::Visualizer));
    } else {
        assert(l =~= base + tail);
        assert forall|i: int| 0 <= i < l.len() implies l[i] != BarSlot::Native(BarItem::Visualizer) by {
            if i < 15 {
                assert(l[i] == base[i]);
            } else {
                assert(l[i] == tail[i - 15]);
            }
        }
    }
    assert(l[5] == BarSlot::Toggle(BarItem::Repeat, sig.repeat));
    assert(l[7] == BarSlot::Toggle(BarItem::Shuffle, sig.shuffle));
    assert(l[10] == BarSlot::Slider(BarItem::Seek, sig.seek_supported));
}

} // verus!
