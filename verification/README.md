# emusic_views

The display logic of the emusic player's views, verified with Verus: the
column browser's selections and facet lists, the folder filter and folder
tree, the album grid's ordering, the history list, the track table, the
settings pages' decisions, and the projectM visualization surface as a
state machine (frame pacing, audio feed, stop grace period, hover overlay,
engine status).

- `src/` is the verified library. Every public function states what it
  returns or changes; the laws that relate several calls are public proof
  functions next to the functions they speak of.
- `tests/` runs the library on concrete values.
- `app/` is the window-side glue the library leaves out: clocks, the preset
  folders on disk and their background scan, and the conversions that need
  floating point.

Where the views kept sets and maps of strings, the library keeps vectors
with an invariant instead: a pane's selection is a vector without repeats,
the album index a vector of entries with distinct keys, and a folder is
found by its path with a search over the tree's nodes. vstd specifies
`BTreeSet` and `HashMap` only for keys whose ordering or hashing it can
trust, which it does not for `String`, so those collections would leave the
contracts with nothing to state.
