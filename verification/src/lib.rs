//! Display logic of the emusic views: selection and filter models, grouping,
//! ordering, labels and the small state machines behind the visualization.

use vstd::prelude::*;

pub mod appearance;
pub mod artwork;
pub mod catalog;
pub mod column_browser;
pub mod commands;
pub mod folder_tree;
pub mod folders;
pub mod history;
pub mod library;
pub mod library_folders;
pub mod music;
pub mod name_counts;
pub mod preset_browser;
pub mod presets;
pub mod projectm;
pub mod queue;
pub mod selection;
pub mod sort;
pub mod summary;
pub mod swatches;
pub mod status_bar;
pub mod text;
pub mod tile;
pub mod top_bar;
pub mod track_table;

verus! {

} // verus!
