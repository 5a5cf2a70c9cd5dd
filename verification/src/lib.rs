//! Verified core of the property inspector, the search picker, the
//! notification queue and the timeline grid of a video editor's user
//! interface.
use vstd::prelude::*;

pub mod append;
pub mod control;
pub mod edit;
pub mod elements;
pub mod file_input;
pub mod inspector;
pub mod lookup;
pub mod model;
pub mod numeric;
pub mod path;
pub mod resolve;
pub mod rows;
pub mod scene;
pub mod scene_inputs;
pub mod search;
pub mod selection;
pub mod session;
pub mod state;
pub mod sync;
pub mod text;
pub mod time_grid;
pub mod tree;

verus! {

} // verus!
