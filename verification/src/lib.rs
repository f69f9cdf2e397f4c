//! Input-remapping core: canonical key chords, a hot-reloadable mapping from
//! chords to UI actions, and a virtual press-state overlay for key queries.

pub mod actions;
pub mod context;
pub mod dispatch;
pub mod handler;
pub mod key_map;
pub mod keys;
