//! Verified model of the NeteaseCloudMusicGtk4 main window, its song rows
//! and its toplist view: the state that the widgets show and the decisions
//! that their callbacks take, kept apart from the widgets themselves.

pub mod text;
pub mod model;
pub mod texts;
pub mod window;
pub mod lyrics;
pub mod pages;
pub mod overlay;
pub mod search;
pub mod playlist;
pub mod sidebar;
pub mod songlist_row;
pub mod toplist;
pub mod settings;
pub mod laws;
