//! State and view-selection logic of a chat client's media and settings
//! panels: attachment labels, the media player's pop-out state machine and
//! the settings navigation table.
pub mod file;
pub mod state;
pub mod player;
pub mod settings;
