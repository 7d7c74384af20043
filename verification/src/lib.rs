//! Window switcher, overview and launcher logic for the Hyprland compositor.
pub mod binds;
pub mod capture;
pub mod capture_state;
pub mod check;
pub mod config;
pub mod config_io;
pub mod convert;
pub mod data;
pub mod dispatch;
pub mod editor;
pub mod explain;
pub mod explain_plain;
pub mod launcher;
pub mod lua;
pub mod migrate;
pub mod overview;
pub mod paths;
pub mod release;
pub mod runs;
pub mod switch;
pub mod sync;
pub mod text;
pub mod tiles;
pub mod toml_doc;
pub mod transfer;
pub mod workarounds;
pub mod workarounds_io;
