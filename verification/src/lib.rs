//! Window-decoration state and decision logic for custom Tauri titlebars.
//!
//! The crate holds the verified core: the per-window activation lifecycle,
//! the acknowledgement-token codec, the frontend script framing, the GNOME and
//! GTK button-layout parsers, the Windows snap-overlay state machine and
//! geometry, and the stylesheet protocol routing.

pub mod protocol;
pub mod snap;
pub mod text;
pub mod commands;
pub mod dconf;
pub mod frontend;
pub mod layout;
pub mod lifecycle;
pub mod lifecycle_laws;
pub mod tokens;
pub mod traffic;
