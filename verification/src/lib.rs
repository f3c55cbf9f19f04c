//! Remote control of a Niri desktop from a phone: the decisions behind the
//! pairing protocol, the keyboard and mouse mapping, media-player handling
//! and the browser media bridge, each with its contract.

pub mod settings;
pub mod text;
pub mod auth;
pub mod keymap;
pub mod input;
pub mod media;
pub mod error;
pub mod niri;
pub mod ws;
pub mod host;
pub mod audio;
