//! Generation of random AES keys for DMR radios, their hexadecimal rendering,
//! and the state that keeps key material, the clipboard and the on-screen
//! presentation in step.

pub mod config;
pub mod theme;
pub mod security;
pub mod crypto;
pub mod text;
pub mod clipboard;
pub mod messages;
pub mod app;
pub mod laws;
