//! Borderless: shared keyboard, mouse and clipboard logic, verified.
pub mod assoc;
pub mod clipboard;
pub mod config;
pub mod digest;
pub mod discovery;
pub mod doctor;
pub mod handshake;
pub mod hexcodec;
pub mod hid;
pub mod identity;
pub mod input;
pub mod keymap_macos;
pub mod keymap_windows;
pub mod keymap_x11;
pub mod layout;
pub mod lazy;
pub mod modifier;
pub mod node;
pub mod pal;
pub mod peer_store;
pub mod router;
pub mod sas;
pub mod session;
pub mod snapshot;
pub mod text;
pub mod win32;
pub mod wire;
pub mod x11;
