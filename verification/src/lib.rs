//! Core of a romanization-to-Hangul input method.
//!
//! The library converts romanized keystrokes into Hangul syllable blocks
//! and decides, key by key, how an in-progress composition evolves.
//! Platform glue (COM registration, window handling, file loading) lives
//! outside the library and talks to it through plain values.

pub mod class_factory;
pub mod config;
pub mod dll_module;
pub mod dpi;
pub mod edit_session;
pub mod guid;
pub mod hangul;
pub mod key_handler;
pub mod text_service;
pub mod tray_icon;
pub mod user_dict;
