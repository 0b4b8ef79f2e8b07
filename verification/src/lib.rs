//! Holler: push-to-talk dictation and read-aloud.
//!
//! This crate is the application's logic: configuration, key storage, hotkeys,
//! transcript history, providers, overlays, the settings panels and the state
//! machine that ties them together. It performs no I/O. Wherever the
//! application touches the outside world (files, the network, audio devices,
//! windows), a function here says what to do, or takes what was found and says
//! what follows from it.

pub mod app;
pub mod audio;
pub mod clock;
pub mod config;
pub mod diagnostics;
pub mod icons;
pub mod inject;
pub mod overlay;
pub mod permissions;
pub mod ptt;
pub mod secrets;
pub mod speech;
pub mod status_popup;
pub mod store;
pub mod stt;
pub mod text;
pub mod toast;
pub mod tts;
pub mod ui;
