//! Core logic of a window-focus notifier for QMK keyboards: it tracks
//! which window has input focus, coalesces bursts of focus changes, and
//! hands a compact payload to a delivery sink.

pub mod config;
pub mod debounce;
pub mod hyprland;
pub mod linux;
pub mod macos;
pub mod notifier;
pub mod platforms;
pub mod runners;
pub mod strutil;
pub mod types;
pub mod windows;
pub mod x11;
