//! The GUI worker's logic: the tool registry and its events, start-up and settings
//! decisions, global shortcuts, the requests to the helper programs and the reading of
//! their output, metadata, the quick input window, autostart entries and localized
//! texts, and the web view: the pages that events open, the scripts that reach them,
//! and its debug settings.

pub mod registry;
pub mod settings;
pub mod platform;
pub mod windows;
pub mod shortcut;
pub mod color;
pub mod media;
pub mod metadata;
pub mod native;
pub mod input;
pub mod history;
pub mod webview;
pub mod exiftool;
pub mod ocr;
pub mod lifecycle;
pub mod hotkey;
pub mod builtin;
pub mod geometry;
pub mod pages;
