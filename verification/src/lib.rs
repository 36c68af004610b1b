//! FxMini: a small tray application around an audio enhancer.
//!
//! The crate holds what the application decides and computes. It takes what was
//! observed of the system as plain values and answers with what to do, so that
//! every decision can be stated and proved without a message pump, a window or
//! an audio device.
//!
//! * [`app`] connects the tray, the engine and the settings.
//! * [`i18n`] is the interface language and its string tables.
//! * [`ui`] is the tray menu, the tuning panel, its equalizer, and the shape of
//!   its window.
//! * [`preset`], [`engine`] and [`config`] are the data they share.
//! * [`text`] is what they do to strings.
pub mod app;
pub mod config;
pub mod engine;
pub mod i18n;
pub mod preset;
pub mod text;
pub mod ui;

pub use config::Config;
pub use engine::EngineStatus;
pub use preset::PresetEntry;
