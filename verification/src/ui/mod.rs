//! The tray icon, the tuning panel, and the shape of its window.
pub mod equalizer;
pub mod panel;
pub mod tray;
pub mod window_shape;
