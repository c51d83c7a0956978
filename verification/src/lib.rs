//! Core of a small always-on-top clock overlay: validated configuration with a
//! hotkey string codec, window geometry computed from config and monitor
//! bounds, color-key compositing rules, time formatting, the overlay's
//! show/hide state machine, and the shared configuration cell that ties them
//! together.

pub mod config;
pub mod clock;
pub mod compositor;
pub mod geometry;
pub mod hotkey;
pub mod overlay;
pub mod persist;
pub mod settings;
pub mod state;
