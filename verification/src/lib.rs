//! The engine of a press-to-dictate input method: while a hotkey is held, audio is
//! captured; on release it is transcribed, optionally polished by a language model, and
//! delivered to the focused application.
//!
//! The library decides; it performs no input or output itself. A driver runs the loop:
//! it hands in what happened and carries out what the library answers.

/// Resampling to 16 kHz and the layout of interleaved frames.
pub mod audio;
/// The user's settings and how they are read from the configuration file.
pub mod config;
/// The list of texts delivered last, and the floating orb.
pub mod history;
/// Key bindings: reading, writing and packing them.
pub mod hotkey;
/// From raw key events to `Down` and `Up` signals.
pub mod hotkey_tap;
/// Delivery of text to the focused application by three routes in turn.
pub mod inject;
/// Which model files to load, and when to swap a loaded model.
pub mod models;
/// The texts, tray states and display times that go with each notice of the worker.
pub mod notice;
/// The worker's state machine.
pub mod pipeline;
/// What holds of every step of the worker.
pub mod pipeline_laws;
/// Normal form of transcripts and the decision to discard one.
pub mod quality;
/// The prompt for the language model.
pub mod refine;
/// Characters and character sequences.
pub mod text;
/// The tray icon and the monitor menu.
pub mod tray;
