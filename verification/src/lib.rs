//! A verified controller for a transparent, click-through overlay window.
//!
//! The crate holds the decisions of the overlay application: which windows
//! are registered, what each window event does to the registry, when the
//! event loop has to stop, and in which order the shared resources are
//! released. Talking to the display server is left to a thin shell, which
//! hands the outcome of each request back as plain values and does what the
//! controller answers.
//!
//! - [`app`] is the controller itself, [`model`] the state machine that it
//!   follows, and [`lifecycle`] what is proved of that machine.
//! - [`event`] and [`window`] hold the events, the answers and the
//!   per-window record.
//! - [`icon`] decodes the window icon, [`monitor`] writes the report on the
//!   displays, and [`text`] writes numbers.

pub mod app;
pub mod event;
pub mod icon;
pub mod lifecycle;
pub mod model;
pub mod monitor;
pub mod text;
pub mod window;
