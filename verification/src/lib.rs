//! A small application core for a one-window GUI: a text label, a numeric
//! value driven by a slider and an increment button, and a persisted form
//! that keeps the label across restarts.
//!
//! The state, the event handling and the persisted encoding live here and
//! are verified; the windowing toolkit, font registration and storage
//! plumbing live outside the library and only hand plain values in and out.

pub mod app;
pub mod events;
pub mod persist;
