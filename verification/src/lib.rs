//! Core of a windowed application: an update loop that interleaves a
//! fixed-rate simulation tick with a capped-rate variable update, dispatches a
//! stream of window, device and lifecycle events to a pluggable handler, and
//! tracks per-device keyboard state to tell key presses from auto-repeats.
//!
//! The host windowing library drives the loop from outside: it owns the OS
//! event pump and hands each notification, together with a monotonic
//! timestamp in nanoseconds, to [`application::Application`]. Everything the
//! loop decides — how many fixed updates are due, whether the variable update
//! fires and with which elapsed time, which handler hook an event reaches,
//! and which key events count as repeats — is implemented and verified here.

pub mod application;
pub mod event;
pub mod handler;
pub mod keyboard;
