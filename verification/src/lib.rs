//! The logic of a window-system backend for a compositor.
//!
//! A nested compositor runs inside one window of a host window system.  This crate holds the
//! decisions of such a backend: how the window is set up, which input events the compositor's
//! handler sees for each event of the window, with which time stamps and key counts, and how
//! touch positions are scaled.  Every function is verified against its contract.  The window
//! itself, its rendering context and the event loop belong to the program around the crate, which
//! hands events in and carries out the actions that come back.

pub mod backend;
pub mod error;
pub mod events;
pub mod graphics;
pub mod guarantees;
pub mod init;
pub mod input;
pub mod laws;
pub mod number;
pub mod window;
