//! A window lifecycle controller for a desktop shell that hosts a web UI.
//!
//! The shell owns two windows, a splash screen and the main window. The
//! controller decides which calls the host's window system is asked to make
//! when the shell starts, when the UI reports that it is ready, when the user
//! minimizes or quits, and whenever the main window emits an event. The host
//! makes the calls and reports how each one went; the controller decides
//! whether a failure ends startup or is dropped.
//!
//! `desktop` holds a model of the host's windows on which every decision of
//! the controller has a defined effect, and `laws` states what holds of that
//! model under the controller.

pub mod window;
pub mod platform;
pub mod controller;
pub mod desktop;
pub mod laws;
