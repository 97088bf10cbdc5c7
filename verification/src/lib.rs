//! Lifecycle controller for a single-window GPU renderer.
//!
//! The controller owns every decision of the application: when the resource
//! chain is started, which step comes next, which windowing events are held
//! back until the renderer is ready, when a resize reaches the surface and
//! what a frame consists of. It never touches the window system or the GPU
//! itself. Instead each entry point returns the [`command::Command`]s that
//! the host has to perform, in order, and the host reports the outcome of
//! every fallible command back through [`app::App::report`]. The state that
//! an entry point leaves behind is the one that holds once the host has
//! performed the commands that came with it.
//!
//! [`model`] defines the controller as a state machine over mathematical
//! values, [`app`] is the executable controller, proved to compute that
//! machine, and [`laws`] holds what is proved of every history.

pub mod app;
pub mod command;
pub mod event;
pub mod laws;
pub mod model;
pub mod surface;

pub use crate::app::App;
