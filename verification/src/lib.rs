//! Application-lifecycle shell of a desktop GUI program, modelled as
//! explicitly verified state.
//!
//! The crate guarantees singleton semantics for the application's main
//! window, a small race-free action-dispatch surface (the `quit` and
//! `about` actions with their accelerators), and the lifecycle state
//! machine `Uninitialized -> Running -> Terminating`. Rendering, layout
//! and the windowing runtime itself are collaborators outside this core:
//! a presentation shell drives these types from its event loop and
//! performs the actual window construction and presentation calls.

pub mod actions;
pub mod application;
pub mod config;
pub mod lifecycle;
pub mod window;
