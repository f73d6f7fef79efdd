//! State engine of a terminal dashboard that presents simulated
//! operating-system metrics across a fixed set of tabbed views.
//!
//! The library owns the application state: the metric sampler that perturbs
//! each scalar within fixed bounds, the bounded FIFO history buffers behind
//! the trend charts, the coupled on/off toggles for the network and display
//! subsystems, the circular tab selector, and the per-key dispatch of the
//! event loop.  Rendering and terminal I/O live outside the library and only
//! read the state between mutations.

pub mod app;
mod clock;
pub mod history;
pub mod records;
mod rng;
pub mod status;
pub mod strbuild;
pub mod system;
pub mod tabs;
