//! The state of a window's presentable surface, kept in step with the
//! window's physical size, and the decisions of the event loop that drives it.
//!
//! - [`size`]: physical pixel sizes.
//! - [`gpu`]: the backend's values that the library carries, and what it
//!   takes on trust about them.
//! - [`format`]: the choice of the format to present in.
//! - [`config`]: a surface's capabilities and its configuration.
//! - [`app`]: the session, which keeps configuration and window size in step.
//! - [`event_loop`]: what each event of the platform does to the session and
//!   asks of the loop's driver.

pub mod app;
pub mod config;
pub mod event_loop;
pub mod format;
pub mod gpu;
pub mod size;

pub use app::App;
pub use config::{SurfaceCapabilities, SurfaceConfig};
pub use event_loop::{Action, Dispatcher, Event, LoopState, WindowEvent};
pub use size::PhysicalSize;
