//! A safety layer over a stateful, single-threaded C multimedia library
//! (SDL 1.2 semantics): guard types for subsystem lifecycle, a typed error
//! translation of the global error slot, a total decoder from raw tagged
//! event records to safe variants, and a validating window builder.
//!
//! The native calls themselves are made by the embedding layer; this crate
//! holds every decision around them: which calls are requested, how their
//! integer statuses, handles and error text are interpreted, and which
//! inputs are rejected before any call is attempted.

pub mod cdrom;
pub mod event;
pub mod native;
pub mod timer;
pub mod video;

mod sdl;

pub use crate::sdl::init;
pub use crate::sdl::get_error;
pub use crate::sdl::Color;
pub use crate::sdl::Error;
pub use crate::sdl::ErrorCode;
pub use crate::sdl::SDL;
pub use crate::sdl::VideoSubsystem;
