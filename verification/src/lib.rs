//! A small logging facility for multi-threaded programs.
//!
//! Every line carries a severity, an owner (who is logging), the display name of
//! the emitting thread and a timestamp. The library decides whether a line is
//! emitted, where it goes and what it reads; writing it out is left to the caller.

pub mod clock;
pub mod laws;
pub mod level;
pub mod line;
pub mod log;
pub mod logger;
pub mod paint;
pub mod text;

pub use level::Level;
pub use line::location_owner;
pub use log::{debug, error, info, log, warn, Log};
pub use logger::{Emission, Logger, Sink};
