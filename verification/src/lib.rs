//! An in-process logging library: named, levelled loggers whose messages a
//! single worker routes to consoles, files or other loggers.
//!
//! A [`Logger`] is a name; what is asked of it becomes a command
//! ([`task::LoggerMessage`]). The worker owns a [`registry::Registry`], whose
//! meaning [`model`] spells out, and
//! applies the commands one by one, in the order in which they arrive; each
//! step says which lines are to be written where.

pub mod level;
pub mod text;
pub mod format;
pub mod table;
pub mod logger;
pub mod task;
pub mod model;
pub mod registry;
pub mod worker;
pub mod comm;
pub mod laws;

pub use format::{
    MessageFormatter, NoForwardingIndicationFormatter, SimpleMessageFormatter,
    ZuluTimeMessageFormatter,
};
pub use level::LogLevel;
pub use level::{CRITICAL, DEBUG, INFO, SEVERE, VERBOSE, WARNING, WTF};
pub use logger::{Logger, LoggerOutput};
