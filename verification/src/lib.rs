//! Development-time log capture agent: tags and buffers the output lines of a
//! supervised child process and drives a terminal dashboard around them.
//!
//! This crate holds the verified core: the record model and severity
//! inference, the bounded log buffer with filtering, search and scrolling, and
//! the dashboard state machine.  Process spawning, terminal I/O and the socket
//! forwarder live in the surrounding binary, which calls into this crate for
//! every decision.

pub mod app;
pub mod capture;
pub mod config;
pub mod filter;
pub mod line;
pub mod loader;
pub mod schemes;
pub mod theme;
pub mod search;
pub mod socket;
pub mod text;
pub mod types;
pub mod widgets;

pub use filter::LevelFilter;
pub use line::LogLine;
pub use types::{LogLevel, LogSource};
