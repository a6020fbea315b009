//! A tiny logging library for command-line tools: messages carry a severity,
//! a prefix and a timestamp, and go to standard output or standard error,
//! with an optional copy in a log file.
//!
//! Everything here is free of I/O. The library decides whether a message is
//! emitted, resolves its prefix, lays out its lines and says which streams
//! they are written to; the caller owns the clock, the streams and the file.
//!
//! The rules, in short:
//!
//! - Severities run from `Fatal` down to `Trace`. A message is emitted when
//!   it is at least as severe as the configured minimum. At the start the
//!   minimum is `Trace`, so that no severity is cut off by its rank.
//! - `Verbose` and `Trace` are emitted only while verbose output is switched
//!   on, `Debug` only while debugging output is. Both are off at the start.
//! - `Fatal`, `Error` and `Warn` go to standard error, everything else to
//!   standard output, unless all output is sent to one of the two.
//! - There are four prefixes: `[!!]` for `Fatal` and `Error`, `[!]` for
//!   `Warn`, `[*]` for `Important`, `Info` and `Verbose`, and `[~]` for
//!   `Debug` and `Trace`. Each can be replaced by a text or by a function
//!   that is called for every message.
//! - The first line of a message reads `<prefix> <timestamp>: <text>`, each
//!   further line `[/]`, a tab and its text.
//! - The log file is set up by the first initialisation and by no other.

pub mod colour;
pub mod config;
pub mod layout;
pub mod prefixes;
pub mod record;
pub mod severity;
pub mod sink;
pub mod timestamp;

pub use colour::Styled;
pub use config::{
    debug_prefix_fn, debug_prefix_str, error_prefix_fn, error_prefix_str, info_prefix_fn,
    info_prefix_str, set_colours, set_debug, set_minimum_level, set_route, set_verbose,
    warning_prefix_fn, warning_prefix_str, LogConfig,
};
pub use layout::format_record;
pub use prefixes::{LogPrefixes, Prefix};
pub use record::{compose, Record, WriteOp};
pub use severity::{Filter, PrefixClass, Route, Severity, Tint};
pub use sink::{log_paths, Fault, FileSink, InitError, LogPaths, Sink};
pub use timestamp::Timestamp;
