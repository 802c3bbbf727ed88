//! Directory brute-forcing engine: the rules of a scan, stated and proved.
//!
//! The crate holds what a scan decides and computes: how a wordlist is cut
//! into slices, which URL a word gives, which messages a probe's outcome
//! produces, which URLs are scanned next and when the scan ends. Requests,
//! threads and files belong to the program that drives it.
//!
//! * [`worker`] is the engine: its messages, its builder, the slices of a
//!   pool, the probe of one word, the driver of a whole scan, and the laws
//!   that hold of the messages of a scan.
//! * [`buster`] and [`buster_messages`] are the engine for direct
//!   connections, with messages of its own name.
//! * [`logger`] and [`progress_handler`] are the observers' side: log levels,
//!   the line of a log file, and the sinks that ignore everything.
//! * [`tui`] is the state behind the terminal interface: the form of a
//!   worker, the completions of a path, and the panel that follows a scan.

pub mod buster;
pub mod buster_messages;
pub mod logger;
pub mod progress_handler;
pub mod tui;
pub mod worker;
