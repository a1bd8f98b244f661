//! Interactive FTP client library: command-line argument parsing, REPL input
//! tokenization and dispatch, and rendering of the colorized status, usage and
//! help messages that the client prints.
//!
//! Everything here is pure computation over strings and integers; the network
//! side of the client (the FTP session itself) lives outside this library and
//! consumes the decisions and rendered text produced here.

pub mod cli;
pub mod ftp_handler;
pub mod style;
pub mod text;
