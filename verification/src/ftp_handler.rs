//! The FTP-facing side of the client: the text it prints for the outcome of
//! each FTP operation. The session itself is I/O and lives outside the
//! library.

pub mod commands;
