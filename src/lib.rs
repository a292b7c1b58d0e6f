//! Renders an HTTP request description as the command-line arguments of a
//! generic HTTP client, with POSIX-shell quoting.
pub mod strings;
pub mod shell;
pub mod encoding;
pub mod context;
pub mod http;
pub mod request;
