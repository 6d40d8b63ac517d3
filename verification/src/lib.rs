//! The decision logic of a minimal static-file HTTP server.
//!
//! The crate performs no I/O. A caller reads the first bytes of a connection,
//! hands them to [`handler::route`], attempts to read the file that it names,
//! and writes the bytes of the [`response::Response`] that
//! [`handler::serve_file`] builds from the outcome of that read.

pub mod exchange;
pub mod handler;
pub mod mime;
pub mod request;
pub mod resolver;
pub mod response;
pub mod text;
