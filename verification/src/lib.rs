//! Serve one configured file as a download over any HTTP request.
//!
//! The library is the request-handling core of a small file-publishing server:
//! it decides, from the configured path and the outcome of opening that file,
//! exactly which response a request receives (download headers or a plain-text
//! 404), and models the streamed body as the in-order concatenation of the
//! chunks read from the file. Transport, tunnel session and file I/O live in
//! the surrounding application.

pub mod config;
pub mod paths;
pub mod response;
pub mod stream;
