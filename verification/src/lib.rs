//! Request signing and typed client logic for a tweet-style REST API.
//!
//! The library computes and decides; it performs no I/O. A program around
//! it reads the clock and the random source, sends the requests that
//! [`client::Client`] describes, and hands the answers back.
//!
//! - [`encoding`]: percent-encoding with the RFC 3986 unreserved set.
//! - [`params`] and [`sorting`]: parameters in canonical order and as text,
//!   and what holds of that order.
//! - [`signer`]: the OAuth 1.0a `Authorization` header.
//! - [`json`], [`response`] and [`display`]: documents, the typed results
//!   read from them, and how results are written out.
//! - [`client`]: the request of each operation and the meaning of its answer.
//! - [`error`]: the errors and the classes of HTTP statuses.
//! - [`args`], [`credentials`] and [`commands`]: the command line.
//! - [`text`]: byte strings as text.

pub mod text;
pub mod encoding;
pub mod params;
pub mod sorting;
pub mod error;
pub mod args;
pub mod credentials;
pub mod signer;
pub mod json;
pub mod response;
pub mod display;
pub mod client;
pub mod commands;
