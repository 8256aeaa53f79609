//! A client for the serial command set of LX200 telescope mounts: the codecs
//! of its fixed-width ASCII fields, the values built from them, and the
//! exchange of requests and replies over a stream of bytes.

pub mod client;
pub mod drain;
pub mod error;
pub mod formats;
pub mod requests;
pub mod stream;

pub use client::{BoxedClient, Client};
pub use stream::Stream;
