//! Request planning and response handling for an anime catalog client.
//!
//! The crate performs no I/O. For each operation of the client it says which
//! request to send and what the answer means; a host program owns the HTTP
//! transport, sends the requests and hands back what came of them.

pub mod decode;
pub mod error;
pub mod json;
pub mod model;
pub mod operations;
pub mod request;
pub mod response;
pub mod settings;
pub mod text;
