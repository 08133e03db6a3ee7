//! Typed, conversational messaging between processes over local sockets.
//!
//! This crate holds the verified part of the library: the error type of a
//! connection and the conversion of the errors reported by the underlying
//! conversation layer, and the construction of socket names.

pub mod error;
pub mod socket_name;

pub use error::{converse_error_to_error, converse_result_to_result, from_converse_result, Error};
pub use socket_name::{socket_file_name, socket_name_from_uuid};
