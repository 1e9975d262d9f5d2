//! Client-side logic for writing a key/value pair to a remote key-value
//! store: metadata validation, request planning (URL, body encoding) and
//! response interpretation.

pub mod errors;
pub mod metadata;
pub mod outside;
pub mod request;
pub mod response;
