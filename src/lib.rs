//! A gzip file compressor: request validation, the target-path policy,
//! the codec step and the status shown to the user, all verified.
//! Opening, reading and writing files is left to the caller.

pub mod paths;
pub mod request;
pub mod codec;
pub mod engine;
pub mod status;
