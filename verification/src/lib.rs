//! Adapter between a canonical chat / embeddings model and the JSON wire
//! format of an OpenCog inference server: request bodies, one-shot response
//! extraction, error classification and the streaming response decoder.

pub mod client;
pub mod json;
pub mod model;
pub mod request;
pub mod response;
pub mod stream;
