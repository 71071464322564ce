//! A bridge between a host's fetch-style request and response objects and an
//! HTTP service: request and response translation, the ordered byte streams that
//! carry bodies in both directions, and the mapping of every failure to a
//! well-formed 500 response.

pub mod adapter;
pub mod incoming;
pub mod laws;
pub mod outgoing;
pub mod request;
pub mod response;
pub mod stream;
