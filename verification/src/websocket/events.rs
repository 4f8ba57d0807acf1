//! The event model: what the client sends and what the server sends back.

pub mod errors;
pub mod request;
pub mod response;
pub mod websocketevents;
