//! Client-side core for two hosted chat-completion services.

pub mod anthrophic_chat;
pub mod chat;
pub mod credentials;
pub mod envelope;
pub mod error;
pub mod json;
pub mod merge;
pub mod request;
pub mod stream;
pub mod transport;
pub mod usage;
