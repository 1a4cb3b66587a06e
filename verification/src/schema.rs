//! The request and response data model.

pub mod message;
pub mod request;
pub mod response;
pub mod tool;

pub use message::{Message, MessageBuilder};
