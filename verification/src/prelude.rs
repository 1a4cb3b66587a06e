//! The names that most callers need.

pub use crate::errors::ApiError;
pub use crate::schema::message::{Message, MessageBuilder};
pub use crate::schema::request::{ChatCompletionsRequest, ChatCompletionsRequestBuilder};
pub use crate::schema::response::ChatCompletionsResponse;
