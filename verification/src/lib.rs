//! A typed client model for an OpenAI-compatible chat-completions service:
//! validated requests, the replies of the service, and what the client
//! computes around one round trip.

pub mod client;
pub mod errors;
pub mod prelude;
pub mod schema;
pub mod text;
