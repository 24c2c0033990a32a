//! The request and response logic of an OpenAI-compatible `/v1/responses`
//! endpoint, verified with Verus.

pub mod clock;
pub mod ids;
pub mod input;
pub mod json;
pub mod laws;
pub mod messages;
pub mod options;
pub mod request;
pub mod response;
pub mod stream;
pub mod text;
