//! The completion service: what is sent to it and what is made of its reply.

pub mod exchange;
pub mod open_ai;
pub mod payload;

pub use exchange::{CallOutcome, CompletionCall, OpenAiError};
pub use open_ai::{
    Choice, Message, OpenAiClient, OpenAiCompletionsResponseBody, OpenAiModel,
    OpenAiSimplifiedResponse,
};
