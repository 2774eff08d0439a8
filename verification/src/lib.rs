//! Prompt composition for a hosted chat-completion service, and the handling
//! of its replies.

pub mod open_ai_api;
pub mod prompt_types;
pub mod topic_prompts;

pub use open_ai_api::{OpenAiClient, OpenAiCompletionsResponseBody, OpenAiSimplifiedResponse};
pub use prompt_types::{MultiShotExampleCount, MultiShotPrompt, MultiShotQuestionsAndAnswers};
pub use prompt_types::{PromptType, ZeroShotPrompt};
pub use topic_prompts::{programming, test_prompts, TopicPrompt};
