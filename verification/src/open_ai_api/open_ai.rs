//! The client for the chat-completion service and the shapes of its replies.

use crate::open_ai_api::payload::{request_payload, write_payload};
use vstd::prelude::*;

verus! {

/// Where completion requests are posted.
pub const COMPLETIONS_ENDPOINT: &'static str = "https://api.openai.com/v1/chat/completions";

/// The wire name of the model that is served.
pub const GPT_35_16K_NAME: &'static str = "gpt-3.5-turbo-16k";

/// What a conversion says of a reply that holds no choice.
pub const NO_CHOICE_MESSAGE: &'static str = "failed to get the choice from response";

/// The reply of the service, field for field.
#[derive(Debug)]
pub struct OpenAiCompletionsResponseBody {
    pub id: String,
    pub object: String,
    pub created: u64,
    pub model: String,
    pub choices: Vec<Choice>,
}

/// What a caller needs of a reply: the answer, and a follow-up query that is
/// kept for conversations of several turns and is not set so far.
#[derive(Debug)]
pub struct OpenAiSimplifiedResponse {
    pub answer: Option<String>,
    pub follow_up_query: Option<String>,
}

/// One candidate completion of a reply.
#[derive(Debug)]
pub struct Choice {
    pub index: u64,
    pub message: Message,
}

/// One message of a conversation: who speaks, and what is said.
#[derive(Debug)]
pub struct Message {
    pub role: String,
    pub content: String,
}

/// The models that can be asked for.
#[derive(Debug, Clone, Copy)]
pub enum OpenAiModel {
    /// https://platform.openai.com/docs/models/gpt-3-5
    Gpt35_16k,
    /// https://platform.openai.com/docs/models/gpt-4
    ///
    /// Announced, but not served through the API: it has no wire name, and no
    /// request can be written for it.
    Gpt40_32k,
}

impl OpenAiModel {
    /// Whether the service serves the model.
    pub open spec fn spec_is_available(&self) -> bool {
        self is Gpt35_16k
    }

    /// Tells whether the service serves the model, that is, whether
    /// [`OpenAiModel::value`] may be called on it.
    #[verifier::when_used_as_spec(spec_is_available)]
    pub fn is_available(&self) -> (result: bool)
        ensures
            result == self.spec_is_available(),
    {
        match self {
            OpenAiModel::Gpt35_16k => true,
            OpenAiModel::Gpt40_32k => false,
        }
    }

    /// Returns the name by which the service knows the model.
    pub fn value(&self) -> (result: String)
        requires
            self.is_available(),
        ensures
            result@ == GPT_35_16K_NAME@,
    {
        GPT_35_16K_NAME.to_owned()
    }
}

/// What the conversion of `body` must give: the content of the first choice
/// as the answer and no follow-up query, or, where there is no choice, the
/// error that says so.
pub open spec fn simplifies_to(
    body: OpenAiCompletionsResponseBody,
    outcome: Result<OpenAiSimplifiedResponse, String>,
) -> bool {
    if body.choices@.len() > 0 {
        &&& outcome is Ok
        &&& outcome->Ok_0.answer is Some
        &&& outcome->Ok_0.answer->0@ == body.choices@[0].message.content@
        &&& outcome->Ok_0.follow_up_query is None
    } else {
        &&& outcome is Err
        &&& outcome->Err_0@ == NO_CHOICE_MESSAGE@
    }
}

impl TryFrom<OpenAiCompletionsResponseBody> for OpenAiSimplifiedResponse {
    type Error = String;

    /// Takes the answer from the first choice of a reply. A reply without a
    /// choice is an error: no answer is made up for it.
    fn try_from(value: OpenAiCompletionsResponseBody) -> (result: Result<Self, String>)
        ensures
            simplifies_to(value, result),
    {
        if value.choices.len() == 0 {
            return Err(NO_CHOICE_MESSAGE.to_owned());
        }
        let message_content = &value.choices[0].message.content;
        Ok(Self { answer: Some(message_content.clone()), follow_up_query: None })
    }
}

impl vstd::std_specs::convert::TryFromSpecImpl<OpenAiCompletionsResponseBody> for OpenAiSimplifiedResponse {
    /// The conversion is described by [`simplifies_to`], which speaks of the
    /// texts in its result, and not by one value that it must return.
    open spec fn obeys_try_from_spec() -> bool {
        false
    }

    open spec fn try_from_spec(v: OpenAiCompletionsResponseBody) -> Result<Self, String> {
        choose|outcome: Result<Self, String>| simplifies_to(v, outcome)
    }
}

/// A client of the completion service: the model that it asks for and the
/// token by which it is known to the service.
pub struct OpenAiClient<'a> {
    model: OpenAiModel,
    token: &'a str,
}

impl<'a> OpenAiClient<'a> {
    /// The model that the client asks for.
    pub closed spec fn spec_model(&self) -> OpenAiModel {
        self.model
    }

    /// The token that the client presents.
    pub closed spec fn spec_token(&self) -> Seq<char> {
        self.token@
    }

    /// Makes a client.
    ///
    /// The model is `model_override_maybe`, or the served model where none is
    /// given. The token is `token_override_maybe`, or, where none is given,
    /// `environment_token_maybe`: what the caller found configured for the
    /// process. A client cannot be made without a token.
    pub fn new(
        model_override_maybe: Option<OpenAiModel>,
        token_override_maybe: Option<&'a str>,
        environment_token_maybe: Option<&'a str>,
    ) -> (result: Self)
        requires
            token_override_maybe is Some || environment_token_maybe is Some,
        ensures
            result.spec_model() == match model_override_maybe {
                Some(model_override) => model_override,
                None => OpenAiModel::Gpt35_16k,
            },
            result.spec_token() == match token_override_maybe {
                Some(token_override) => token_override@,
                None => environment_token_maybe->0@,
            },
    {
        let model = if let Some(model_override) = model_override_maybe {
            model_override
        } else {
            OpenAiModel::Gpt35_16k
        };
        let token = if let Some(token_override) = token_override_maybe {
            token_override
        } else {
            environment_token_maybe.unwrap()
        };
        Self { model, token }
    }

    /// Returns the model that the client asks for.
    #[verifier::when_used_as_spec(spec_model)]
    pub fn model(&self) -> (result: OpenAiModel)
        ensures
            result == self.spec_model(),
    {
        self.model
    }

    /// Returns the token that the client presents.
    pub fn token(&self) -> (result: &'a str)
        ensures
            result@ == self.spec_token(),
    {
        self.token
    }

    /// Returns the body of the request that puts `prompt` to the service:
    /// one user message whose content is the prompt with its line breaks
    /// escaped, the client's model and the fixed temperature.
    pub fn generate_prompt(&self, prompt: &str) -> (result: String)
        requires
            self.model().is_available(),
        ensures
            result@ == request_payload(GPT_35_16K_NAME@, prompt@),
    {
        let model_name = self.model.value();
        write_payload(model_name.as_str(), prompt)
    }
}

} // verus!
