//! One exchange with the completion service, without the network: what is to
//! be sent, and what a caller is told for each way the exchange can end.
//!
//! Sending and receiving are left to the caller. The library says what the
//! request holds and decides, from what came back, between an answer and one
//! of four errors. No outcome is turned into an empty answer.

use crate::open_ai_api::open_ai::{
    OpenAiClient, OpenAiCompletionsResponseBody, OpenAiSimplifiedResponse, COMPLETIONS_ENDPOINT,
};
use vstd::prelude::*;

verus! {

/// The method of a completion request.
pub const REQUEST_METHOD: &'static str = "POST";

/// The content type of a completion request.
pub const REQUEST_CONTENT_TYPE: &'static str = "application/json";

/// What stands before the token in the authorization header.
pub const BEARER: &'static str = "Bearer ";

/// A completion request, ready to be sent.
#[derive(Debug)]
pub struct CompletionCall {
    /// Where the request goes.
    pub uri: String,
    /// The HTTP method.
    pub method: String,
    /// The value of the `content-type` header.
    pub content_type: String,
    /// The value of the `Authorization` header.
    pub authorization: String,
    /// The body.
    pub body: String,
}

/// How an attempt to reach the service ended.
#[derive(Debug)]
pub enum CallOutcome {
    /// No reply arrived: the connection, the name lookup or the secure
    /// channel failed. The text says what went wrong.
    TransportFailed(String),
    /// A reply arrived. `envelope` holds its body, or, where the bytes were
    /// no text or no reply of the expected shape, what the reader said of
    /// them.
    Replied { status: u16, envelope: Result<OpenAiCompletionsResponseBody, String> },
}

/// Why a request brought no answer.
#[derive(Debug)]
pub enum OpenAiError {
    /// No reply arrived.
    Transport(String),
    /// The service replied with a status outside 200 to 299.
    Status(u16),
    /// The body of the reply could not be read.
    Protocol(String),
    /// The reply was read and holds no choice.
    EmptyResult,
}

/// Whether a status says that the request succeeded.
pub open spec fn is_success(status: u16) -> bool {
    200 <= status <= 299
}

/// What a caller is told for an outcome.
pub open spec fn concludes_to(
    outcome: CallOutcome,
    result: Result<OpenAiSimplifiedResponse, OpenAiError>,
) -> bool {
    match outcome {
        CallOutcome::TransportFailed(reason) => {
            &&& result is Err
            &&& result->Err_0 is Transport
            &&& result->Err_0->Transport_0@ == reason@
        },
        CallOutcome::Replied { status, envelope } => {
            if !is_success(status) {
                &&& result is Err
                &&& result->Err_0 is Status
                &&& result->Err_0->Status_0 == status
            } else {
                match envelope {
                    Err(reason) => {
                        &&& result is Err
                        &&& result->Err_0 is Protocol
                        &&& result->Err_0->Protocol_0@ == reason@
                    },
                    Ok(body) => {
                        if body.choices@.len() == 0 {
                            &&& result is Err
                            &&& result->Err_0 is EmptyResult
                        } else {
                            &&& result is Ok
                            &&& result->Ok_0.answer is Some
                            &&& result->Ok_0.answer->0@ == body.choices@[0].message.content@
                            &&& result->Ok_0.follow_up_query is None
                        }
                    },
                }
            }
        },
    }
}

impl<'a> OpenAiClient<'a> {
    /// Returns the value of the authorization header: the client's token as
    /// a bearer token.
    pub fn authorization(&self) -> (result: String)
        ensures
            result@ == BEARER@ + self.spec_token(),
    {
        let mut result = BEARER.to_owned();
        result.append(self.token());
        result
    }

    /// Returns the request that carries `body` to the service: a post to the
    /// completions endpoint, as JSON, under the client's token.
    pub fn prepare_call(&self, body: String) -> (result: CompletionCall)
        ensures
            result.uri@ == COMPLETIONS_ENDPOINT@,
            result.method@ == REQUEST_METHOD@,
            result.content_type@ == REQUEST_CONTENT_TYPE@,
            result.authorization@ == BEARER@ + self.spec_token(),
            result.body@ == body@,
    {
        CompletionCall {
            uri: COMPLETIONS_ENDPOINT.to_owned(),
            method: REQUEST_METHOD.to_owned(),
            content_type: REQUEST_CONTENT_TYPE.to_owned(),
            authorization: self.authorization(),
            body,
        }
    }

    /// Decides what the caller is told for `outcome`: the answer of the first
    /// choice where a reply with a success status was read and holds a
    /// choice, and else the error that names what happened.
    pub fn conclude(outcome: CallOutcome) -> (result: Result<OpenAiSimplifiedResponse, OpenAiError>)
        ensures
            concludes_to(outcome, result),
    {
        match outcome {
            CallOutcome::TransportFailed(reason) => Err(OpenAiError::Transport(reason)),
            CallOutcome::Replied { status, envelope } => {
                if status < 200 || status > 299 {
                    return Err(OpenAiError::Status(status));
                }
                match envelope {
                    Err(reason) => Err(OpenAiError::Protocol(reason)),
                    Ok(body) => match OpenAiSimplifiedResponse::try_from(body) {
                        Ok(simplified_response) => Ok(simplified_response),
                        Err(_) => Err(OpenAiError::EmptyResult),
                    },
                }
            },
        }
    }
}

} // verus!
