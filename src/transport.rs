//! What the HTTP exchange means for a call: the caller performs the POST
//! and reports how it went; the decision below says whether there is a body
//! to decode or which error the call ends with.

use vstd::prelude::*;

use crate::error::LlmApiError;

verus! {

/// How one POST went.
#[derive(Debug, PartialEq, Eq)]
pub enum HttpOutcome {
    /// No status line was obtained; the transport's message.
    Failed(String),
    /// A status line was obtained, and the body as text, or the message of
    /// the failure to read it.
    Received { status: u16, body: Result<String, String> },
}

/// The success range of HTTP status codes.
pub open spec fn is_success_status(status: u16) -> bool {
    200 <= status <= 299
}

pub fn is_success(status: u16) -> (r: bool)
    ensures
        r == is_success_status(status),
{
    200 <= status && status <= 299
}

/// The body to decode, or the error that ends the call: a transport failure
/// or an unsuccessful status is a `NetworkError` with the transport's
/// message or the body text; a body that could not be read is a
/// `DeserializationError`.
pub fn settle(outcome: HttpOutcome) -> (r: Result<String, LlmApiError>)
    ensures
        match outcome {
            HttpOutcome::Failed(m) => r == Err::<String, LlmApiError>(LlmApiError::NetworkError(m)),
            HttpOutcome::Received { status, body: Err(m) } =>
                r == Err::<String, LlmApiError>(LlmApiError::DeserializationError(m)),
            HttpOutcome::Received { status, body: Ok(b) } =>
                if is_success_status(status) {
                    r == Ok::<String, LlmApiError>(b)
                } else {
                    r == Err::<String, LlmApiError>(LlmApiError::NetworkError(b))
                },
        },
{
    match outcome {
        HttpOutcome::Failed(m) => Err(LlmApiError::NetworkError(m)),
        HttpOutcome::Received { status, body } => match body {
            Err(m) => Err(LlmApiError::DeserializationError(m)),
            Ok(b) => {
                if is_success(status) {
                    Ok(b)
                } else {
                    Err(LlmApiError::NetworkError(b))
                }
            },
        },
    }
}

} // verus!
