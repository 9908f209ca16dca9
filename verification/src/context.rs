//! What is known of a request besides its parameters, and how one is refused.
use crate::message::Usage;
use vstd::prelude::*;
use vstd::string::StringExecFns;

verus! {

/// The API whose format a client speaks.
#[derive(Clone, Copy, Debug, PartialEq, Eq, Structural)]
pub enum ClaudeApiFormat {
    Claude,
    OpenAI,
}

/// What the gateway has found out about a request before it is handed to a
/// provider.
#[derive(Clone, Debug)]
pub struct ClaudeContext {
    pub stream: bool,
    pub api_format: ClaudeApiFormat,
    pub usage: Usage,
    pub system_prompt_hash: Option<u64>,
    pub anthropic_beta: Option<String>,
    pub web: bool,
}

/// What is wrong with a request.
#[derive(Clone, Copy, Debug, PartialEq, Eq, Structural)]
pub enum BadRequestReason {
    /// The service that the request goes to cannot do what is asked for.
    UnsupportedOperation,
}

/// Why a request is refused. The name of the service that refuses it is not
/// part of the error: whoever writes the message out gives it.
#[derive(Clone, Copy, Debug, PartialEq, Eq, Structural)]
pub enum ClewdrError {
    BadRequest { reason: BadRequestReason },
}

impl ClewdrError {
    /// The message of the error, where `service` is what the service is called.
    pub open spec fn says(self, service: Seq<char>) -> Seq<char> {
        match self {
            ClewdrError::BadRequest { reason: BadRequestReason::UnsupportedOperation } =>
                "Unsupported operation for "@ + service,
        }
    }

    /// The message of the error, where `service` is what the service is called.
    pub fn message(&self, service: &str) -> (message: String)
        ensures
            message@ == self.says(service@),
    {
        match self {
            ClewdrError::BadRequest { reason: BadRequestReason::UnsupportedOperation } =>
                "Unsupported operation for ".to_owned().concat(service),
        }
    }
}

} // verus!
