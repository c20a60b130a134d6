use vstd::prelude::*;

verus! {

/// Classified error returned by every coordinator operation.
///
/// `UpstreamFailure` is the only retryable variant: it marks a failed call to
/// the object store, the queue or the synthesis service, and the queue's
/// redelivery is expected to retry the message. All other variants are
/// terminal for the request or message that produced them.
#[derive(Clone, Copy, Debug, PartialEq, Eq, Structural)]
pub enum PipelineError {
    NotFound,
    Conflict,
    InvalidState,
    InvalidInput,
    QuotaExceeded,
    UpstreamFailure,
}

impl PipelineError {
    /// Whether redelivering the failed message can ever succeed.
    pub fn retryable(&self) -> (r: bool)
        ensures
            r == (*self is UpstreamFailure),
    {
        match self {
            PipelineError::UpstreamFailure => true,
            _ => false,
        }
    }
}

/// Error shape surfaced by the HTTP boundary, with a status code and a
/// JSON body; the boundary layer turns it into an actual response.
#[derive(Debug, PartialEq)]
pub enum AppError {
    Unauthorized { error: Option<String> },
    InternalServerError { error: Option<String> },
    NotFound { error: Option<String> },
}

impl Clone for AppError {
    fn clone(&self) -> (e: AppError)
        ensures
            e == *self,
    {
        match self {
            AppError::Unauthorized { error } => AppError::Unauthorized {
                error: match error {
                    Some(s) => Some(s.clone()),
                    None => None,
                },
            },
            AppError::InternalServerError { error } => AppError::InternalServerError {
                error: match error {
                    Some(s) => Some(s.clone()),
                    None => None,
                },
            },
            AppError::NotFound { error } => AppError::NotFound {
                error: match error {
                    Some(s) => Some(s.clone()),
                    None => None,
                },
            },
        }
    }
}

impl AppError {
    pub open spec fn spec_status_code(&self) -> u16 {
        match self {
            AppError::Unauthorized { .. } => 401,
            AppError::InternalServerError { .. } => 500,
            AppError::NotFound { .. } => 404,
        }
    }

    pub fn status_code(&self) -> (c: u16)
        ensures
            c == self.spec_status_code(),
    {
        match self {
            AppError::Unauthorized { .. } => 401,
            AppError::InternalServerError { .. } => 500,
            AppError::NotFound { .. } => 404,
        }
    }

    /// The message shown to the caller: the attached text, or a fixed
    /// default for the variant.
    pub open spec fn spec_message(&self) -> Seq<char> {
        match self {
            AppError::Unauthorized { error: Some(e) } => e@,
            AppError::Unauthorized { error: None } => "unauthorized"@,
            AppError::InternalServerError { error: Some(e) } => e@,
            AppError::InternalServerError { error: None } => "internal server error"@,
            AppError::NotFound { error: Some(e) } => e@,
            AppError::NotFound { error: None } => "not found"@,
        }
    }

    pub fn message(&self) -> (m: String)
        ensures
            m@ == self.spec_message(),
    {
        match self {
            AppError::Unauthorized { error: Some(e) } => e.clone(),
            AppError::Unauthorized { error: None } => String::from_str("unauthorized"),
            AppError::InternalServerError { error: Some(e) } => e.clone(),
            AppError::InternalServerError { error: None } => String::from_str(
                "internal server error",
            ),
            AppError::NotFound { error: Some(e) } => e.clone(),
            AppError::NotFound { error: None } => String::from_str("not found"),
        }
    }

    /// The JSON body of the error response.
    pub fn error_response(&self) -> (body: String)
        ensures
            body@ == "{\"error\":\""@ + self.spec_message() + "\"}"@,
    {
        let mut body = String::from_str("{\"error\":\"");
        body.append(self.message().as_str());
        body.append("\"}");
        body
    }
}

/// Catch-all error for failures that carry only a description.
#[derive(Debug, PartialEq)]
pub struct ApiError(pub String);

impl Clone for ApiError {
    fn clone(&self) -> (e: ApiError)
        ensures
            e == *self,
    {
        ApiError(self.0.clone())
    }
}

impl ApiError {
    pub fn status_code(&self) -> (c: u16)
        ensures
            c == 500,
    {
        500
    }

    pub fn error_response(&self) -> (body: String)
        ensures
            body@ == "{\"error\":\""@ + self.0@ + "\"}"@,
    {
        let mut body = String::from_str("{\"error\":\"");
        body.append(self.0.as_str());
        body.append("\"}");
        body
    }
}

} // verus!
