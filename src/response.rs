//! Responses: a success with a body, or one of the standard failures.
use vstd::prelude::*;

verus! {

/// The standard failures. Each has a fixed status code and message.
#[derive(Clone, Copy, Debug, PartialEq, Eq, Structural)]
pub enum ErrorResponse {
    /// The caller lacks the required session or privilege.
    Unauthorized,
    /// Malformed input or a violated domain rule.
    BadRequest,
    /// An unexpected fault, such as an unreachable store.
    Internal,
    /// No route matches the request.
    NotFound,
}

impl ErrorResponse {
    pub open spec fn spec_status(self) -> u16 {
        match self {
            ErrorResponse::Unauthorized => 401,
            ErrorResponse::BadRequest => 400,
            ErrorResponse::Internal => 500,
            ErrorResponse::NotFound => 404,
        }
    }

    pub open spec fn spec_message(self) -> Seq<char> {
        match self {
            ErrorResponse::Unauthorized => "Unauthorized"@,
            ErrorResponse::BadRequest => "Bad request"@,
            ErrorResponse::Internal => "Internal server error"@,
            ErrorResponse::NotFound => "Not found"@,
        }
    }

    /// The status code of this failure.
    pub fn status_code(&self) -> (r: u16)
        ensures
            r == self.spec_status(),
    {
        match self {
            ErrorResponse::Unauthorized => 401,
            ErrorResponse::BadRequest => 400,
            ErrorResponse::Internal => 500,
            ErrorResponse::NotFound => 404,
        }
    }

    /// The message of this failure.
    pub fn message(&self) -> (r: String)
        ensures
            r@ == self.spec_message(),
    {
        match self {
            ErrorResponse::Unauthorized => "Unauthorized".to_owned(),
            ErrorResponse::BadRequest => "Bad request".to_owned(),
            ErrorResponse::Internal => "Internal server error".to_owned(),
            ErrorResponse::NotFound => "Not found".to_owned(),
        }
    }
}

/// What a response is: a success with its status and body, or a failure.
pub enum ResponseView {
    Success { status: u16, body: Seq<char> },
    Failure(ErrorResponse),
}

/// The outcome of one handler invocation: exactly one of a success or a failure.
#[derive(Debug)]
pub enum Response {
    Success { status: u16, body: String },
    Failure(ErrorResponse),
}

impl View for Response {
    type V = ResponseView;

    open spec fn view(&self) -> ResponseView {
        match self {
            Response::Success { status, body } => ResponseView::Success { status: *status, body: body@ },
            Response::Failure(e) => ResponseView::Failure(*e),
        }
    }
}

impl ResponseView {
    pub open spec fn spec_status(self) -> u16 {
        match self {
            ResponseView::Success { status, .. } => status,
            ResponseView::Failure(e) => e.spec_status(),
        }
    }
}

impl Response {
    /// A success with the given status and body.
    pub fn success(status: u16, body: String) -> (r: Response)
        ensures
            r@ == (ResponseView::Success { status, body: body@ }),
    {
        Response::Success { status, body }
    }

    /// The given failure.
    pub fn failure(e: ErrorResponse) -> (r: Response)
        ensures
            r@ == ResponseView::Failure(e),
    {
        Response::Failure(e)
    }

    /// The status code that goes out with this response.
    pub fn status_code(&self) -> (r: u16)
        ensures
            r == self@.spec_status(),
    {
        match self {
            Response::Success { status, .. } => *status,
            Response::Failure(e) => e.status_code(),
        }
    }

    /// Whether this response is a success.
    pub fn is_success(&self) -> (r: bool)
        ensures
            r == (self@ is Success),
    {
        match self {
            Response::Success { .. } => true,
            Response::Failure(_) => false,
        }
    }

    /// The body: the success payload, or the failure's message.
    pub fn body(&self) -> (r: String)
        ensures
            r@ == match self@ {
                ResponseView::Success { body, .. } => body,
                ResponseView::Failure(e) => e.spec_message(),
            },
    {
        match self {
            Response::Success { body, .. } => body.clone(),
            Response::Failure(e) => e.message(),
        }
    }
}

} // verus!
