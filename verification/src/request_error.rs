use crate::text::same_text;
use vstd::prelude::*;
use vstd::std_specs::convert::FromSpecImpl;
use vstd::string::StringExecFns;

verus! {

/// What a request handler returns.
pub type RequestResult<T> = Result<T, RequestError>;

/// The failures a request can end in, each with the context that is shown to
/// the client.
#[derive(Debug)]
pub enum RequestError {
    BadRequest(String),
    Unauthorized(String),
    Forbidden(String),
    NotFound(String),
    MethodNotAllowed(String),
    Conflict(String),
    UnprocessableEntity(String),
    InternalServerError(String),
    NotImplemented(String),
    BadGateway(String),
    ServiceUnavailable(String),
}

/// How a lookup or a change in the user store failed. The store's own words
/// are left behind: they are for the server's log, not for the client.
#[derive(Debug)]
pub enum StoreError {
    /// The row asked for does not exist.
    RowNotFound,
    /// The database refused the statement; its SQLSTATE code, empty where it
    /// gave none.
    Database(String),
    /// Anything else: the store cannot be reached, timed out, or answered
    /// what was not expected.
    Other,
}

/// An error as it is sent to the client: a status and a body of plain text.
#[derive(Debug)]
pub struct PlainResponse {
    pub status: u16,
    pub body: String,
}

/// The error of the token crate, carried through unread.
#[verifier::external_type_specification]
#[verifier::external_body]
pub struct ExTokenError(jsonwebtoken::errors::Error);

/// The error of the password hashing crate, carried through unread.
#[verifier::external_type_specification]
#[verifier::external_body]
pub struct ExHashError(argon2::password_hash::Error);

/// A request error as plain values: its HTTP status and its context.
pub struct RequestErrorView {
    pub status: int,
    pub context: Seq<char>,
}

impl View for RequestError {
    type V = RequestErrorView;

    open spec fn view(&self) -> RequestErrorView {
        RequestErrorView { status: self.status(), context: self.context() }
    }
}

impl RequestError {
    /// The HTTP status that stands for this error.
    pub open spec fn status(&self) -> int {
        match self {
            RequestError::BadRequest(_) => 400,
            RequestError::Unauthorized(_) => 401,
            RequestError::Forbidden(_) => 403,
            RequestError::NotFound(_) => 404,
            RequestError::MethodNotAllowed(_) => 405,
            RequestError::Conflict(_) => 409,
            RequestError::UnprocessableEntity(_) => 422,
            RequestError::InternalServerError(_) => 500,
            RequestError::NotImplemented(_) => 501,
            RequestError::BadGateway(_) => 502,
            RequestError::ServiceUnavailable(_) => 503,
        }
    }

    /// The context this error carries.
    pub open spec fn context(&self) -> Seq<char> {
        match self {
            RequestError::BadRequest(c) => c@,
            RequestError::Unauthorized(c) => c@,
            RequestError::Forbidden(c) => c@,
            RequestError::NotFound(c) => c@,
            RequestError::MethodNotAllowed(c) => c@,
            RequestError::Conflict(c) => c@,
            RequestError::UnprocessableEntity(c) => c@,
            RequestError::InternalServerError(c) => c@,
            RequestError::NotImplemented(c) => c@,
            RequestError::BadGateway(c) => c@,
            RequestError::ServiceUnavailable(c) => c@,
        }
    }

    /// The words that the written form of this error begins with.
    pub open spec fn title(&self) -> Seq<char> {
        match self {
            RequestError::BadRequest(_) => "400 Bad Request. Context: "@,
            RequestError::Unauthorized(_) => "401 Unauthorized. Context: "@,
            RequestError::Forbidden(_) => "403 Forbidden. Context: "@,
            RequestError::NotFound(_) => "404 Not Found. Context: "@,
            RequestError::MethodNotAllowed(_) => "405 Method Not Allowed. Context: "@,
            RequestError::Conflict(_) => "409 Conflict. Context: "@,
            RequestError::UnprocessableEntity(_) => "422 Unprocessable Entity. Context: "@,
            RequestError::InternalServerError(_) => "500 Internal Server Error. Context: "@,
            RequestError::NotImplemented(_) => "501 Not Implemented. Context: "@,
            RequestError::BadGateway(_) => "502 Bad Gateway. Context: "@,
            RequestError::ServiceUnavailable(_) => "503 Service Unavailable. Context: "@,
        }
    }

    /// The written form of this error: its title, then its context.
    pub open spec fn written(&self) -> Seq<char> {
        self.title() + self.context()
    }

    fn title_text(&self) -> (text: &'static str)
        ensures
            text@ == self.title(),
    {
        match self {
            RequestError::BadRequest(_) => "400 Bad Request. Context: ",
            RequestError::Unauthorized(_) => "401 Unauthorized. Context: ",
            RequestError::Forbidden(_) => "403 Forbidden. Context: ",
            RequestError::NotFound(_) => "404 Not Found. Context: ",
            RequestError::MethodNotAllowed(_) => "405 Method Not Allowed. Context: ",
            RequestError::Conflict(_) => "409 Conflict. Context: ",
            RequestError::UnprocessableEntity(_) => "422 Unprocessable Entity. Context: ",
            RequestError::InternalServerError(_) => "500 Internal Server Error. Context: ",
            RequestError::NotImplemented(_) => "501 Not Implemented. Context: ",
            RequestError::BadGateway(_) => "502 Bad Gateway. Context: ",
            RequestError::ServiceUnavailable(_) => "503 Service Unavailable. Context: ",
        }
    }

    fn context_text(&self) -> (text: &str)
        ensures
            text@ == self.context(),
    {
        match self {
            RequestError::BadRequest(c) => c.as_str(),
            RequestError::Unauthorized(c) => c.as_str(),
            RequestError::Forbidden(c) => c.as_str(),
            RequestError::NotFound(c) => c.as_str(),
            RequestError::MethodNotAllowed(c) => c.as_str(),
            RequestError::Conflict(c) => c.as_str(),
            RequestError::UnprocessableEntity(c) => c.as_str(),
            RequestError::InternalServerError(c) => c.as_str(),
            RequestError::NotImplemented(c) => c.as_str(),
            RequestError::BadGateway(c) => c.as_str(),
            RequestError::ServiceUnavailable(c) => c.as_str(),
        }
    }

    /// Writes the error out: status, reason and context.
    pub fn to_string(&self) -> (text: String)
        ensures
            text@ == self.written(),
    {
        String::from_str(self.title_text()).concat(self.context_text())
    }

    /// The response that tells the client of this error: its status code, and
    /// its written form as a body of plain text.
    pub fn error_response(&self) -> (response: PlainResponse)
        ensures
            response.status == self.status(),
            response.body@ == self.written(),
    {
        PlainResponse { status: self.status_code(), body: self.to_string() }
    }

    /// The HTTP status code of this error.
    pub fn status_code(&self) -> (code: u16)
        ensures
            code == self.status(),
    {
        match self {
            RequestError::BadRequest(_) => 400,
            RequestError::Unauthorized(_) => 401,
            RequestError::Forbidden(_) => 403,
            RequestError::NotFound(_) => 404,
            RequestError::MethodNotAllowed(_) => 405,
            RequestError::Conflict(_) => 409,
            RequestError::UnprocessableEntity(_) => 422,
            RequestError::InternalServerError(_) => 500,
            RequestError::NotImplemented(_) => 501,
            RequestError::BadGateway(_) => 502,
            RequestError::ServiceUnavailable(_) => 503,
        }
    }
}

impl StoreError {
    /// What the client is told of this failure. A missing row is 404. Of the
    /// database's codes, a null or a dangling reference (23502, 23503) is 400
    /// and a duplicate (23505) is 409, each with the code as context. Every
    /// other failure is 500.
    pub open spec fn answer(self) -> RequestErrorView {
        match self {
            StoreError::RowNotFound => RequestErrorView { status: 404, context: "not found"@ },
            StoreError::Database(code) => RequestErrorView {
                status: if code@ == "23502"@ || code@ == "23503"@ {
                    400
                } else if code@ == "23505"@ {
                    409
                } else {
                    500
                },
                context: code@,
            },
            StoreError::Other => RequestErrorView {
                status: 500,
                context: "internal server error"@,
            },
        }
    }
}

impl From<StoreError> for RequestError {
    /// The error that a failure of the user store is answered with.
    fn from(error: StoreError) -> (r: RequestError)
        ensures
            r@ == error.answer(),
    {
        match error {
            StoreError::RowNotFound => RequestError::NotFound(String::from_str("not found")),
            StoreError::Database(code) => {
                if same_text(code.as_str(), "23502") || same_text(code.as_str(), "23503") {
                    RequestError::BadRequest(code)
                } else if same_text(code.as_str(), "23505") {
                    RequestError::Conflict(code)
                } else {
                    RequestError::InternalServerError(code)
                }
            },
            StoreError::Other => RequestError::InternalServerError(
                String::from_str("internal server error"),
            ),
        }
    }
}

impl FromSpecImpl<StoreError> for RequestError {
    /// The answer carries a message made on the spot, which no spec function
    /// can name: `from` states its outcome by views instead.
    open spec fn obeys_from_spec() -> bool {
        false
    }

    open spec fn from_spec(error: StoreError) -> RequestError {
        arbitrary()
    }
}

impl From<argon2::password_hash::Error> for RequestError {
    /// A failure to hash is the server's fault. What went wrong inside the
    /// hasher is not told to the client. Nothing is lost with the hasher's
    /// words: it turns down a password only for its length.
    fn from(_error: argon2::password_hash::Error) -> (r: RequestError)
        ensures
            r matches RequestError::InternalServerError(context) && context@
                == "password hashing failed"@,
    {
        RequestError::InternalServerError(String::from_str("password hashing failed"))
    }
}

impl FromSpecImpl<argon2::password_hash::Error> for RequestError {
    /// The answer carries a message made on the spot, which no spec function
    /// can name: `from` states its outcome by views instead.
    open spec fn obeys_from_spec() -> bool {
        false
    }

    open spec fn from_spec(error: argon2::password_hash::Error) -> RequestError {
        arbitrary()
    }
}

impl From<jsonwebtoken::errors::Error> for RequestError {
    /// A token that cannot be made or read is `Unauthorized`. Why the token
    /// crate turned it down is not told to the client; `token_fault` tells
    /// the server's log.
    fn from(_error: jsonwebtoken::errors::Error) -> (r: RequestError)
        ensures
            r matches RequestError::Unauthorized(context) && context@ == "invalid token"@,
    {
        RequestError::Unauthorized(String::from_str("invalid token"))
    }
}

impl FromSpecImpl<jsonwebtoken::errors::Error> for RequestError {
    /// The answer carries a message made on the spot, which no spec function
    /// can name: `from` states its outcome by views instead.
    open spec fn obeys_from_spec() -> bool {
        false
    }

    open spec fn from_spec(error: jsonwebtoken::errors::Error) -> RequestError {
        arbitrary()
    }
}

} // verus!
