//! Error responses of the service: a status code and a JSON body `{"message": ...}`.
use vstd::prelude::*;

verus! {

/// The JSON body of an error response.
pub struct ErrorResponderBody {
    pub message: String,
}

/// Errors caused by the client.
pub enum ClientErrorResponder {
    /// Status 400.
    BadRequest(ErrorResponderBody),
    /// Status 401.
    Unauthorize(ErrorResponderBody),
    /// Status 404.
    NotFound(ErrorResponderBody),
}

/// Errors on the server's side.
pub enum ServerErrorResponder {
    /// Status 500.
    InternalError(ErrorResponderBody),
}

/// An error response: the status code says which kind, the body carries a message.
pub enum ErrorResponder {
    Client(ClientErrorResponder),
    Server(ServerErrorResponder),
}

impl ErrorResponder {
    /// The HTTP status code the response is sent with.
    pub open spec fn status_code(&self) -> u16 {
        match self {
            ErrorResponder::Client(ClientErrorResponder::BadRequest(_)) => 400,
            ErrorResponder::Client(ClientErrorResponder::Unauthorize(_)) => 401,
            ErrorResponder::Client(ClientErrorResponder::NotFound(_)) => 404,
            ErrorResponder::Server(ServerErrorResponder::InternalError(_)) => 500,
        }
    }

    /// The message of the response's JSON body.
    pub open spec fn message_text(&self) -> Seq<char> {
        match self {
            ErrorResponder::Client(ClientErrorResponder::BadRequest(b)) => b.message@,
            ErrorResponder::Client(ClientErrorResponder::Unauthorize(b)) => b.message@,
            ErrorResponder::Client(ClientErrorResponder::NotFound(b)) => b.message@,
            ErrorResponder::Server(ServerErrorResponder::InternalError(b)) => b.message@,
        }
    }

    /// A 500 response with `message`.
    pub fn internal_error(message: &str) -> (r: Self)
        ensures
            r is Server,
            r.status_code() == 500,
            r.message_text() == message@,
    {
        ErrorResponder::Server(
            ServerErrorResponder::InternalError(ErrorResponderBody { message: message.to_owned() }),
        )
    }

    /// A 400 response with `message`.
    pub fn bad_request(message: &str) -> (r: Self)
        ensures
            r matches ErrorResponder::Client(ClientErrorResponder::BadRequest(_)),
            r.status_code() == 400,
            r.message_text() == message@,
    {
        ErrorResponder::Client(
            ClientErrorResponder::BadRequest(ErrorResponderBody { message: message.to_owned() }),
        )
    }

    /// A 401 response with `message`.
    pub fn unauthorize(message: &str) -> (r: Self)
        ensures
            r matches ErrorResponder::Client(ClientErrorResponder::Unauthorize(_)),
            r.status_code() == 401,
            r.message_text() == message@,
    {
        ErrorResponder::Client(
            ClientErrorResponder::Unauthorize(ErrorResponderBody { message: message.to_owned() }),
        )
    }

    /// The status code of this response.
    pub fn status(&self) -> (code: u16)
        ensures
            code == self.status_code(),
    {
        match self {
            ErrorResponder::Client(ClientErrorResponder::BadRequest(_)) => 400,
            ErrorResponder::Client(ClientErrorResponder::Unauthorize(_)) => 401,
            ErrorResponder::Client(ClientErrorResponder::NotFound(_)) => 404,
            ErrorResponder::Server(ServerErrorResponder::InternalError(_)) => 500,
        }
    }

    /// The message of this response's body.
    pub fn message(&self) -> (m: &str)
        ensures
            m@ == self.message_text(),
    {
        match self {
            ErrorResponder::Client(ClientErrorResponder::BadRequest(b)) => b.message.as_str(),
            ErrorResponder::Client(ClientErrorResponder::Unauthorize(b)) => b.message.as_str(),
            ErrorResponder::Client(ClientErrorResponder::NotFound(b)) => b.message.as_str(),
            ErrorResponder::Server(ServerErrorResponder::InternalError(b)) => b.message.as_str(),
        }
    }
}

} // verus!
