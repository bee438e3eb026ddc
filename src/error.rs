use crate::resource::ErrorObject;
use crate::transport::{TransportError, TransportModel};
use failure::Error as FailureCause;
use vstd::prelude::*;
use vstd::std_specs::convert::FromSpec;
use vstd::string::StringExecFns;

verus! {

#[verifier::external_type_specification]
#[verifier::external_body]
pub struct ExFailureError(FailureCause);

/// Relies on failure::err_msg: a failure::Error that carries the message.
#[verifier::external_body]
fn message_cause(reason: &'static str) -> FailureCause {
    failure::err_msg(reason)
}

/// What an [`Error`] stands for.
pub enum ErrorModel {
    /// A response violated what the client expected of it.
    Deserialize { reason: Seq<char> },
    /// The transport layer failed, with the API's error object if one was parsed.
    Request { transport: TransportModel, response: Option<ErrorObject> },
}

/// The Debug text of a string: the string quoted, with its special
/// characters escaped.
pub uninterp spec fn debug_str(s: Seq<char>) -> Seq<char>;

/// Relies on str's Debug impl: the quoted, escaped text of the string.
#[verifier::external_body]
fn quoted(s: &str) -> (r: String)
    ensures
        r@ == debug_str(s@),
{
    format!("{:?}", s)
}

/// How a parsed error object reads in a message: its Debug form.
pub open spec fn response_text(response: Option<ErrorObject>) -> Seq<char> {
    match response {
        Some(o) => "Some(ErrorObject { code: "@ + debug_str(o.code@) + ", message: "@ + debug_str(
            o.message@,
        ) + " })"@,
        None => "None"@,
    }
}

impl ErrorModel {
    /// Retrying the same request may succeed.
    pub open spec fn should_retry(self) -> bool {
        match self {
            ErrorModel::Deserialize { .. } => false,
            ErrorModel::Request { transport, .. } => !transport.client_error && !transport.serialization,
        }
    }

    pub open spec fn url(self) -> Option<Seq<char>> {
        match self {
            ErrorModel::Deserialize { .. } => None,
            ErrorModel::Request { transport, .. } => transport.url,
        }
    }

    pub open spec fn status(self) -> Option<u16> {
        match self {
            ErrorModel::Deserialize { .. } => None,
            ErrorModel::Request { transport, .. } => transport.status,
        }
    }

    pub open spec fn response(self) -> Option<ErrorObject> {
        match self {
            ErrorModel::Deserialize { .. } => None,
            ErrorModel::Request { response, .. } => response,
        }
    }

    /// The human-readable rendering of the error.
    pub open spec fn message(self) -> Seq<char> {
        match self {
            ErrorModel::Deserialize { reason } => "Deserialize error: "@ + reason,
            ErrorModel::Request { transport, response } => "Request error: "@ + transport.text
                + " (response: "@ + response_text(response) + ")"@,
        }
    }
}

#[derive(Debug)]
enum ErrorKind {
    DeserializeError { cause: FailureCause, reason: &'static str },
    RequestError { source: TransportError, response: Option<ErrorObject> },
}

/// The error that any operation of the client may return.
#[derive(Debug)]
pub struct Error {
    inner: Box<ErrorKind>,
}

impl View for Error {
    type V = ErrorModel;

    closed spec fn view(&self) -> ErrorModel {
        match *self.inner {
            ErrorKind::DeserializeError { reason, .. } => ErrorModel::Deserialize { reason: reason@ },
            ErrorKind::RequestError { source, response } => ErrorModel::Request {
                transport: source@,
                response,
            },
        }
    }
}

impl Error {
    /// An error from a transport failure and the error object parsed from
    /// the response body, if any.
    pub fn from_response(source: TransportError, response: Option<ErrorObject>) -> (r: Error)
        ensures
            r@ == (ErrorModel::Request { transport: source@, response }),
    {
        Error { inner: Box::new(ErrorKind::RequestError { source, response }) }
    }

    /// An error for a response that violated what the client expected of it.
    pub fn unexpected_response(reason: &'static str) -> (r: Error)
        ensures
            r@ == (ErrorModel::Deserialize { reason: reason@ }),
    {
        let cause = message_cause(reason);
        Error { inner: Box::new(ErrorKind::DeserializeError { cause, reason }) }
    }

    /// Check whether the error may be recovered by retrying.
    pub fn should_retry(&self) -> (r: bool)
        ensures
            r == self@.should_retry(),
    {
        match &*self.inner {
            ErrorKind::DeserializeError { .. } => false,
            ErrorKind::RequestError { source, .. } => !source.is_client_error()
                && !source.is_serialization(),
        }
    }

    /// Get the url related to the error.
    pub fn url(&self) -> (r: Option<&str>)
        ensures
            r is Some <==> self@.url() is Some,
            r matches Some(u) ==> u@ == self@.url()->0,
    {
        match &*self.inner {
            ErrorKind::DeserializeError { .. } => None,
            ErrorKind::RequestError { source, .. } => source.url(),
        }
    }

    /// Get the error response from API if caused by error status code.
    pub fn error_response(&self) -> (r: Option<&ErrorObject>)
        ensures
            r is Some <==> self@.response() is Some,
            r matches Some(o) ==> *o == self@.response()->0,
    {
        match &*self.inner {
            ErrorKind::DeserializeError { .. } => None,
            ErrorKind::RequestError { response, .. } => response.as_ref(),
        }
    }

    /// Get the HTTP status code if caused by error status code.
    pub fn status_code(&self) -> (r: Option<u16>)
        ensures
            r == self@.status(),
    {
        match &*self.inner {
            ErrorKind::DeserializeError { .. } => None,
            ErrorKind::RequestError { source, .. } => source.status(),
        }
    }

    /// A human-readable description of the error.
    pub fn message(&self) -> (r: String)
        ensures
            r@ == self@.message(),
    {
        match &*self.inner {
            ErrorKind::DeserializeError { reason, .. } => {
                let mut s = String::from_str("Deserialize error: ");
                s.append(reason);
                s
            },
            ErrorKind::RequestError { source, response } => {
                let mut s = String::from_str("Request error: ");
                s.append(source.description());
                s.append(" (response: ");
                match response {
                    Some(o) => {
                        s.append("Some(ErrorObject { code: ");
                        let code = quoted(o.code.as_str());
                        s.append(code.as_str());
                        s.append(", message: ");
                        let message = quoted(o.message.as_str());
                        s.append(message.as_str());
                        s.append(" })");
                    },
                    None => {
                        s.append("None");
                    },
                }
                s.append(")");
                s
            },
        }
    }
}

impl From<TransportError> for Error {
    fn from(source: TransportError) -> (r: Error) {
        Error { inner: Box::new(ErrorKind::RequestError { source, response: None }) }
    }
}

impl vstd::std_specs::convert::FromSpecImpl<TransportError> for Error {
    open spec fn obeys_from_spec() -> bool {
        true
    }

    closed spec fn from_spec(source: TransportError) -> Error {
        Error { inner: Box::new(ErrorKind::RequestError { source, response: None }) }
    }
}

/// An error about an unexpected response never advises a retry, and has no
/// URL, no status code and no error object, whatever its reason.
pub proof fn unexpected_response_is_final(reason: Seq<char>)
    ensures
        !(ErrorModel::Deserialize { reason }).should_retry(),
        (ErrorModel::Deserialize { reason }).url() is None,
        (ErrorModel::Deserialize { reason }).status() is None,
        (ErrorModel::Deserialize { reason }).response() is None,
{
}

/// A transport failure advises a retry exactly when the transport layer
/// blames neither the request itself nor the serialization of its body.
pub proof fn request_retry_follows_transport(
    transport: TransportModel,
    response: Option<ErrorObject>,
)
    ensures
        (ErrorModel::Request { transport, response }).should_retry() == !(transport.client_error
            || transport.serialization),
{
}

/// The error object given with a transport failure is handed back unchanged.
pub proof fn error_response_round_trip(transport: TransportModel, response: Option<ErrorObject>)
    ensures
        (ErrorModel::Request { transport, response }).response() == response,
{
}

/// Converting a transport error gives the same error as building it with no
/// error object: same retry advice, URL and status code, and no error object.
pub proof fn conversion_has_no_payload(source: TransportError)
    ensures
        Error::from_spec(source)@ == (ErrorModel::Request { transport: source@, response: None }),
        Error::from_spec(source)@.should_retry() == (ErrorModel::Request {
            transport: source@,
            response: None,
        }).should_retry(),
        Error::from_spec(source)@.url() == source@.url,
        Error::from_spec(source)@.status() == source@.status,
        Error::from_spec(source)@.response() is None,
{
}

/// The URL and status code of a transport failure are those of the transport
/// error, unchanged.
pub proof fn request_passes_transport_facts(
    transport: TransportModel,
    response: Option<ErrorObject>,
)
    ensures
        (ErrorModel::Request { transport, response }).url() == transport.url,
        (ErrorModel::Request { transport, response }).status() == transport.status,
{
}

/// The message of a transport failure ends with the rendering of its error
/// object, or with "None" where it has none.
pub proof fn message_shows_response(transport: TransportModel, response: Option<ErrorObject>)
    ensures
        ({
            let m = (ErrorModel::Request { transport, response }).message();
            let tail = " (response: "@ + response_text(response) + ")"@;
            m.len() >= tail.len() && m.subrange(m.len() - tail.len(), m.len() as int) == tail
        }),
{
    let m = (ErrorModel::Request { transport, response }).message();
    let tail = " (response: "@ + response_text(response) + ")"@;
    assert(m =~= ("Request error: "@ + transport.text) + tail);
    assert(m.subrange(m.len() - tail.len(), m.len() as int) =~= tail);
}

} // verus!
