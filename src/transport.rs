use reqwest::Error as ReqwestFailure;
use vstd::prelude::*;

verus! {

#[verifier::external_type_specification]
#[verifier::external_body]
pub struct ExReqwestError(ReqwestFailure);

/// What this library reads from a transport error, as plain values.
pub struct TransportModel {
    /// The URL of the failed request, if the transport layer knew it.
    pub url: Option<Seq<char>>,
    /// The HTTP status of the response, if one was received.
    pub status: Option<u16>,
    /// The transport layer blames the request itself (an HTTP 4xx status).
    pub client_error: bool,
    /// The request body could not be serialized.
    pub serialization: bool,
    /// The transport layer's own description of the failure.
    pub text: Seq<char>,
}

/// A failure reported by the HTTP transport layer, together with the facts
/// that the error classification reads from it. The facts are read once, when
/// the value is made, and never change afterwards.
#[derive(Debug)]
pub struct TransportError {
    source: ReqwestFailure,
    url: Option<String>,
    status: Option<u16>,
    client_error: bool,
    serialization: bool,
    text: String,
}

/// Relies on reqwest::Error::url: the URL of the failed request, if known.
#[verifier::external_body]
fn read_url(e: &ReqwestFailure) -> Option<String> {
    e.url().map(|u| u.as_str().to_string())
}

/// Relies on reqwest::Error::status: the status code of an error built from
/// a response. An http::StatusCode always lies in 100..600.
#[verifier::external_body]
fn read_status(e: &ReqwestFailure) -> (r: Option<u16>)
    ensures
        r matches Some(s) ==> 100 <= s < 600,
{
    e.status().map(|s| s.as_u16())
}

/// Relies on reqwest::Error::is_client_error: whether the error came from a
/// response with a 4xx status.
#[verifier::external_body]
fn read_client_error(e: &ReqwestFailure) -> bool {
    e.is_client_error()
}

/// Relies on reqwest::Error::is_serialization: whether the error came from
/// encoding a request body as JSON or as a form.
#[verifier::external_body]
fn read_serialization(e: &ReqwestFailure) -> bool {
    e.is_serialization()
}

/// Relies on reqwest::Error's Display: its description of the failure.
#[verifier::external_body]
fn read_text(e: &ReqwestFailure) -> String {
    e.to_string()
}

impl View for TransportError {
    type V = TransportModel;

    closed spec fn view(&self) -> TransportModel {
        TransportModel {
            url: match self.url {
                Some(u) => Some(u@),
                None => None,
            },
            status: self.status,
            client_error: self.client_error,
            serialization: self.serialization,
            text: self.text@,
        }
    }
}

impl TransportError {
    /// Reads the facts of a transport error once and keeps them with it.
    pub fn new(source: ReqwestFailure) -> (r: TransportError)
        ensures
            r@.status matches Some(s) ==> 100 <= s < 600,
    {
        let url = read_url(&source);
        let status = read_status(&source);
        let client_error = read_client_error(&source);
        let serialization = read_serialization(&source);
        let text = read_text(&source);
        TransportError { source, url, status, client_error, serialization, text }
    }

    /// The URL of the failed request, if the transport layer knew it.
    pub fn url(&self) -> (r: Option<&str>)
        ensures
            r is Some <==> self@.url is Some,
            r matches Some(u) ==> u@ == self@.url->0,
    {
        match &self.url {
            Some(u) => Some(u.as_str()),
            None => None,
        }
    }

    /// The HTTP status of the response, if one was received.
    pub fn status(&self) -> (r: Option<u16>)
        ensures
            r == self@.status,
    {
        self.status
    }

    /// Whether the transport layer blames the request itself.
    pub fn is_client_error(&self) -> (r: bool)
        ensures
            r == self@.client_error,
    {
        self.client_error
    }

    /// Whether the request body could not be serialized.
    pub fn is_serialization(&self) -> (r: bool)
        ensures
            r == self@.serialization,
    {
        self.serialization
    }

    /// The transport layer's own description of the failure.
    pub fn description(&self) -> (r: &str)
        ensures
            r@ == self@.text,
    {
        self.text.as_str()
    }
}

} // verus!
