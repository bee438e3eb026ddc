//! A single error type for a remote API client: it tells transport failures
//! apart from malformed responses, advises whether a retry makes sense, and
//! exposes the URL, status code and error payload of a failure.

pub mod error;
pub mod resource;
pub mod transport;
