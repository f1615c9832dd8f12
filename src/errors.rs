//! The errors a request can end in, and the choice of credential.
use reqwest::Error as TransportError;
use serde_json::Error as JsonError;
use vstd::prelude::*;

verus! {

#[verifier::external_type_specification]
#[verifier::external_body]
pub struct ExIoError(std::io::Error);

#[verifier::external_type_specification]
#[verifier::external_body]
pub struct ExTransportError(TransportError);

#[verifier::external_type_specification]
#[verifier::external_body]
pub struct ExJsonError(JsonError);

/// Every way an operation of the client can fail. Each is terminal for the
/// operation that produced it.
pub enum Error {
    /// Reading a local file failed.
    Io(std::io::Error),
    /// The credential variable is set but could not be read as text.
    Var(String),
    /// The HTTP transport failed.
    Request(TransportError),
    /// The response did not match the schema.
    BadAddress(JsonError),
    /// The named resource could not be fetched from the API.
    Api(String),
    /// No credential was supplied or found in the environment.
    MissingAPIKey,
    /// An address without text.
    EmptyAddress,
}

/// The credential a client is built with, from the value of its environment
/// variable: a missing variable is a missing credential.
pub fn api_key_from_env(value: Option<String>) -> (r: Result<String, Error>)
    ensures
        match value {
            Some(k) => r matches Ok(key) && key@ == k@,
            None => r matches Err(Error::MissingAPIKey),
        },
{
    match value {
        Some(k) => Ok(k),
        None => Err(Error::MissingAPIKey),
    }
}

} // verus!
