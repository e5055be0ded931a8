//! The endpoint of the one RPC channel to the backend.
//!
//! The backend listens on the loopback address, on a port that is part of
//! the deployment's configuration. The endpoint is built here and connected
//! lazily by the application, so that a backend which is not listening yet
//! does not hold up startup.

use vstd::prelude::*;
use vstd::string::*;
use crate::error::{Error, ErrorKind};
use crate::text::{append, decimal, decimal_text, lemma_decimal_injective};
use tonic::transport::Endpoint;

verus! {

/// The port on which the backend listens unless the deployment says
/// otherwise.
pub const GRPC_SERVER_PORT: u16 = 53535;

/// `tonic::transport::Endpoint`, the builder of a channel. Nothing is read
/// from it here; it is handed to the caller as tonic made it.
#[verifier::external_type_specification]
#[verifier::external_body]
pub struct ExEndpoint(tonic::transport::Endpoint);

/// The URI of the backend when it listens on `port`.
pub open spec fn endpoint_text(port: u16) -> Seq<char> {
    "http://127.0.0.1:"@ + decimal(port as nat)
}

/// Whether tonic accepts `text` as the URI of an endpoint.
pub uninterp spec fn endpoint_accepts(text: Seq<char>) -> bool;

/// What becomes of the attempt to build an endpoint: the endpoint itself, or
/// an error of kind `InvalidUri` with the reason of the refusal.
pub open spec fn classified<T>(built: Result<T, String>) -> Result<T, Error> {
    match built {
        Ok(endpoint) => Ok(endpoint),
        Err(reason) => Err(Error::InvalidUri(reason)),
    }
}

/// `Endpoint::from_shared` of tonic, with a refusal rendered by the `Display`
/// of `tonic::transport::Error`. The contract names the set of texts that are
/// accepted, and claims that every refusal reads `invalid URI`: the function
/// builds each of its errors as the error of that kind, whose `Display`
/// writes these words and nothing of the cause.
#[verifier::external_body]
fn endpoint_from_shared(text: String) -> (built: Result<Endpoint, String>)
    ensures
        built is Ok <==> endpoint_accepts(text@),
        built matches Err(reason) ==> reason@ == "invalid URI"@,
{
    Endpoint::from_shared(text).map_err(|refusal| refusal.to_string())
}

/// The URI of the backend when it listens on `port`.
pub fn endpoint_uri(port: u16) -> (uri: String)
    ensures
        uri@ == endpoint_text(port),
{
    let number = decimal_text(port);
    append("http://127.0.0.1:", number.as_str())
}

/// Classifies the attempt to build an endpoint.
pub fn endpoint_built<T>(built: Result<T, String>) -> (endpoint: Result<T, Error>)
    ensures
        endpoint == classified(built),
{
    match built {
        Ok(endpoint) => Ok(endpoint),
        Err(reason) => Err(Error::InvalidUri(reason)),
    }
}

/// The endpoint for the URI `text`. A text that tonic does not accept gives
/// an error of kind `InvalidUri`.
pub fn endpoint_for(text: String) -> (endpoint: Result<Endpoint, Error>)
    ensures
        endpoint is Ok <==> endpoint_accepts(text@),
        endpoint matches Err(error) ==> error.kind() == ErrorKind::InvalidUri && error.text()
            == "invalid URI"@,
{
    endpoint_built(endpoint_from_shared(text))
}

/// The endpoint from which the client of the backend on `port` is made. The
/// caller connects it lazily and wraps the channel in the client.
pub fn create_grpc_client(port: u16) -> (endpoint: Result<Endpoint, Error>)
    ensures
        endpoint is Ok <==> endpoint_accepts(endpoint_text(port)),
        endpoint matches Err(error) ==> error.kind() == ErrorKind::InvalidUri && error.text()
            == "invalid URI"@,
{
    endpoint_for(endpoint_uri(port))
}

/// Backends on different ports have different endpoints.
pub proof fn lemma_endpoint_names_one_port(a: u16, b: u16)
    requires
        endpoint_text(a) == endpoint_text(b),
    ensures
        a == b,
{
    let prefix = "http://127.0.0.1:"@;
    assert(endpoint_text(a).subrange(prefix.len() as int, endpoint_text(a).len() as int) =~= decimal(
        a as nat,
    ));
    assert(endpoint_text(b).subrange(prefix.len() as int, endpoint_text(b).len() as int) =~= decimal(
        b as nat,
    ));
    lemma_decimal_injective(a as nat, b as nat);
}

} // verus!
