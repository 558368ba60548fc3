//! Generic RPC calls: what becomes of the transport's outcome and of the
//! attempt to parse the response body.

use vstd::prelude::*;

verus! {

/// Why a generic RPC call failed.
#[derive(Debug, Clone, PartialEq, Eq)]
pub enum RpcError<E> {
    /// The transport failed; carries the transport error's description.
    Server(String),
    /// The response body did not parse as the expected response type;
    /// carries the parser's error.
    Decode(E),
}

/// Maps the transport's outcome: a response body goes on to be parsed, a
/// transport failure becomes a server error carrying its description.
pub fn transport_outcome<E>(sent: Result<String, String>) -> (r: Result<String, RpcError<E>>)
    ensures
        sent matches Ok(body) ==> r == Ok::<String, RpcError<E>>(body),
        sent matches Err(msg) ==> r == Err::<String, RpcError<E>>(RpcError::Server(msg)),
{
    match sent {
        Ok(body) => Ok(body),
        Err(msg) => Err(RpcError::Server(msg)),
    }
}

/// Maps the outcome of parsing the response body: a parsed response is the
/// call's result, a parse failure is a decode error.
pub fn decode_outcome<T, E>(parsed: Result<T, E>) -> (r: Result<T, RpcError<E>>)
    ensures
        parsed matches Ok(v) ==> r == Ok::<T, RpcError<E>>(v),
        parsed matches Err(e) ==> r == Err::<T, RpcError<E>>(RpcError::Decode(e)),
{
    match parsed {
        Ok(v) => Ok(v),
        Err(e) => Err(RpcError::Decode(e)),
    }
}

} // verus!
