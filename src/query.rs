//! Path-addressed state queries: building the request handed to the node and
//! reading the node's reply.

use vstd::prelude::*;
use crate::height::{representable, to_node_height, NodeHeight};

verus! {

/// The status code with which the node reports a successful query.
pub const SUCCESS_CODE: u32 = 0;

/// Why a state query failed.
#[derive(Debug, Clone, PartialEq, Eq)]
pub enum QueryError<E> {
    /// The requested height does not fit the node's height type.
    InvalidHeight(u64),
    /// The node answered with a non-success status: its info string and code.
    Query(String, u32),
    /// The query never got an answer: the transport's own error.
    Transport(E),
}

/// A state query as it is handed to the node.
#[derive(Debug, Clone)]
pub struct QueryRequest {
    pub path: String,
    pub data: Vec<u8>,
    pub height: Option<NodeHeight>,
    pub prove: bool,
}

/// The node's reply to a state query, with the status code as a number.
#[derive(Debug, Clone, PartialEq, Eq)]
pub struct QueryReply<P> {
    pub code: u32,
    pub value: Vec<u8>,
    pub info: String,
    pub proof: Option<P>,
}

/// The result of a successful state query.
#[derive(Debug, Clone, PartialEq, Eq)]
pub struct EncodedResponseQuery<P> {
    pub data: Vec<u8>,
    pub info: String,
    pub proof: Option<P>,
}

/// The payload sent for an optional raw payload: empty when absent.
pub open spec fn payload_of(data: Option<Vec<u8>>) -> Seq<u8> {
    match data {
        Some(d) => d@,
        None => Seq::empty(),
    }
}

/// Whether a request carries the given optional height.
pub open spec fn height_matches(q: Option<NodeHeight>, h: Option<u64>) -> bool {
    match h {
        None => q is None,
        Some(v) => q matches Some(n) && n@ == v,
    }
}

/// Whether an optional height is one that the node cannot represent.
pub open spec fn height_rejected(h: Option<u64>) -> bool {
    h matches Some(v) && !representable(v)
}

/// Builds the request for a state query. A height that the node cannot
/// represent is rejected here, so no request exists to be sent.
pub fn prepare_query<E>(path: String, data: Option<Vec<u8>>, height: Option<u64>, prove: bool) -> (r:
    Result<QueryRequest, QueryError<E>>)
    ensures
        r is Err <==> height_rejected(height),
        r matches Err(e) ==> height == Some(e->InvalidHeight_0) && e is InvalidHeight,
        r matches Ok(q) ==> {
            &&& q.path@ == path@
            &&& q.data@ == payload_of(data)
            &&& height_matches(q.height, height)
            &&& q.prove == prove
        },
{
    let node_height = match height {
        None => None,
        Some(h) => match to_node_height(h) {
            Some(n) => Some(n),
            None => {
                return Err(QueryError::InvalidHeight(h));
            },
        },
    };
    let data = match data {
        Some(d) => d,
        None => Vec::new(),
    };
    Ok(QueryRequest { path, data, height: node_height, prove })
}

/// Reads the node's reply: its payload, info and proof on the success code,
/// its info and code as a failure on any other.
pub fn interpret_reply<P, E>(reply: QueryReply<P>) -> (r: Result<EncodedResponseQuery<P>, QueryError<E>>)
    ensures
        reply.code == SUCCESS_CODE ==> r == Ok::<EncodedResponseQuery<P>, QueryError<E>>(
            EncodedResponseQuery { data: reply.value, info: reply.info, proof: reply.proof },
        ),
        reply.code != SUCCESS_CODE ==> r == Err::<EncodedResponseQuery<P>, QueryError<E>>(
            QueryError::Query(reply.info, reply.code),
        ),
{
    if reply.code == SUCCESS_CODE {
        Ok(EncodedResponseQuery { data: reply.value, info: reply.info, proof: reply.proof })
    } else {
        Err(QueryError::Query(reply.info, reply.code))
    }
}

/// Completes a state query from what the transport brought back: a reply is
/// read as `interpret_reply` reads it, a transport failure is the query's
/// failure and carries the transport's error.
pub fn complete_query<P, E>(sent: Result<QueryReply<P>, E>) -> (r: Result<
    EncodedResponseQuery<P>,
    QueryError<E>,
>)
    ensures
        sent matches Err(e) ==> r == Err::<EncodedResponseQuery<P>, QueryError<E>>(
            QueryError::Transport(e),
        ),
        sent matches Ok(reply) ==> (reply.code == SUCCESS_CODE ==> r == Ok::<
            EncodedResponseQuery<P>,
            QueryError<E>,
        >(EncodedResponseQuery { data: reply.value, info: reply.info, proof: reply.proof })),
        sent matches Ok(reply) ==> (reply.code != SUCCESS_CODE ==> r == Err::<
            EncodedResponseQuery<P>,
            QueryError<E>,
        >(QueryError::Query(reply.info, reply.code))),
{
    match sent {
        Ok(reply) => interpret_reply(reply),
        Err(e) => Err(QueryError::Transport(e)),
    }
}

} // verus!
