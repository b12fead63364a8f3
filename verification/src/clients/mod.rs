//! What every client has in common: the error taxonomy, the request factory
//! and the arithmetic of request ids.

pub mod http;

use vstd::prelude::*;

use crate::json::{json_of, parse_of, show, shown};
use crate::objects::{response_of, JsonError, RequestBuilder, Response};

verus! {

/// A source of requests that are numbered for correlation.
pub trait RequestFactory {
    /// A builder that carries the next id and nothing else.
    fn build_request(&self) -> (builder: RequestBuilder)
        ensures
            builder@.id is Some,
            builder@.method is None,
            builder@.params is None,
            builder@.jsonrpc is None,
    ;
}

/// The error type for RPCs, over the transport's own error type `E`.
///
/// A single call fails with `Connection` or `Json` only. The other variants
/// are reserved for batches and for the verification of ids.
#[derive(Debug)]
pub enum Error<E> {
    /// The batch response contained a duplicate ID.
    BatchDuplicateResponseId(serde_json::Value),
    /// A connection error occurred.
    Connection(E),
    /// Batches can't be empty.
    EmptyBatch,
    /// The response body is not a response.
    Json(JsonError),
    /// The response did not have the expected nonce.
    NonceMismatch,
    /// The response had a jsonrpc field other than "2.0".
    VersionMismatch,
    /// The batch response contained an ID that didn't correspond to any request ID.
    WrongBatchResponseId(serde_json::Value),
    /// Too many responses returned in batch.
    WrongBatchResponseSize,
}

impl<E> Error<E> {
    /// Whether `text` describes the error, where `connection` describes
    /// the transport's errors.
    pub open spec fn described_by<F: Fn(&E) -> String>(self, connection: F, text: String) -> bool {
        match self {
            Error::BatchDuplicateResponseId(id) => text@ == "duplicate batch response id, "@
                + shown(json_of(id)),
            Error::Connection(error) => call_ensures(connection, (&error,), text),
            Error::EmptyBatch => text@ == "empty batch"@,
            Error::Json(JsonError::Shape(reason)) => text@ == reason.text(),
            Error::Json(JsonError::Syntax(_)) => true,
            Error::NonceMismatch => text@ == "nonce mismatch"@,
            Error::VersionMismatch => text@ == "version mismatch"@,
            Error::WrongBatchResponseId(id) => text@ == "wrong batch response id, "@ + shown(
                json_of(id),
            ),
            Error::WrongBatchResponseSize => text@ == "wrong batch response size"@,
        }
    }

    /// The error in words. A connection error is put into words by
    /// `connection`.
    pub fn message<F: Fn(&E) -> String>(&self, connection: F) -> (text: String)
        requires
            self matches Error::Connection(error) ==> call_requires(connection, (&error,)),
        ensures
            self.described_by(connection, text),
    {
        match self {
            Error::BatchDuplicateResponseId(id) => {
                let shown = show(id);
                "duplicate batch response id, ".to_owned().concat(shown.as_str())
            },
            Error::Connection(error) => connection(error),
            Error::EmptyBatch => "empty batch".to_owned(),
            Error::Json(error) => error.message(),
            Error::NonceMismatch => "nonce mismatch".to_owned(),
            Error::VersionMismatch => "version mismatch".to_owned(),
            Error::WrongBatchResponseId(id) => {
                let shown = show(id);
                "wrong batch response id, ".to_owned().concat(shown.as_str())
            },
            Error::WrongBatchResponseSize => "wrong batch response size".to_owned(),
        }
    }
}

/// Whether `result` is what a call comes to after `transport`: a failure of
/// the transport is a connection error; a body is the response that it
/// denotes, or the JSON error that says why it denotes none.
pub open spec fn concluded<E>(
    transport: Result<Vec<u8>, E>,
    result: Result<Response, Error<E>>,
) -> bool {
    match transport {
        Err(error) => result == Err::<Response, Error<E>>(Error::Connection(error)),
        Ok(body) => match parse_of(body@) {
            None => result matches Err(Error::Json(JsonError::Syntax(_))),
            Some(json) => match response_of(json) {
                Ok(response) => result matches Ok(read) && read@ == response,
                Err(reason) => result matches Err(Error::Json(JsonError::Shape(shape))) && shape
                    == reason,
            },
        },
    }
}

/// What a call comes to, given the body that the transport brought back or
/// the error with which it failed.
pub fn conclude<E>(transport: Result<Vec<u8>, E>) -> (result: Result<Response, Error<E>>)
    ensures
        concluded(transport, result),
{
    match transport {
        Ok(body) => match Response::from_slice(body.as_slice()) {
            Ok(response) => Ok(response),
            Err(error) => Err(Error::Json(error)),
        },
        Err(error) => Err(Error::Connection(error)),
    }
}

/// The id that the `k`-th fetch-and-increment hands out, counting from zero,
/// on a counter that stood at `start`. The counter wraps at `usize::MAX`.
pub open spec fn issued(start: usize, k: nat) -> usize {
    ((start + k) % (usize::MAX + 1)) as usize
}

/// Until the counter wraps, a later fetch-and-increment hands out a larger
/// id.
pub proof fn lemma_ids_increase(start: usize, i: nat, j: nat)
    requires
        i < j,
        start + j <= usize::MAX,
    ensures
        issued(start, i) < issued(start, j),
{
    assert((start + i) % (usize::MAX + 1) == start + i) by (nonlinear_arith)
        requires
            0 <= start + i <= usize::MAX,
    ;
    assert((start + j) % (usize::MAX + 1) == start + j) by (nonlinear_arith)
        requires
            0 <= start + j <= usize::MAX,
    ;
}

/// Within one turn of the counter, no id is handed out twice.
pub proof fn lemma_ids_distinct(start: usize, i: nat, j: nat)
    requires
        i < j,
        j - i <= usize::MAX,
    ensures
        issued(start, i) != issued(start, j),
{
    let m = usize::MAX + 1;
    if issued(start, i) == issued(start, j) {
        assert(false) by (nonlinear_arith)
            requires
                (start + i) % m == (start + j) % m,
                0 < j - i < m,
                0 <= start,
                0 <= i,
        {
            let a = start + i;
            let b = start + j;
            assert(a == m * (a / m) + a % m);
            assert(b == m * (b / m) + b % m);
            assert(b - a == m * (b / m - a / m));
        }
    }
}

} // verus!
