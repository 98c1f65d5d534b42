//! The wire envelope: request, response, error and id, and the outcome of a
//! dispatch that a response carries.

pub use crate::id::{JrpcId, JrpcIdView};
use serde_json::Value;
use vstd::prelude::*;

verus! {

/// The code of the error that answers a request of another protocol version.
pub const VERSION_MISMATCH: i64 = -32600;

/// The code of the error that answers a request for a method nobody serves.
pub const METHOD_NOT_FOUND: i64 = -32601;

/// The code under which every failure of a served method travels.
pub const APPLICATION_FAILURE: i64 = -1;

/// The protocol version that every request and response names.
pub open spec fn version() -> Seq<char> {
    "2.0"@
}

/// The message of the error that answers a request of another protocol version.
pub open spec fn version_mismatch_message() -> Seq<char> {
    "JSON-RPC version wrong"@
}

/// The message of the error that answers a request for a method nobody serves.
pub open spec fn method_not_found_message() -> Seq<char> {
    "Method not found"@
}

/// A raw JSON-RPC request.
#[derive(Clone, Debug)]
pub struct JrpcRequest {
    pub jsonrpc: String,
    pub method: String,
    pub params: Vec<Value>,
    pub id: JrpcId,
}

/// What a `JrpcRequest` stands for.
pub struct JrpcRequestView {
    pub jsonrpc: Seq<char>,
    pub method: Seq<char>,
    pub params: Seq<Value>,
    pub id: JrpcIdView,
}

impl View for JrpcRequest {
    type V = JrpcRequestView;

    open spec fn view(&self) -> JrpcRequestView {
        JrpcRequestView {
            jsonrpc: self.jsonrpc@,
            method: self.method@,
            params: self.params@,
            id: self.id@,
        }
    }
}

/// A raw JSON-RPC error.
#[derive(Clone, Debug)]
pub struct JrpcError {
    pub code: i64,
    pub message: String,
    pub data: Value,
}

/// What a `JrpcError` stands for.
pub struct JrpcErrorView {
    pub code: i64,
    pub message: Seq<char>,
    pub data: Value,
}

impl View for JrpcError {
    type V = JrpcErrorView;

    open spec fn view(&self) -> JrpcErrorView {
        JrpcErrorView { code: self.code, message: self.message@, data: self.data }
    }
}

/// A raw JSON-RPC response.
///
/// A response with a result reports success, one with an error reports
/// failure, and one with neither reports success with the result `null`.
#[derive(Clone, Debug)]
pub struct JrpcResponse {
    pub jsonrpc: String,
    pub result: Option<Value>,
    pub error: Option<JrpcError>,
    pub id: JrpcId,
}

/// What a `JrpcResponse` stands for.
pub struct JrpcResponseView {
    pub jsonrpc: Seq<char>,
    pub result: Option<Value>,
    pub error: Option<JrpcErrorView>,
    pub id: JrpcIdView,
}

impl View for JrpcResponse {
    type V = JrpcResponseView;

    open spec fn view(&self) -> JrpcResponseView {
        JrpcResponseView {
            jsonrpc: self.jsonrpc@,
            result: self.result,
            error: match self.error {
                Some(e) => Some(e@),
                None => None,
            },
            id: self.id@,
        }
    }
}

/// A server-returned error: the method exists but failed.
#[derive(Clone, Debug, PartialEq, Eq)]
pub struct ServerError {
    pub code: u32,
    pub message: String,
    pub details: Value,
}

/// What a `ServerError` stands for.
pub struct ServerErrorView {
    pub code: u32,
    pub message: Seq<char>,
    pub details: Value,
}

impl View for ServerError {
    type V = ServerErrorView;

    open spec fn view(&self) -> ServerErrorView {
        ServerErrorView { code: self.code, message: self.message@, details: self.details }
    }
}

/// The outcome of a dispatch: `None` where the method does not exist,
/// otherwise what the method returned or how it failed.
pub type Outcome = Option<Result<Value, ServerError>>;

/// What an `Outcome` stands for.
pub type OutcomeView = Option<Result<Value, ServerErrorView>>;

/// The view of an outcome.
pub open spec fn outcome_view(outcome: Outcome) -> OutcomeView {
    match outcome {
        None => None,
        Some(Ok(value)) => Some(Ok(value)),
        Some(Err(e)) => Some(Err(e@)),
    }
}

impl JrpcRequest {
    /// Whether the request names the protocol version that this library speaks.
    pub fn has_current_version(&self) -> (current: bool)
        ensures
            current == (self@.jsonrpc == version()),
    {
        let current = "2.0".to_owned();
        self.jsonrpc == current
    }
}

} // verus!
