//! The server side of the dispatch runtime: from a raw request to a raw
//! response, through whatever resolves method names.

use crate::envelope::{
    outcome_view, version, version_mismatch_message, method_not_found_message, JrpcError, JrpcId,
    JrpcIdView, JrpcErrorView, JrpcRequest, JrpcRequestView, JrpcResponse, JrpcResponseView, Outcome, OutcomeView,
    APPLICATION_FAILURE, METHOD_NOT_FOUND, VERSION_MISMATCH,
};
use crate::json::{is_null, null};
use serde_json::Value;
use std::sync::Arc;
use vstd::prelude::*;

verus! {

/// Whether `resp` is the error response to the request `id` that carries
/// `code`, `message` and the data `null`.
pub open spec fn is_protocol_error(
    resp: JrpcResponseView,
    id: JrpcIdView,
    code: i64,
    message: Seq<char>,
) -> bool {
    &&& resp.jsonrpc == version()
    &&& resp.id == id
    &&& resp.result is None
    &&& resp.error matches Some(e)
    &&& e.code == code
    &&& e.message == message
    &&& is_null(e.data)
}

/// Whether `resp` is the response that reports `outcome` to the request `id`.
///
/// A value travels as the result. A missing method travels as the error
/// `METHOD_NOT_FOUND`. A failure travels as an error with the code
/// `APPLICATION_FAILURE`, whatever code the failure itself had, with the
/// failure's message and its details as data.
pub open spec fn answers(resp: JrpcResponseView, id: JrpcIdView, outcome: OutcomeView) -> bool {
    match outcome {
        None => is_protocol_error(resp, id, METHOD_NOT_FOUND, method_not_found_message()),
        Some(Ok(value)) => resp == (JrpcResponseView {
            jsonrpc: version(),
            result: Some(value),
            error: None,
            id,
        }),
        Some(Err(e)) => resp == (JrpcResponseView {
            jsonrpc: version(),
            result: None,
            error: Some(
                JrpcErrorView { code: APPLICATION_FAILURE, message: e.message, data: e.details },
            ),
            id,
        }),
    }
}

impl JrpcResponse {
    /// The response to a request that names another protocol version.
    pub fn version_mismatch(id: JrpcId) -> (resp: JrpcResponse)
        ensures
            is_protocol_error(resp@, id@, VERSION_MISMATCH, version_mismatch_message()),
    {
        JrpcResponse {
            id,
            jsonrpc: "2.0".to_owned(),
            result: None,
            error: Some(
                JrpcError {
                    code: VERSION_MISMATCH,
                    message: "JSON-RPC version wrong".to_owned(),
                    data: null(),
                },
            ),
        }
    }

    /// The response that reports the outcome of a dispatch.
    pub fn from_outcome(id: JrpcId, outcome: Outcome) -> (resp: JrpcResponse)
        ensures
            answers(resp@, id@, outcome_view(outcome)),
    {
        match outcome {
            Some(Ok(value)) => JrpcResponse {
                id,
                jsonrpc: "2.0".to_owned(),
                result: Some(value),
                error: None,
            },
            Some(Err(err)) => JrpcResponse {
                id,
                jsonrpc: "2.0".to_owned(),
                result: None,
                error: Some(
                    JrpcError { code: APPLICATION_FAILURE, message: err.message, data: err.details },
                ),
            },
            None => JrpcResponse {
                id,
                jsonrpc: "2.0".to_owned(),
                result: None,
                error: Some(
                    JrpcError {
                        code: METHOD_NOT_FOUND,
                        message: "Method not found".to_owned(),
                        data: null(),
                    },
                ),
            },
        }
    }
}

/// Server-side RPC logic.
///
/// An implementor maps a method name and positional arguments to a value (the
/// method succeeded), a `ServerError` (the method exists and failed) or `None`
/// (there is no such method), and says in `responds` which outcomes it may
/// give. `respond_raw` does the rest.
pub trait RpcService: Sync + Send + 'static {
    /// Whether `outcome` is an outcome this service may give for a call of
    /// `method` with `params`.
    ///
    /// Unless an implementor says more, any outcome is possible.
    open spec fn responds(&self, method: Seq<char>, params: Seq<Value>, outcome: Outcome) -> bool {
        true
    }

    /// Responds to a call of `method` with positional arguments.
    fn respond(&self, method: &str, params: Vec<Value>) -> (outcome: Outcome)
        ensures
            self.responds(method@, params@, outcome),
    ;

    /// Responds to a raw request with a raw response.
    ///
    /// The response echoes the request's id. A request of another protocol
    /// version is refused before the method is looked at; any other request is
    /// dispatched and the outcome reported.
    fn respond_raw(&self, jrpc_req: JrpcRequest) -> (resp: JrpcResponse)
        ensures
            resp@.id == jrpc_req@.id,
            resp@.jsonrpc == version(),
            jrpc_req@.jsonrpc != version() ==> is_protocol_error(
                resp@,
                jrpc_req@.id,
                VERSION_MISMATCH,
                version_mismatch_message(),
            ),
            jrpc_req@.jsonrpc == version() ==> exists|outcome: Outcome|
                self.responds(jrpc_req@.method, jrpc_req@.params, outcome) && answers(
                    resp@,
                    jrpc_req@.id,
                    outcome_view(outcome),
                ),
    {
        if !jrpc_req.has_current_version() {
            JrpcResponse::version_mismatch(jrpc_req.id)
        } else {
            let outcome = self.respond(jrpc_req.method.as_str(), jrpc_req.params);
            let ghost dispatched = outcome;
            let resp = JrpcResponse::from_outcome(jrpc_req.id, outcome);
            assert(self.responds(jrpc_req@.method, jrpc_req@.params, dispatched) && answers(
                resp@,
                jrpc_req@.id,
                outcome_view(dispatched),
            ));
            resp
        }
    }
}

/// Whether `resp` is a response that `service` may give to the raw request
/// `req`: the refusal of another protocol version, or else the report of an
/// outcome of the service for the request's method and arguments.
pub open spec fn responds_raw<S: RpcService>(
    service: &S,
    req: JrpcRequestView,
    resp: JrpcResponseView,
) -> bool {
    if req.jsonrpc != version() {
        is_protocol_error(resp, req.id, VERSION_MISMATCH, version_mismatch_message())
    } else {
        exists|outcome: Outcome|
            #![trigger service.responds(req.method, req.params, outcome)]
            service.responds(req.method, req.params, outcome) && answers(
                resp,
                req.id,
                outcome_view(outcome),
            )
    }
}

impl<T: RpcService + ?Sized> RpcService for Arc<T> {
    open spec fn responds(&self, method: Seq<char>, params: Seq<Value>, outcome: Outcome) -> bool {
        (**self).responds(method, params, outcome)
    }

    fn respond(&self, method: &str, params: Vec<Value>) -> (outcome: Outcome) {
        (**self).respond(method, params)
    }
}

} // verus!
