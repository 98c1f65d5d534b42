//! The client side of the dispatch runtime: from a method name and arguments
//! to the outcome that the remote side reported, over whatever moves one
//! request and brings back one response.

use crate::decimal::{decimal, push_decimal};
use crate::envelope::{
    outcome_view, version, JrpcId, JrpcIdView, JrpcRequest, JrpcRequestView, JrpcResponse,
    JrpcResponseView, Outcome, OutcomeView, ServerError, ServerErrorView, VERSION_MISMATCH,
};
use crate::json::{is_null, null, to_value};
use serde_json::Value;
use std::sync::Arc;
use vstd::prelude::*;

verus! {

/// The id of the request that the nonce `nonce` gives: `req-` and the nonce
/// in decimal.
pub open spec fn request_id(nonce: u64) -> Seq<char> {
    "req-"@ + decimal(nonce as nat)
}

/// The request that calls `method` with `params` under the nonce `nonce`.
pub open spec fn call_request(nonce: u64, method: Seq<char>, params: Seq<Value>) -> JrpcRequestView {
    JrpcRequestView {
        jsonrpc: version(),
        method,
        params,
        id: JrpcIdView::String(request_id(nonce)),
    }
}

/// Whether `outcome` is what the response `resp` reports.
///
/// A result is a success, whatever else the response holds. Without a result,
/// the error `VERSION_MISMATCH` reads as a missing method, and any other error
/// as a failure of the method, its code cut down to 32 bits. A response with
/// neither reports the value `null`.
pub open spec fn interprets(resp: JrpcResponseView, outcome: OutcomeView) -> bool {
    match (resp.result, resp.error) {
        (Some(value), _) => outcome == Some(Ok::<Value, ServerErrorView>(value)),
        (None, Some(e)) => if e.code == VERSION_MISMATCH {
            outcome is None
        } else {
            outcome == Some(
                Err::<Value, ServerErrorView>(
                    ServerErrorView { code: e.code as u32, message: e.message, details: e.data },
                ),
            )
        },
        (None, None) => outcome matches Some(Ok(value)) && is_null(value),
    }
}

/// Whether `answer` is what a call makes of the transport's `reply`: the
/// outcome that a response reports, or the transport's own failure.
pub open spec fn completes<E>(reply: Result<JrpcResponse, E>, answer: Result<Outcome, E>) -> bool {
    match reply {
        Ok(resp) => answer matches Ok(outcome) && interprets(resp@, outcome_view(outcome)),
        Err(e) => answer == Err::<Outcome, E>(e),
    }
}

/// A random 64-bit number.
///
/// Trusted: calls `fastrand::u64` on the full range, which is never empty.
/// Nothing is known of the number.
#[verifier::external_body]
fn random_u64() -> u64 {
    fastrand::u64(..)
}

impl JrpcRequest {
    /// The request that calls `method` with `params` under the nonce `nonce`.
    pub fn for_call(nonce: u64, method: &str, params: &[Value]) -> (req: JrpcRequest)
        ensures
            req@ == call_request(nonce, method@, params@),
    {
        let mut reqid = "req-".to_owned();
        push_decimal(&mut reqid, nonce);
        let mut copied: Vec<Value> = Vec::new();
        let mut i: usize = 0;
        while i < params.len()
            invariant
                i <= params.len(),
                copied@ == params@.subrange(0, i as int),
            decreases params.len() - i,
        {
            match to_value(&params[i]) {
                Ok(value) => {
                    copied.push(value);
                },
                Err(_) => {
                    vstd::pervasive::unreached::<()>();
                },
            }
            i += 1;
        }
        assert(copied@ == params@);
        JrpcRequest {
            jsonrpc: "2.0".to_owned(),
            id: JrpcId::String(reqid),
            method: method.to_owned(),
            params: copied,
        }
    }
}

impl JrpcRequest {
    /// A request that calls `method` with `params` under a random nonce.
    pub fn for_new_call(method: &str, params: &[Value]) -> (req: JrpcRequest)
        ensures
            exists|nonce: u64| req@ == #[trigger] call_request(nonce, method@, params@),
    {
        let nonce = random_u64();
        JrpcRequest::for_call(nonce, method, params)
    }
}

impl JrpcResponse {
    /// The outcome that this response reports.
    pub fn into_outcome(self) -> (outcome: Outcome)
        ensures
            interprets(self@, outcome_view(outcome)),
    {
        match self.result {
            Some(value) => Some(Ok(value)),
            None => match self.error {
                Some(e) => {
                    if e.code == VERSION_MISMATCH {
                        None
                    } else {
                        Some(
                            Err(
                                ServerError {
                                    code: #[verifier::truncate]
                                    (e.code as u32),
                                    message: e.message,
                                    details: e.data,
                                },
                            ),
                        )
                    }
                },
                None => Some(Ok(null())),
            },
        }
    }
}

/// Client-side transport for sending JSON-RPC requests.
///
/// An implementor moves one raw request to the remote side and brings back
/// one raw response or its own failure, and says in `carries` which replies it
/// may give. `call` does the rest.
pub trait RpcTransport: Sync + Send + 'static {
    /// A transport-level failure, such as a communication error.
    type Error: Sync + Send + 'static;

    /// Whether `reply` is a reply this transport may give to `req`.
    ///
    /// Unless an implementor says more, any reply is possible.
    open spec fn carries(&self, req: JrpcRequestView, reply: Result<JrpcResponse, Self::Error>) -> bool {
        true
    }

    /// Sends a raw request to the remote side and returns its raw response.
    fn call_raw(&self, req: JrpcRequest) -> (reply: Result<JrpcResponse, Self::Error>)
        ensures
            self.carries(req@, reply),
    ;

    /// Calls `method` with `params` on the remote side.
    ///
    /// Exactly one request goes out: it names the current protocol version,
    /// `method` and `params` as given, and a string id made from a random
    /// nonce. `Ok(None)` says that the transport worked and the method does
    /// not exist.
    fn call(&self, method: &str, params: &[Value]) -> (answer: Result<Outcome, Self::Error>)
        ensures
            exists|nonce: u64, reply: Result<JrpcResponse, Self::Error>|
                self.carries(call_request(nonce, method@, params@), reply) && completes(
                    reply,
                    answer,
                ),
    {
        let req = JrpcRequest::for_new_call(method, params);
        let ghost nonce = choose|nonce: u64| req@ == #[trigger] call_request(nonce, method@, params@);
        let reply = self.call_raw(req);
        let ghost carried = reply;
        let answer = match reply {
            Ok(resp) => Ok(resp.into_outcome()),
            Err(e) => Err(e),
        };
        assert(self.carries(call_request(nonce, method@, params@), carried) && completes(
            carried,
            answer,
        ));
        answer
    }
}

impl<T: RpcTransport + ?Sized> RpcTransport for Arc<T> {
    type Error = T::Error;

    open spec fn carries(&self, req: JrpcRequestView, reply: Result<JrpcResponse, Self::Error>) -> bool {
        (**self).carries(req, reply)
    }

    fn call_raw(&self, req: JrpcRequest) -> (reply: Result<JrpcResponse, Self::Error>) {
        (**self).call_raw(req)
    }
}

impl<T: RpcTransport + ?Sized> RpcTransport for Box<T> {
    type Error = T::Error;

    open spec fn carries(&self, req: JrpcRequestView, reply: Result<JrpcResponse, Self::Error>) -> bool {
        (**self).carries(req, reply)
    }

    fn call_raw(&self, req: JrpcRequest) -> (reply: Result<JrpcResponse, Self::Error>) {
        (**self).call_raw(req)
    }
}

} // verus!
