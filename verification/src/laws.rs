//! What holds across the two sides of a transport.

use crate::decimal::{decimal, lemma_decimal_injective};
use crate::envelope::{
    method_not_found_message, outcome_view, version_mismatch_message, JrpcIdView, JrpcRequestView,
    JrpcResponse, JrpcResponseView, Outcome, OutcomeView, ServerErrorView, VERSION_MISMATCH,
};
use crate::json::is_null;
use crate::proxy::called;
use crate::service::{answers, is_protocol_error, responds_raw, RpcService};
use crate::transport::{call_request, completes, interprets, request_id, RpcTransport};
use serde_json::Value;
use vstd::prelude::*;

verus! {

/// The code that a client reads for a failure of a served method.
pub const APPLICATION_FAILURE_AS_READ: u32 = 0xffff_ffff;

/// The code that a client reads for a method that nobody serves.
pub const METHOD_NOT_FOUND_AS_READ: u32 = 0xffff_80a7;

/// Whether `read` is what a client reads of the dispatch outcome `outcome`
/// after it went over the wire.
///
/// A value comes back as it was. A failure comes back with its message and
/// its details, and with the code `APPLICATION_FAILURE_AS_READ` in place of
/// its own. A missing method comes back as a failure with the code
/// `METHOD_NOT_FOUND_AS_READ`, not as a missing method.
pub open spec fn reads_back(outcome: OutcomeView, read: OutcomeView) -> bool {
    match outcome {
        Some(Ok(value)) => read == Some(Ok::<Value, ServerErrorView>(value)),
        Some(Err(e)) => read == Some(
            Err::<Value, ServerErrorView>(
                ServerErrorView {
                    code: APPLICATION_FAILURE_AS_READ,
                    message: e.message,
                    details: e.details,
                },
            ),
        ),
        None => {
            &&& read matches Some(Err(e))
            &&& e.code == METHOD_NOT_FOUND_AS_READ
            &&& e.message == method_not_found_message()
            &&& is_null(e.details)
        },
    }
}

/// A client reads the outcome that a response reports as `reads_back` says:
/// values and the details of failures survive the wire, codes do not.
pub proof fn law_reported_outcome_is_read_back(
    resp: JrpcResponseView,
    id: JrpcIdView,
    outcome: OutcomeView,
    read: OutcomeView,
)
    requires
        answers(resp, id, outcome),
        interprets(resp, read),
    ensures
        reads_back(outcome, read),
{
    assert((-1i64) as u32 == 0xffff_ffffu32) by (bit_vector);
    assert((-32601i64) as u32 == 0xffff_80a7u32) by (bit_vector);
}

/// A client reads the refusal of a protocol version as a missing method.
pub proof fn law_version_mismatch_reads_as_missing(
    resp: JrpcResponseView,
    id: JrpcIdView,
    read: OutcomeView,
)
    requires
        is_protocol_error(resp, id, VERSION_MISMATCH, version_mismatch_message()),
        interprets(resp, read),
    ensures
        read is None,
{
}

/// Different nonces give different request ids.
pub proof fn law_request_ids_differ(a: u64, b: u64)
    requires
        a != b,
    ensures
        request_id(a) != request_id(b),
{
    if request_id(a) == request_id(b) {
        reveal_strlit("req-");
        assert(request_id(a).subrange(4, request_id(a).len() as int) =~= decimal(a as nat));
        assert(request_id(b).subrange(4, request_id(b).len() as int) =~= decimal(b as nat));
        lemma_decimal_injective(a as nat, b as nat);
    }
}

/// A call over a transport that carries each request to a service and the
/// service's response back gives what the client reads of an outcome of that
/// service for the method and the arguments of the call.
pub proof fn law_call_reaches_service<S: RpcService, T: RpcTransport>(
    service: S,
    transport: T,
    method: Seq<char>,
    params: Seq<Value>,
    answer: Result<Outcome, T::Error>,
)
    requires
        forall|req: JrpcRequestView, reply: Result<JrpcResponse, T::Error>| #[trigger]
            transport.carries(req, reply) ==> reply is Ok && responds_raw(
                &service,
                req,
                reply->Ok_0@,
            ),
        called(&transport, method, params, answer),
    ensures
        answer matches Ok(read) && exists|outcome: Outcome|
            #![trigger service.responds(method, params, outcome)]
            service.responds(method, params, outcome) && reads_back(
                outcome_view(outcome),
                outcome_view(read),
            ),
{
    let (nonce, reply) = choose|nonce: u64, reply: Result<JrpcResponse, T::Error>|
        #![trigger transport.carries(call_request(nonce, method, params), reply)]
        transport.carries(call_request(nonce, method, params), reply) && completes(reply, answer);
    let req = call_request(nonce, method, params);
    let resp = reply->Ok_0;
    assert(responds_raw(&service, req, resp@));
    let outcome = choose|outcome: Outcome|
        #![trigger service.responds(req.method, req.params, outcome)]
        service.responds(req.method, req.params, outcome) && answers(
            resp@,
            req.id,
            outcome_view(outcome),
        );
    law_reported_outcome_is_read_back(
        resp@,
        req.id,
        outcome_view(outcome),
        outcome_view(answer->Ok_0),
    );
}

} // verus!
