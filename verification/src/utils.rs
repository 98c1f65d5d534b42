//! Combinators over services and transports: fallback between two services,
//! a service backed by a function, and a transport whose error type is hidden
//! behind one dynamic error.

use crate::envelope::{JrpcRequest, JrpcRequestView, JrpcResponse, Outcome};
use crate::service::RpcService;
use crate::transport::RpcTransport;
use serde_json::Value;
use std::sync::Arc;
use vstd::prelude::*;

verus! {

/// `anyhow::Error`, opaque to the verifier. It is only handed on.
#[verifier::external_type_specification]
#[verifier::external_body]
pub struct ExAnyhowError(anyhow::Error);

/// Whether `outer` is `inner` with its error converted into the dynamic
/// error: a response stays as it is, and a failure becomes what its
/// conversion gives.
pub open spec fn converted<E: Into<anyhow::Error>>(
    inner: Result<JrpcResponse, E>,
    outer: Result<JrpcResponse, anyhow::Error>,
) -> bool {
    match inner {
        Ok(resp) => outer == Ok::<JrpcResponse, anyhow::Error>(resp),
        Err(e) => outer matches Err(x) && call_ensures(<E as Into<anyhow::Error>>::into, (e,), x),
    }
}

/// Whether `reply` is a reply of `transport` to `req` with its error
/// converted into the dynamic error.
pub open spec fn erased<T: RpcTransport>(
    transport: &T,
    req: JrpcRequestView,
    reply: Result<JrpcResponse, anyhow::Error>,
) -> bool where T::Error: Into<anyhow::Error> {
    exists|inner: Result<JrpcResponse, T::Error>|
        #![trigger transport.carries(req, inner)]
        transport.carries(req, inner) && converted(inner, reply)
}

/// A transport as a trait object sees it: no error type of its own.
trait ErasedTransport: Sync + Send + 'static {
    spec fn erased_carries(
        &self,
        req: JrpcRequestView,
        reply: Result<JrpcResponse, anyhow::Error>,
    ) -> bool;

    fn erased_call_raw(&self, req: JrpcRequest) -> (reply: Result<JrpcResponse, anyhow::Error>)
        ensures
            self.erased_carries(req@, reply),
    ;
}

/// A transport together with the conversion of its error.
struct Erasing<T: RpcTransport>(T);

impl<T: RpcTransport> ErasedTransport for Erasing<T> where T::Error: Into<anyhow::Error> {
    spec fn erased_carries(
        &self,
        req: JrpcRequestView,
        reply: Result<JrpcResponse, anyhow::Error>,
    ) -> bool {
        erased(&self.0, req, reply)
    }

    fn erased_call_raw(&self, req: JrpcRequest) -> (reply: Result<JrpcResponse, anyhow::Error>) {
        let inner = self.0.call_raw(req);
        let ghost carried = inner;
        let reply = match inner {
            Ok(resp) => Ok(resp),
            Err(e) => Err(e.into()),
        };
        assert(self.0.carries(req@, carried) && converted(carried, reply));
        reply
    }
}

/// A type-erased transport that uses `anyhow::Error` for transport errors.
///
/// It hides the concrete transport and its error type, so that transports of
/// different types can be held side by side.
pub struct DynRpcTransport {
    raw_caller: Box<dyn ErasedTransport>,
}

impl DynRpcTransport {
    /// Creates a dynamically-typed transport from a concrete transport.
    ///
    /// The new transport gives the replies of `t`, each failure converted into
    /// the dynamic error.
    pub fn new<T: RpcTransport>(t: T) -> (transport: Self) where T::Error: Into<anyhow::Error>
        ensures
            forall|req: JrpcRequestView, reply: Result<JrpcResponse, anyhow::Error>|
                #[trigger] transport.carries(req, reply) <==> erased(&t, req, reply),
    {
        let ghost inner = Erasing(t);
        let transport = DynRpcTransport { raw_caller: Box::new(Erasing(t)) };
        assert forall|req: JrpcRequestView, reply: Result<JrpcResponse, anyhow::Error>|
            #[trigger] transport.carries(req, reply) <==> erased(&t, req, reply) by {
            assert(transport.raw_caller.erased_carries(req, reply) == inner.erased_carries(
                req,
                reply,
            ));
        }
        transport
    }
}

impl RpcTransport for DynRpcTransport {
    type Error = anyhow::Error;

    closed spec fn carries(
        &self,
        req: JrpcRequestView,
        reply: Result<JrpcResponse, Self::Error>,
    ) -> bool {
        self.raw_caller.erased_carries(req, reply)
    }

    fn call_raw(&self, req: JrpcRequest) -> (reply: Result<JrpcResponse, Self::Error>) {
        self.raw_caller.erased_call_raw(req)
    }
}

/// A service that tries one service and falls back to another.
///
/// If the first service does not know the method, the second gets the same
/// call. Otherwise the second is not asked.
pub struct OrService<T: RpcService, U: RpcService>(T, U);

impl<T: RpcService, U: RpcService> OrService<T, U> {
    /// The service that is asked first.
    pub closed spec fn first(&self) -> T {
        self.0
    }

    /// The service that is asked where the first does not know the method.
    pub closed spec fn second(&self) -> U {
        self.1
    }

    /// Creates a new `OrService`.
    pub fn new(t: T, u: U) -> (service: Self)
        ensures
            service.first() == t,
            service.second() == u,
    {
        OrService(t, u)
    }
}

impl<T: RpcService, U: RpcService> RpcService for OrService<T, U> {
    /// An outcome is either one of the first service that resolves the
    /// method, or one of the second service where the first may give `None`.
    open spec fn responds(&self, method: Seq<char>, params: Seq<Value>, outcome: Outcome) -> bool {
        ||| outcome is Some && self.first().responds(method, params, outcome)
        ||| self.first().responds(method, params, None) && self.second().responds(
            method,
            params,
            outcome,
        )
    }

    fn respond(&self, method: &str, params: Vec<Value>) -> (outcome: Outcome) {
        let copy = params.clone();
        assert(copy@ =~= params@);
        if let Some(res) = self.0.respond(method, copy) {
            Some(res)
        } else {
            self.1.respond(method, params)
        }
    }
}

/// Where the first service resolves the method, the fallback gives an
/// outcome of the first service, and what the second service would say does
/// not matter.
pub proof fn law_or_prefers_first<T: RpcService, U: RpcService>(
    service: OrService<T, U>,
    method: Seq<char>,
    params: Seq<Value>,
    outcome: Outcome,
)
    requires
        service.responds(method, params, outcome),
        !service.first().responds(method, params, None),
    ensures
        outcome is Some,
        service.first().responds(method, params, outcome),
{
}

/// Where the first service does not resolve the method, the fallback gives
/// an outcome of the second service for the same call.
pub proof fn law_or_falls_back<T: RpcService, U: RpcService>(
    service: OrService<T, U>,
    method: Seq<char>,
    params: Seq<Value>,
    outcome: Outcome,
)
    requires
        service.responds(method, params, outcome),
        forall|first: Outcome| #[trigger]
            service.first().responds(method, params, first) ==> first is None,
    ensures
        service.second().responds(method, params, outcome),
{
}

/// Every outcome with which the first service resolves a method is an
/// outcome of the fallback, and so is every outcome of the second service
/// where the first may decline.
pub proof fn law_or_gives_both<T: RpcService, U: RpcService>(
    service: OrService<T, U>,
    method: Seq<char>,
    params: Seq<Value>,
    outcome: Outcome,
)
    requires
        service.first().responds(method, params, outcome) && outcome is Some
            || service.first().responds(method, params, None) && service.second().responds(
            method,
            params,
            outcome,
        ),
    ensures
        service.responds(method, params, outcome),
{
}

/// Another pointer to a shared value.
///
/// Trusted: calls `Arc::clone` of the standard library, which gives another
/// pointer to the same value, so what the copy points to is what the first
/// points to.
#[verifier::external_body]
fn share<T>(this: &Arc<T>) -> (copy: Arc<T>)
    ensures
        copy == *this,
{
    Arc::clone(this)
}

/// Whether `outcome` is what the function `f` may return for `method` and
/// `params`.
pub open spec fn returned_by<F: Fn(&str, Vec<Value>) -> Outcome>(
    f: F,
    method: Seq<char>,
    params: Seq<Value>,
    outcome: Outcome,
) -> bool {
    exists|m: &str, p: Vec<Value>|
        #![trigger call_ensures(f, (m, p), outcome)]
        m@ == method && p@ == params && call_ensures(f, (m, p), outcome)
}

/// A service as a trait object sees it.
trait ErasedService: Sync + Send + 'static {
    spec fn erased_responds(&self, method: Seq<char>, params: Seq<Value>, outcome: Outcome) -> bool;

    fn erased_respond(&self, method: &str, params: Vec<Value>) -> (outcome: Outcome)
        ensures
            self.erased_responds(method@, params@, outcome),
    ;
}

/// A function that takes every method name and every list of arguments.
struct Calling<F: Fn(&str, Vec<Value>) -> Outcome + Sync + Send + 'static>(F);

impl<F: Fn(&str, Vec<Value>) -> Outcome + Sync + Send + 'static> Calling<F> {
    #[verifier::type_invariant]
    spec fn callable(self) -> bool {
        forall|method: &str, params: Vec<Value>| call_requires(self.0, (method, params))
    }

    spec fn function(self) -> F {
        self.0
    }
}

impl<F: Fn(&str, Vec<Value>) -> Outcome + Sync + Send + 'static> ErasedService for Calling<F> {
    spec fn erased_responds(&self, method: Seq<char>, params: Seq<Value>, outcome: Outcome) -> bool {
        returned_by(self.function(), method, params, outcome)
    }

    fn erased_respond(&self, method: &str, params: Vec<Value>) -> (outcome: Outcome) {
        proof {
            use_type_invariant(self);
        }
        let outcome = (self.0)(method, params);
        assert(call_ensures(self.function(), (method, params), outcome));
        outcome
    }
}

/// A function behind a trait object.
struct Held {
    caller: Box<dyn ErasedService>,
}

/// A service backed by a function or closure.
///
/// It hides the type of the function, so that services backed by different
/// functions can be held side by side, and it shares the function with its
/// copies.
pub struct FnService(Arc<Held>);

impl FnService {
    /// Creates a new function-backed service. The function has to take every
    /// method name and every list of arguments.
    ///
    /// The outcomes of the service are what the function may return.
    pub fn new<F: Fn(&str, Vec<Value>) -> Outcome + Sync + Send + 'static>(f: F) -> (service: Self)
        requires
            forall|method: &str, params: Vec<Value>| call_requires(f, (method, params)),
        ensures
            forall|method: Seq<char>, params: Seq<Value>, outcome: Outcome|
                #[trigger] service.responds(method, params, outcome) <==> returned_by(
                    f,
                    method,
                    params,
                    outcome,
                ),
    {
        let ghost inner = Calling(f);
        let service = FnService(Arc::new(Held { caller: Box::new(Calling(f)) }));
        assert forall|method: Seq<char>, params: Seq<Value>, outcome: Outcome|
            #[trigger] service.responds(method, params, outcome) <==> returned_by(
                f,
                method,
                params,
                outcome,
            ) by {
            assert(service.0.caller.erased_responds(method, params, outcome)
                == inner.erased_responds(
                method,
                params,
                outcome,
            ));
        }
        service
    }
}

impl Clone for FnService {
    /// The copy shares the function with the service it is made from, and
    /// responds as that service does.
    fn clone(&self) -> (copy: Self)
        ensures
            forall|method: Seq<char>, params: Seq<Value>, outcome: Outcome|
                #[trigger] copy.responds(method, params, outcome) <==> self.responds(
                    method,
                    params,
                    outcome,
                ),
    {
        FnService(share(&self.0))
    }
}

impl RpcService for FnService {
    /// An outcome is what the function behind the service may return for the
    /// method and the arguments.
    closed spec fn responds(&self, method: Seq<char>, params: Seq<Value>, outcome: Outcome) -> bool {
        self.0.caller.erased_responds(method, params, outcome)
    }

    fn respond(&self, method: &str, params: Vec<Value>) -> (outcome: Outcome) {
        self.0.caller.erased_respond(method, params)
    }
}

} // verus!
