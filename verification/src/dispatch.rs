//! The dispatcher that a compiled interface gives: it resolves the method
//! name, decodes the arguments in order, hands them to the business logic and
//! reports what comes back.

use crate::decimal::{decimal, push_decimal};
use crate::envelope::{Outcome, ServerError, ServerErrorView};
use crate::interface::Protocol;
use crate::json::{is_null, null};
use crate::service::RpcService;
use serde_json::Value;
use vstd::prelude::*;
use vstd::string::StringExecFns;

verus! {

/// The code of every error that the dispatcher itself makes.
pub const DISPATCH_FAILURE: u32 = 1;

/// The failure arm of a method, as the business logic hands it over: its
/// rendering as text and its encoding as a value.
#[derive(Clone, Debug, PartialEq, Eq)]
pub struct Failure {
    pub message: String,
    pub details: Value,
}

/// How the arguments of an interface's methods are decoded.
///
/// Methods are named by their place in the interface. An implementor decodes
/// one argument at a time, and in `decodes` it says what that may give.
pub trait ArgDecoder: Sync + Send + 'static {
    /// A decoded argument.
    type Arg;

    /// Whether decoding `value` as the argument at `position` of `method` may
    /// give `arg`, where `None` says that the value is malformed.
    ///
    /// Unless an implementor says more, any decoding is possible.
    open spec fn decodes(
        &self,
        method: int,
        position: int,
        value: Value,
        arg: Option<Self::Arg>,
    ) -> bool {
        true
    }

    /// Decodes `value` as the argument at `position` of `method`.
    fn decode_arg(&self, method: usize, position: usize, value: &Value) -> (arg: Option<Self::Arg>)
        ensures
            self.decodes(method as int, position as int, *value, arg),
    ;
}

/// The business logic behind an interface.
///
/// An implementor runs a method on decoded arguments and encodes what the
/// method returns. Methods without a failure arm are run by `call`, and
/// `yields` says what that may give; methods with a failure arm are run by
/// `try_call`, and `tries` says what that may give.
pub trait Handler: ArgDecoder {
    /// Whether running `method`, which has no failure arm, on `args` may
    /// give the encoded return value `value`.
    ///
    /// Unless an implementor says more, any value is possible.
    open spec fn yields(&self, method: int, args: Seq<Self::Arg>, value: Value) -> bool {
        true
    }

    /// Runs a method that has no failure arm and encodes what it returns.
    fn call(&self, method: usize, args: Vec<Self::Arg>) -> (value: Value)
        ensures
            self.yields(method as int, args@, value),
    ;

    /// Whether running `method`, which has a failure arm, on `args` may give
    /// `ret`: the encoded success arm or the failure arm.
    ///
    /// Unless an implementor says more, any return is possible.
    open spec fn tries(&self, method: int, args: Seq<Self::Arg>, ret: Result<Value, Failure>) -> bool {
        true
    }

    /// Runs a method that has a failure arm and encodes the arm it returns.
    fn try_call(&self, method: usize, args: Vec<Self::Arg>) -> (ret: Result<Value, Failure>)
        ensures
            self.tries(method as int, args@, ret),
    ;
}

/// The message of the error for a malformed argument at `position`.
pub open spec fn decode_failure_message(position: nat) -> Seq<char> {
    "deserialization of argument "@ + decimal(position) + " failed"@
}

/// Whether `e` is the error for a malformed argument at `position`.
pub open spec fn is_decode_failure(e: ServerErrorView, position: nat) -> bool {
    &&& e.code == DISPATCH_FAILURE
    &&& e.message == decode_failure_message(position)
    &&& is_null(e.details)
}

/// The error that reports the failure arm `failure`.
pub open spec fn failure_error(failure: Failure) -> ServerErrorView {
    ServerErrorView { code: DISPATCH_FAILURE, message: failure.message@, details: failure.details }
}

/// Whether `result` reports what a method returned.
pub open spec fn reports(ret: Result<Value, Failure>, result: Result<Value, ServerError>) -> bool {
    match ret {
        Ok(value) => result == Ok::<Value, ServerError>(value),
        Err(failure) => result matches Err(e) && e@ == failure_error(failure),
    }
}

/// Whether `args` are decodings of the first `args.len()` of `params`, each
/// at its own position.
pub open spec fn decoded<H: ArgDecoder>(
    handler: &H,
    method: int,
    params: Seq<Value>,
    args: Seq<H::Arg>,
) -> bool {
    &&& args.len() <= params.len()
    &&& forall|i: int|
        0 <= i < args.len() ==> handler.decodes(method, i, params[i], Some(#[trigger] args[i]))
}

/// Whether decoding stops behind `args`: the next argument is missing or
/// malformed.
pub open spec fn stops<H: ArgDecoder>(
    handler: &H,
    method: int,
    params: Seq<Value>,
    args: Seq<H::Arg>,
) -> bool {
    args.len() >= params.len() || handler.decodes(
        method,
        args.len() as int,
        params[args.len() as int],
        None,
    )
}

/// Whether `decoding` is what decoding the first `arity` of `params` may
/// give: all of them decoded, or the error for the first one that is missing
/// or malformed.
pub open spec fn decodes_args<H: ArgDecoder>(
    handler: &H,
    method: int,
    arity: nat,
    params: Seq<Value>,
    decoding: Result<Vec<H::Arg>, ServerError>,
) -> bool {
    match decoding {
        Ok(args) => args@.len() == arity && decoded(handler, method, params, args@),
        Err(e) => exists|args: Seq<H::Arg>|
            #![trigger decoded(handler, method, params, args)]
            {
                &&& args.len() < arity
                &&& decoded(handler, method, params, args)
                &&& stops(handler, method, params, args)
                &&& is_decode_failure(e@, args.len())
            },
    }
}

/// The error for a malformed argument at `position`.
pub fn decode_failure(position: usize) -> (e: ServerError)
    ensures
        is_decode_failure(e@, position as nat),
{
    let mut message = "deserialization of argument ".to_owned();
    push_decimal(&mut message, position as u64);
    message.append(" failed");
    ServerError { code: DISPATCH_FAILURE, message, details: null() }
}

/// Decodes the first `arity` of `params` in order, and stops at the first
/// that is missing or malformed. Arguments behind it are not looked at, nor
/// are those beyond `arity`.
pub fn decode_args<H: ArgDecoder>(handler: &H, method: usize, arity: usize, params: &Vec<Value>) -> (decoding:
    Result<Vec<H::Arg>, ServerError>)
    ensures
        decodes_args(handler, method as int, arity as nat, params@, decoding),
{
    let mut args: Vec<H::Arg> = Vec::new();
    let mut i: usize = 0;
    while i < arity
        invariant
            i <= arity,
            args@.len() == i,
            decoded(handler, method as int, params@, args@),
        decreases arity - i,
    {
        if i >= params.len() {
            let e = decode_failure(i);
            assert(stops(handler, method as int, params@, args@));
            return Err(e);
        }
        match handler.decode_arg(method, i, &params[i]) {
            Some(arg) => {
                args.push(arg);
            },
            None => {
                let e = decode_failure(i);
                assert(stops(handler, method as int, params@, args@));
                return Err(e);
            },
        }
        i += 1;
    }
    Ok(args)
}

/// Reports what a method returned: a value as it is, a failure arm as an
/// error with the code `DISPATCH_FAILURE`, the arm's rendering and its
/// encoding.
pub fn report(ret: Result<Value, Failure>) -> (result: Result<Value, ServerError>)
    ensures
        reports(ret, result),
{
    match ret {
        Ok(value) => Ok(value),
        Err(failure) => Err(
            ServerError {
                code: DISPATCH_FAILURE,
                message: failure.message,
                details: failure.details,
            },
        ),
    }
}

/// What a dispatcher does with a call, once the name is resolved and the
/// arguments are decoded.
#[derive(Debug)]
pub enum Plan<A> {
    /// No method has the name: the call is answered with `None`.
    Unknown,
    /// An argument is missing or malformed: the call is answered with this
    /// error, and the business logic is not run.
    Refuse(ServerError),
    /// The method at this place has no failure arm and is run on these
    /// arguments.
    Call(usize, Vec<A>),
    /// The method at this place has a failure arm and is run on these
    /// arguments.
    TryCall(usize, Vec<A>),
}

/// Whether `plan` is what a call of `name` with `params` comes to.
///
/// A name that no method has is unknown. Any other call goes to the first
/// method of that name. It is refused with the error of the first of the
/// method's arguments that is missing or malformed, if there is one.
/// Otherwise the method is run on as many decoded arguments as it takes, by
/// the entry for methods with a failure arm or by the one for methods
/// without.
pub open spec fn plans<D: ArgDecoder>(
    protocol: &Protocol,
    decoder: &D,
    name: Seq<char>,
    params: Seq<Value>,
    plan: Plan<D::Arg>,
) -> bool {
    match plan {
        Plan::Unknown => !protocol@.has_method(name),
        Plan::Refuse(e) => exists|m: int, args: Seq<D::Arg>|
            #![trigger protocol@.resolves(name, m), decoded(decoder, m, params, args)]
            {
                &&& protocol@.resolves(name, m)
                &&& args.len() < protocol@.methods[m].arity
                &&& decoded(decoder, m, params, args)
                &&& stops(decoder, m, params, args)
                &&& is_decode_failure(e@, args.len())
            },
        Plan::Call(m, args) => {
            &&& protocol@.resolves(name, m as int)
            &&& !protocol@.methods[m as int].fallible
            &&& args@.len() == protocol@.methods[m as int].arity
            &&& decoded(decoder, m as int, params, args@)
        },
        Plan::TryCall(m, args) => {
            &&& protocol@.resolves(name, m as int)
            &&& protocol@.methods[m as int].fallible
            &&& args@.len() == protocol@.methods[m as int].arity
            &&& decoded(decoder, m as int, params, args@)
        },
    }
}

/// Resolves the name of a call and decodes its arguments.
pub fn plan<D: ArgDecoder>(protocol: &Protocol, decoder: &D, name: &str, params: &Vec<Value>) -> (plan:
    Plan<D::Arg>)
    ensures
        plans(protocol, decoder, name@, params@, plan),
{
    match protocol.lookup(name) {
        None => Plan::Unknown,
        Some(m) => {
            let arity = protocol.methods[m].arity;
            let fallible = protocol.methods[m].fallible;
            assert(protocol@.methods[m as int] == protocol.methods@[m as int]@);
            match decode_args(decoder, m, arity, params) {
                Err(e) => {
                    let ghost stopped = choose|args: Seq<D::Arg>|
                        #![trigger decoded(decoder, m as int, params@, args)]
                        {
                            &&& args.len() < arity
                            &&& decoded(decoder, m as int, params@, args)
                            &&& stops(decoder, m as int, params@, args)
                            &&& is_decode_failure(e@, args.len())
                        };
                    assert(protocol@.resolves(name@, m as int) && decoded(
                        decoder,
                        m as int,
                        params@,
                        stopped,
                    ));
                    Plan::Refuse(e)
                },
                Ok(args) => {
                    if fallible {
                        Plan::TryCall(m, args)
                    } else {
                        Plan::Call(m, args)
                    }
                },
            }
        },
    }
}

/// The dispatcher of a compiled interface over one instance of its business
/// logic.
pub struct ProtocolService<H: Handler> {
    pub protocol: Protocol,
    pub handler: H,
}

impl<H: Handler> ProtocolService<H> {
    /// The dispatcher of `protocol` over `handler`.
    pub fn new(protocol: Protocol, handler: H) -> (service: Self)
        ensures
            service.protocol == protocol,
            service.handler == handler,
    {
        ProtocolService { protocol, handler }
    }

    /// Whether `result` is what serving the method at `method` with `params`
    /// gives once `args` are decoded: if they are fewer than the method
    /// takes, decoding stopped behind them and the result is the error for
    /// the next argument; otherwise they are all the method takes. A method
    /// with a failure arm is then run by `try_call` and the result reports
    /// what that returned; a method without is run by `call` and the result
    /// is the value that returned.
    pub open spec fn serves_with(
        &self,
        method: int,
        params: Seq<Value>,
        args: Seq<H::Arg>,
        result: Result<Value, ServerError>,
    ) -> bool {
        let entry = self.protocol@.methods[method];
        &&& decoded(&self.handler, method, params, args)
        &&& if args.len() < entry.arity {
            &&& stops(&self.handler, method, params, args)
            &&& result matches Err(e)
            &&& is_decode_failure(e@, args.len())
        } else if entry.fallible {
            &&& args.len() == entry.arity
            &&& exists|ret: Result<Value, Failure>|
                #![trigger self.handler.tries(method, args, ret)]
                self.handler.tries(method, args, ret) && reports(ret, result)
        } else {
            &&& args.len() == entry.arity
            &&& result matches Ok(value)
            &&& self.handler.yields(method, args, value)
        }
    }

    /// Whether `result` is what serving the method at `method` with `params`
    /// may give: the error of the first argument that cannot be decoded, or
    /// else the report of what the business logic returned for the decoded
    /// arguments.
    pub open spec fn serves(
        &self,
        method: int,
        params: Seq<Value>,
        result: Result<Value, ServerError>,
    ) -> bool {
        exists|args: Seq<H::Arg>| #[trigger] self.serves_with(method, params, args, result)
    }

    /// Whether `outcome` is what a call of `name` with `params` may give when
    /// it goes to the method at `method`.
    pub open spec fn dispatches(
        &self,
        name: Seq<char>,
        method: int,
        params: Seq<Value>,
        outcome: Outcome,
    ) -> bool {
        &&& self.protocol@.resolves(name, method)
        &&& outcome matches Some(result)
        &&& self.serves(method, params, result)
    }
}

impl<H: Handler> RpcService for ProtocolService<H> {
    /// A call of a name that no method has gives `None`. Any other call goes
    /// to the first method of that name and gives what serving it gives.
    open spec fn responds(&self, method: Seq<char>, params: Seq<Value>, outcome: Outcome) -> bool {
        if self.protocol@.has_method(method) {
            exists|m: int| #[trigger] self.dispatches(method, m, params, outcome)
        } else {
            outcome is None
        }
    }

    fn respond(&self, method: &str, params: Vec<Value>) -> (outcome: Outcome)
        ensures
            outcome is Some <==> self.protocol@.has_method(method@),
    {
        match plan(&self.protocol, &self.handler, method, &params) {
            Plan::Unknown => None,
            Plan::Refuse(e) => {
                proof {
                    let (m, stopped) = choose|m: int, args: Seq<H::Arg>|
                        #![trigger self.protocol@.resolves(method@, m), decoded(&self.handler, m, params@, args)]
                        {
                            &&& self.protocol@.resolves(method@, m)
                            &&& args.len() < self.protocol@.methods[m].arity
                            &&& decoded(&self.handler, m, params@, args)
                            &&& stops(&self.handler, m, params@, args)
                            &&& is_decode_failure(e@, args.len())
                        };
                    assert(self.serves_with(m, params@, stopped, Err(e)));
                    assert(self.dispatches(method@, m, params@, Some(Err(e))));
                }
                Some(Err(e))
            },
            Plan::Call(m, args) => {
                let ghost handed = args@;
                let value = self.handler.call(m, args);
                let result = report(Ok(value));
                assert(self.handler.yields(m as int, handed, value));
                assert(self.serves_with(m as int, params@, handed, result));
                assert(self.dispatches(method@, m as int, params@, Some(result)));
                Some(result)
            },
            Plan::TryCall(m, args) => {
                let ghost handed = args@;
                let ret = self.handler.try_call(m, args);
                let result = report(ret);
                assert(self.handler.tries(m as int, handed, ret));
                assert(self.serves_with(m as int, params@, handed, result));
                assert(self.dispatches(method@, m as int, params@, Some(result)));
                Some(result)
            },
        }
    }
}

/// Whether every one of the first `arity` of `params` is there and cannot be
/// taken for malformed.
pub open spec fn well_formed_args<H: ArgDecoder>(
    handler: &H,
    method: int,
    arity: nat,
    params: Seq<Value>,
) -> bool {
    &&& arity <= params.len()
    &&& forall|i: int|
        0 <= i < arity ==> !#[trigger] handler.decodes(method, i, params[i], None::<H::Arg>)
}

/// Whether the argument at `position` is missing or cannot be decoded.
pub open spec fn malformed_arg<H: ArgDecoder>(
    handler: &H,
    method: int,
    position: int,
    params: Seq<Value>,
) -> bool {
    position >= params.len() || forall|arg: H::Arg|
        !#[trigger] handler.decodes(method, position, params[position], Some(arg))
}

/// A name resolves to at most one method.
pub proof fn law_resolution_is_unique(protocol: Protocol, name: Seq<char>, i: int, j: int)
    requires
        protocol@.resolves(name, i),
        protocol@.resolves(name, j),
    ensures
        i == j,
{
    if i < j {
        assert(protocol@.methods[i].name != name);
    } else if j < i {
        assert(protocol@.methods[j].name != name);
    }
}

/// Where no two methods share a name, a call goes to the one method of that
/// name.
pub proof fn law_unique_names_resolve(protocol: Protocol, name: Seq<char>, i: int)
    requires
        protocol@.has_unique_names(),
        0 <= i < protocol@.methods.len(),
        protocol@.methods[i].name == name,
    ensures
        protocol@.resolves(name, i),
{
    assert forall|j: int| 0 <= j < i implies (#[trigger] protocol@.methods[j]).name != name by {
        assert(protocol@.methods[j].name != protocol@.methods[i].name);
    }
}

impl<H: Handler> ProtocolService<H> {
    /// The decoded arguments behind an outcome of a call that goes to the
    /// method at `m`.
    proof fn lemma_served_args(
        self,
        method: Seq<char>,
        m: int,
        params: Seq<Value>,
        outcome: Outcome,
    ) -> (args: Seq<H::Arg>)
        requires
            self.responds(method, params, outcome),
            self.protocol@.resolves(method, m),
        ensures
            outcome matches Some(result) && self.serves_with(m, params, args, result),
    {
        assert(self.protocol@.has_method(method));
        let found = choose|i: int| #[trigger] self.dispatches(method, i, params, outcome);
        law_resolution_is_unique(self.protocol, method, m, found);
        choose|args: Seq<H::Arg>| #[trigger] self.serves_with(m, params, args, outcome->0)
    }
}

/// Dispatch gives `None` for exactly the names that no method has.
pub proof fn law_dispatch_resolves_known_names<H: Handler>(
    service: ProtocolService<H>,
    method: Seq<char>,
    params: Seq<Value>,
    outcome: Outcome,
)
    requires
        service.responds(method, params, outcome),
    ensures
        outcome is Some <==> service.protocol@.has_method(method),
{
}

/// A call of a method without a failure arm, with arguments that all decode,
/// gives a value that the business logic returned for decoded arguments, and
/// never an error.
pub proof fn law_infallible_call_gives_value<H: Handler>(
    service: ProtocolService<H>,
    method: Seq<char>,
    m: int,
    params: Seq<Value>,
    outcome: Outcome,
)
    requires
        service.responds(method, params, outcome),
        service.protocol@.resolves(method, m),
        !service.protocol@.methods[m].fallible,
        well_formed_args(&service.handler, m, service.protocol@.methods[m].arity, params),
    ensures
        outcome matches Some(Ok(value)) && exists|args: Seq<H::Arg>|
            #![trigger decoded(&service.handler, m, params, args)]
            {
                &&& args.len() == service.protocol@.methods[m].arity
                &&& decoded(&service.handler, m, params, args)
                &&& service.handler.yields(m, args, value)
            },
{
    assert(service.protocol@.has_method(method));
    let args = service.lemma_served_args(method, m, params, outcome);
    if args.len() < service.protocol@.methods[m].arity {
        assert(!service.handler.decodes(
            m,
            args.len() as int,
            params[args.len() as int],
            None::<H::Arg>,
        ));
    }
}

/// A call of a method with a failure arm, where the business logic returns
/// nothing but the failure `failure` for the arguments, gives the error with
/// the dispatcher's code, the failure's rendering and its encoding.
pub proof fn law_fallible_call_reports_failure<H: Handler>(
    service: ProtocolService<H>,
    method: Seq<char>,
    m: int,
    params: Seq<Value>,
    outcome: Outcome,
    failure: Failure,
)
    requires
        service.responds(method, params, outcome),
        service.protocol@.resolves(method, m),
        service.protocol@.methods[m].fallible,
        well_formed_args(&service.handler, m, service.protocol@.methods[m].arity, params),
        forall|args: Seq<H::Arg>, ret: Result<Value, Failure>|
            decoded(&service.handler, m, params, args) && #[trigger] service.handler.tries(
                m,
                args,
                ret,
            ) ==> ret == Err::<Value, Failure>(failure),
    ensures
        outcome matches Some(Err(e)) && e@ == failure_error(failure),
{
    assert(service.protocol@.has_method(method));
    let args = service.lemma_served_args(method, m, params, outcome);
    if args.len() < service.protocol@.methods[m].arity {
        assert(!service.handler.decodes(
            m,
            args.len() as int,
            params[args.len() as int],
            None::<H::Arg>,
        ));
    }
}

/// A call whose arguments before `position` all decode and whose argument at
/// `position` is missing or cannot be decoded gives the error that names
/// `position`, whatever the business logic would have returned.
pub proof fn law_malformed_arg_is_reported<H: Handler>(
    service: ProtocolService<H>,
    method: Seq<char>,
    m: int,
    params: Seq<Value>,
    position: int,
    outcome: Outcome,
)
    requires
        service.responds(method, params, outcome),
        service.protocol@.resolves(method, m),
        0 <= position < service.protocol@.methods[m].arity,
        well_formed_args(&service.handler, m, position as nat, params),
        malformed_arg(&service.handler, m, position, params),
    ensures
        outcome matches Some(Err(e)) && is_decode_failure(e@, position as nat),
{
    assert(service.protocol@.has_method(method));
    let args = service.lemma_served_args(method, m, params, outcome);
    if args.len() < position {
        assert(!service.handler.decodes(
            m,
            args.len() as int,
            params[args.len() as int],
            None::<H::Arg>,
        ));
    } else if args.len() > position {
        assert(service.handler.decodes(m, position, params[position], Some(args[position])));
    }
}

} // verus!
