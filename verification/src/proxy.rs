//! The proxy that a compiled interface gives: it calls a method over a
//! transport and turns the answer into the method's typed result.

use crate::envelope::{JrpcResponse, Outcome};
use crate::interface::Protocol;
use crate::transport::{call_request, completes, RpcTransport};
use serde_json::Value;
use vstd::prelude::*;

verus! {

/// Why a call through a proxy gave no result of the method.
#[derive(Debug)]
pub enum ClientError<E> {
    /// The remote side has no such method.
    NotFound,
    /// A method without a failure arm failed on the remote side.
    ServerFail,
    /// What came back could not be decoded.
    FailedDecode(serde_json::Error),
    /// The transport failed.
    Transport(E),
}

/// What a call brought back, still to be decoded.
#[derive(Clone, Debug, PartialEq, Eq)]
pub enum Reply {
    /// The encoded return value.
    Returned(Value),
    /// The encoded failure arm.
    Failed(Value),
}

/// What a proxy makes of the answer to a call, before anything is decoded.
///
/// A failure of the transport and a missing method are errors. A value is
/// the method's return value. An error of the remote side carries the failure
/// arm of a method that has one, and is an error of the call for a method that
/// has none.
pub open spec fn settled<E>(fallible: bool, answer: Result<Outcome, E>) -> Result<
    Reply,
    ClientError<E>,
> {
    match answer {
        Err(e) => Err(ClientError::Transport(e)),
        Ok(None) => Err(ClientError::NotFound),
        Ok(Some(Ok(value))) => Ok(Reply::Returned(value)),
        Ok(Some(Err(e))) => if fallible {
            Ok(Reply::Failed(e.details))
        } else {
            Err(ClientError::ServerFail)
        },
    }
}

/// Turns the answer to a call of a method into what is left to decode, or
/// into the error of the call.
pub fn settle<E>(fallible: bool, answer: Result<Outcome, E>) -> (reply: Result<
    Reply,
    ClientError<E>,
>)
    ensures
        reply == settled(fallible, answer),
{
    match answer {
        Err(e) => Err(ClientError::Transport(e)),
        Ok(None) => Err(ClientError::NotFound),
        Ok(Some(Ok(value))) => Ok(Reply::Returned(value)),
        Ok(Some(Err(e))) => {
            if fallible {
                Ok(Reply::Failed(e.details))
            } else {
                Err(ClientError::ServerFail)
            }
        },
    }
}

/// Whether `answer` is what a call of `method` with `params` over
/// `transport` may give.
pub open spec fn called<T: RpcTransport>(
    transport: &T,
    method: Seq<char>,
    params: Seq<Value>,
    answer: Result<Outcome, T::Error>,
) -> bool {
    exists|nonce: u64, reply: Result<JrpcResponse, T::Error>|
        #![trigger transport.carries(call_request(nonce, method, params), reply)]
        transport.carries(call_request(nonce, method, params), reply) && completes(reply, answer)
}

/// The typed result of a call whose return value decoded as `decoded`.
pub open spec fn returned<A, B, E>(decoded: Result<A, serde_json::Error>) -> Result<
    Result<A, B>,
    ClientError<E>,
> {
    match decoded {
        Ok(output) => Ok(Ok(output)),
        Err(e) => Err(ClientError::FailedDecode(e)),
    }
}

/// The typed result of a call whose failure arm decoded as `decoded`.
pub open spec fn failed<A, B, E>(decoded: Result<B, serde_json::Error>) -> Result<
    Result<A, B>,
    ClientError<E>,
> {
    match decoded {
        Ok(failure) => Ok(Err(failure)),
        Err(e) => Err(ClientError::FailedDecode(e)),
    }
}

/// Whether `result` is what decoding makes of `reply`: the return value in
/// the success arm, the failure arm in the failure arm, and an error where
/// the decoder refused.
pub open spec fn decodes_reply<A, B, E, DA, DB>(
    decode_output: DA,
    decode_failure: DB,
    reply: Reply,
    result: Result<Result<A, B>, ClientError<E>>,
) -> bool where
    DA: FnOnce(Value) -> Result<A, serde_json::Error>,
    DB: FnOnce(Value) -> Result<B, serde_json::Error>,
 {
    match reply {
        Reply::Returned(value) => exists|decoded: Result<A, serde_json::Error>|
            #![trigger call_ensures(decode_output, (value,), decoded)]
            call_ensures(decode_output, (value,), decoded) && result == returned::<A, B, E>(
                decoded,
            ),
        Reply::Failed(details) => exists|decoded: Result<B, serde_json::Error>|
            #![trigger call_ensures(decode_failure, (details,), decoded)]
            call_ensures(decode_failure, (details,), decoded) && result == failed::<A, B, E>(
                decoded,
            ),
    }
}

/// Whether `result` is what a proxy makes of the `answer` to a call of a
/// method: the error of the call, or what decoding makes of the reply.
pub open spec fn finishes<A, B, E, DA, DB>(
    decode_output: DA,
    decode_failure: DB,
    fallible: bool,
    answer: Result<Outcome, E>,
    result: Result<Result<A, B>, ClientError<E>>,
) -> bool where
    DA: FnOnce(Value) -> Result<A, serde_json::Error>,
    DB: FnOnce(Value) -> Result<B, serde_json::Error>,
 {
    match settled(fallible, answer) {
        Err(e) => result == Err::<Result<A, B>, ClientError<E>>(e),
        Ok(reply) => decodes_reply(decode_output, decode_failure, reply, result),
    }
}

/// Decodes what a call brought back: the return value with `decode_output`,
/// the failure arm with `decode_failure`.
pub fn decode_reply<A, B, E, DA, DB>(reply: Reply, decode_output: DA, decode_failure: DB) -> (result:
    Result<Result<A, B>, ClientError<E>>) where
    DA: FnOnce(Value) -> Result<A, serde_json::Error>,
    DB: FnOnce(Value) -> Result<B, serde_json::Error>,

    requires
        forall|value: Value| call_requires(decode_output, (value,)),
        forall|details: Value| call_requires(decode_failure, (details,)),
    ensures
        decodes_reply(decode_output, decode_failure, reply, result),
{
    match reply {
        Reply::Returned(value) => {
            let decoded = decode_output(value);
            let ghost got = decoded;
            let result = match decoded {
                Ok(output) => Ok(Ok(output)),
                Err(e) => Err(ClientError::FailedDecode(e)),
            };
            assert(call_ensures(decode_output, (value,), got) && result == returned::<A, B, E>(
                got,
            ));
            result
        },
        Reply::Failed(details) => {
            let decoded = decode_failure(details);
            let ghost got = decoded;
            let result = match decoded {
                Ok(failure) => Ok(Err(failure)),
                Err(e) => Err(ClientError::FailedDecode(e)),
            };
            assert(call_ensures(decode_failure, (details,), got) && result == failed::<A, B, E>(
                got,
            ));
            result
        },
    }
}

/// The proxy of a compiled interface over a transport.
pub struct ProtocolClient<T: RpcTransport> {
    pub transport: T,
    pub protocol: Protocol,
}

impl<T: RpcTransport> ProtocolClient<T> {
    /// The proxy of `protocol` over `transport`.
    pub fn new(transport: T, protocol: Protocol) -> (client: Self)
        ensures
            client.transport == transport,
            client.protocol == protocol,
    {
        ProtocolClient { transport, protocol }
    }

    /// Calls the method at `method` with the encoded arguments `args`.
    ///
    /// One call goes over the transport, under the method's name and with
    /// `args` in the order given. The result is `Ok(Ok(..))` with the decoded
    /// return value, `Ok(Err(..))` with the decoded failure arm of a method
    /// that has one, or the error of the call. Both decoders have to take
    /// every value.
    pub fn invoke<A, B, DA, DB>(
        &self,
        method: usize,
        args: &[Value],
        decode_output: DA,
        decode_failure: DB,
    ) -> (result: Result<Result<A, B>, ClientError<T::Error>>) where
        DA: FnOnce(Value) -> Result<A, serde_json::Error>,
        DB: FnOnce(Value) -> Result<B, serde_json::Error>,

        requires
            method < self.protocol@.methods.len(),
            forall|value: Value| call_requires(decode_output, (value,)),
            forall|details: Value| call_requires(decode_failure, (details,)),
        ensures
            exists|answer: Result<Outcome, T::Error>|
                #![trigger called(&self.transport, self.protocol@.methods[method as int].name, args@, answer)]
                {
                    &&& called(
                        &self.transport,
                        self.protocol@.methods[method as int].name,
                        args@,
                        answer,
                    )
                    &&& finishes(
                        decode_output,
                        decode_failure,
                        self.protocol@.methods[method as int].fallible,
                        answer,
                        result,
                    )
                },
    {
        let entry = &self.protocol.methods[method];
        assert(self.protocol@.methods[method as int] == entry@);
        let answer = self.transport.call(entry.name.as_str(), args);
        let ghost got = answer;
        assert(called(&self.transport, entry@.name, args@, got));
        let result = match settle(entry.fallible, answer) {
            Err(e) => Err(e),
            Ok(reply) => decode_reply(reply, decode_output, decode_failure),
        };
        assert(finishes(decode_output, decode_failure, entry@.fallible, got, result));
        result
    }
}

} // verus!
