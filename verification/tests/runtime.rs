use nanorpc::{
    FnService, JrpcError, JrpcId, JrpcRequest, JrpcResponse, RpcService, RpcTransport, ServerError,
};
use serde_json::Value;
use std::sync::{Arc, Mutex};

fn echo_service() -> impl RpcService {
    FnService::new(|method: &str, params: Vec<Value>| match method {
        "echo" => Some(Ok(Value::Array(params))),
        "nothing" => Some(Ok(Value::Null)),
        "fail" => Some(Err(ServerError {
            code: 77,
            message: "it failed".to_string(),
            details: Value::from("why"),
        })),
        _ => None,
    })
}

fn request(version: &str, method: &str, params: Vec<Value>, id: JrpcId) -> JrpcRequest {
    JrpcRequest { jsonrpc: version.to_string(), method: method.to_string(), params, id }
}

/// A transport that hands each request to a service and remembers it.
struct Loopback<S: RpcService> {
    service: S,
    seen: Arc<Mutex<Vec<JrpcRequest>>>,
}

impl<S: RpcService> RpcTransport for Loopback<S> {
    type Error = String;

    fn call_raw(&self, req: JrpcRequest) -> Result<JrpcResponse, String> {
        self.seen.lock().unwrap().push(req.clone());
        Ok(self.service.respond_raw(req))
    }
}

/// A transport that answers every request with one response.
struct Canned(JrpcResponse);

impl RpcTransport for Canned {
    type Error = String;

    fn call_raw(&self, req: JrpcRequest) -> Result<JrpcResponse, String> {
        let mut resp = self.0.clone();
        resp.id = req.id;
        Ok(resp)
    }
}

struct Broken;

impl RpcTransport for Broken {
    type Error = String;

    fn call_raw(&self, _req: JrpcRequest) -> Result<JrpcResponse, String> {
        Err("no route".to_string())
    }
}

fn canned(result: Option<Value>, error: Option<JrpcError>) -> Canned {
    Canned(JrpcResponse { jsonrpc: "2.0".to_string(), result, error, id: JrpcId::Number(0) })
}

#[test]
fn a_value_travels_as_the_result() {
    let resp = echo_service().respond_raw(request(
        "2.0",
        "echo",
        vec![Value::from(1), Value::from("two")],
        JrpcId::Number(5),
    ));
    assert_eq!(resp.jsonrpc, "2.0");
    assert_eq!(resp.id, JrpcId::Number(5));
    assert_eq!(resp.result, Some(serde_json::from_str("[1, \"two\"]").unwrap()));
    assert!(resp.error.is_none());
}

#[test]
fn a_null_value_travels_as_an_explicit_result() {
    let resp = echo_service().respond_raw(request("2.0", "nothing", vec![], JrpcId::Number(5)));
    assert_eq!(resp.result, Some(Value::Null));
    assert!(resp.error.is_none());
}

#[test]
fn a_failure_travels_under_the_code_minus_one() {
    let id = JrpcId::String("req-9".to_string());
    let resp = echo_service().respond_raw(request("2.0", "fail", vec![], id.clone()));
    assert_eq!(resp.jsonrpc, "2.0");
    assert_eq!(resp.id, id);
    assert!(resp.result.is_none());
    let error = resp.error.unwrap();
    assert_eq!(error.code, -1);
    assert_eq!(error.message, "it failed");
    assert_eq!(error.data, Value::from("why"));
}

#[test]
fn a_missing_method_travels_as_method_not_found() {
    let resp = echo_service().respond_raw(request("2.0", "other", vec![], JrpcId::Number(-3)));
    assert_eq!(resp.jsonrpc, "2.0");
    assert_eq!(resp.id, JrpcId::Number(-3));
    assert!(resp.result.is_none());
    let error = resp.error.unwrap();
    assert_eq!(error.code, -32601);
    assert_eq!(error.message, "Method not found");
    assert_eq!(error.data, Value::Null);
}

#[test]
fn another_version_is_refused_whatever_the_request_holds() {
    for version in ["1.0", "", "2", "2.00", " 2.0", "2.0 ", "3.0"] {
        for method in ["echo", "fail", "other", "nothing"] {
            let id = JrpcId::String(format!("{}-{}", version, method));
            let resp = echo_service().respond_raw(request(
                version,
                method,
                vec![Value::from(1)],
                id.clone(),
            ));
            assert_eq!(resp.jsonrpc, "2.0");
            assert_eq!(resp.id, id);
            assert!(resp.result.is_none());
            let error = resp.error.unwrap();
            assert_eq!(error.code, -32600);
            assert_eq!(error.message, "JSON-RPC version wrong");
            assert_eq!(error.data, Value::Null);
        }
    }
}

#[test]
fn a_refused_version_does_not_reach_the_service() {
    let calls = Arc::new(Mutex::new(0usize));
    let counter = calls.clone();
    let service = FnService::new(move |_method: &str, _params: Vec<Value>| {
        *counter.lock().unwrap() += 1;
        Some(Ok(Value::Null))
    });
    service.respond_raw(request("1.0", "echo", vec![], JrpcId::Number(1)));
    assert_eq!(*calls.lock().unwrap(), 0);
    service.respond_raw(request("2.0", "echo", vec![], JrpcId::Number(1)));
    assert_eq!(*calls.lock().unwrap(), 1);
}

#[test]
fn a_shared_service_responds_as_the_service_does() {
    let shared = Arc::new(echo_service());
    assert_eq!(shared.respond("nothing", vec![]), Some(Ok(Value::Null)));
    assert_eq!(shared.respond("other", vec![]), None);
    let resp = shared.respond_raw(request("2.0", "other", vec![], JrpcId::Number(1)));
    assert_eq!(resp.error.unwrap().code, -32601);
}

#[test]
fn a_call_sends_one_request_with_a_fresh_string_id() {
    let seen = Arc::new(Mutex::new(Vec::new()));
    let transport = Loopback { service: echo_service(), seen: seen.clone() };
    let params = vec![Value::from(1.5), Value::Null, serde_json::from_str("{\"a\":[1]}").unwrap()];
    let answer = transport.call("echo", &params);
    assert_eq!(answer, Ok(Some(Ok(Value::Array(params.clone())))));
    let seen = seen.lock().unwrap();
    assert_eq!(seen.len(), 1);
    assert_eq!(seen[0].jsonrpc, "2.0");
    assert_eq!(seen[0].method, "echo");
    assert_eq!(seen[0].params, params);
    match &seen[0].id {
        JrpcId::String(id) => {
            let digits = id.strip_prefix("req-").unwrap();
            assert_eq!(digits.parse::<u64>().unwrap().to_string(), digits);
        }
        JrpcId::Number(_) => panic!("the id of a call is a string"),
    }
}

#[test]
fn the_request_of_a_call_is_made_from_its_nonce() {
    let params = vec![Value::from("x"), Value::from(2)];
    let req = JrpcRequest::for_call(0, "m", &params);
    assert_eq!(req.jsonrpc, "2.0");
    assert_eq!(req.method, "m");
    assert_eq!(req.params, params);
    assert_eq!(req.id, JrpcId::String("req-0".to_string()));
    assert_eq!(
        JrpcRequest::for_call(1234567890, "m", &[]).id,
        JrpcId::String("req-1234567890".to_string())
    );
    assert_eq!(
        JrpcRequest::for_call(u64::MAX, "m", &[]).id,
        JrpcId::String("req-18446744073709551615".to_string())
    );
    assert!(JrpcRequest::for_call(7, "", &[]).params.is_empty());
}

#[test]
fn a_result_reads_as_a_success() {
    assert_eq!(canned(Some(Value::from(3)), None).call("m", &[]), Ok(Some(Ok(Value::from(3)))));
    assert_eq!(canned(Some(Value::Null), None).call("m", &[]), Ok(Some(Ok(Value::Null))));
}

#[test]
fn a_result_wins_over_an_error() {
    let error = JrpcError { code: -1, message: "x".to_string(), data: Value::Null };
    assert_eq!(
        canned(Some(Value::from(3)), Some(error)).call("m", &[]),
        Ok(Some(Ok(Value::from(3))))
    );
}

#[test]
fn neither_result_nor_error_reads_as_null() {
    assert_eq!(canned(None, None).call("m", &[]), Ok(Some(Ok(Value::Null))));
    let resp = JrpcResponse {
        jsonrpc: "2.0".to_string(),
        result: None,
        error: None,
        id: JrpcId::Number(1),
    };
    assert_eq!(resp.into_outcome(), Some(Ok(Value::Null)));
}

#[test]
fn a_version_mismatch_reads_as_a_missing_method() {
    let error = JrpcError {
        code: -32600,
        message: "JSON-RPC version wrong".to_string(),
        data: Value::Null,
    };
    assert_eq!(canned(None, Some(error)).call("m", &[]), Ok(None));
}

#[test]
fn any_other_error_reads_as_a_failure_with_its_code_cut_to_32_bits() {
    let read = |code: i64| {
        let error = JrpcError { code, message: "boom".to_string(), data: Value::from(9) };
        canned(None, Some(error)).call("m", &[]).unwrap().unwrap().unwrap_err()
    };
    assert_eq!(
        read(42),
        ServerError { code: 42, message: "boom".to_string(), details: Value::from(9) }
    );
    assert_eq!(read(-1).code, 4294967295);
    assert_eq!(read(-32601).code, 4294934695);
    assert_eq!(read(0).code, 0);
    assert_eq!(read(4294967296).code, 0);
    assert_eq!(read(4294967297 + 5).code, 6);
    assert_eq!(read(i64::MIN).code, 0);
    assert_eq!(read(i64::MAX).code, 4294967295);
    assert_eq!(read(-32599).code, 4294934697);
}

#[test]
fn a_transport_failure_is_handed_on() {
    assert_eq!(Broken.call("m", &[]), Err("no route".to_string()));
    assert_eq!(Arc::new(Broken).call("m", &[]), Err("no route".to_string()));
    assert_eq!(Box::new(Broken).call("m", &[]), Err("no route".to_string()));
}

#[test]
fn shared_and_boxed_transports_carry_as_the_transport_does() {
    let shared = Arc::new(canned(Some(Value::from(1)), None));
    assert_eq!(shared.call("m", &[]), Ok(Some(Ok(Value::from(1)))));
    let boxed = Box::new(canned(Some(Value::from(2)), None));
    assert_eq!(boxed.call("m", &[]), Ok(Some(Ok(Value::from(2)))));
    let req = JrpcRequest::for_call(3, "m", &[]);
    assert_eq!(boxed.call_raw(req).unwrap().id, JrpcId::String("req-3".to_string()));
}

#[test]
fn over_the_wire_values_and_failures_come_back() {
    let transport = Loopback { service: echo_service(), seen: Arc::new(Mutex::new(Vec::new())) };
    assert_eq!(transport.call("nothing", &[]), Ok(Some(Ok(Value::Null))));
    assert_eq!(
        transport.call("fail", &[]),
        Ok(Some(Err(ServerError {
            code: 4294967295,
            message: "it failed".to_string(),
            details: Value::from("why"),
        })))
    );
    assert_eq!(
        transport.call("other", &[]),
        Ok(Some(Err(ServerError {
            code: 4294934695,
            message: "Method not found".to_string(),
            details: Value::Null,
        })))
    );
}

#[test]
fn typed_values_survive_encoding_and_decoding() {
    let numbers = [0.0f64, -1.5, 12345.0, 1e300, f64::MIN_POSITIVE];
    for x in numbers {
        let encoded = serde_json::to_value(x).unwrap();
        let decoded: f64 = serde_json::from_value(encoded.clone()).unwrap();
        assert_eq!(decoded, x);
        assert_eq!(serde_json::to_value(decoded).unwrap(), encoded);
    }
    let pair = (7i32, "out".to_string());
    let encoded = serde_json::to_value(&pair).unwrap();
    let decoded: (i32, String) = serde_json::from_value(encoded.clone()).unwrap();
    assert_eq!(decoded, pair);
    assert_eq!(serde_json::to_value(&decoded).unwrap(), encoded);
}

#[test]
fn a_new_call_gets_a_string_id_of_its_own() {
    let params = vec![Value::from(1)];
    let first = JrpcRequest::for_new_call("m", &params);
    assert_eq!(first.jsonrpc, "2.0");
    assert_eq!(first.method, "m");
    assert_eq!(first.params, params);
    let mut ids = std::collections::BTreeSet::new();
    for _ in 0..64 {
        match JrpcRequest::for_new_call("m", &params).id {
            JrpcId::String(id) => {
                assert!(id.starts_with("req-"));
                assert!(id[4..].parse::<u64>().is_ok());
                ids.insert(id);
            }
            JrpcId::Number(_) => panic!("the id of a call is a string"),
        }
    }
    assert!(ids.len() > 1);
}

#[test]
fn responses_are_built_from_outcomes() {
    let resp = JrpcResponse::version_mismatch(JrpcId::Number(2));
    assert_eq!(resp.id, JrpcId::Number(2));
    assert_eq!(resp.error.unwrap().code, -32600);
    let resp = JrpcResponse::from_outcome(JrpcId::Number(2), None);
    assert_eq!(resp.error.unwrap().code, -32601);
    let resp = JrpcResponse::from_outcome(JrpcId::Number(2), Some(Ok(Value::from(1))));
    assert_eq!(resp.result, Some(Value::from(1)));
    let failure = ServerError { code: 5, message: "m".to_string(), details: Value::from(true) };
    let resp = JrpcResponse::from_outcome(JrpcId::Number(2), Some(Err(failure)));
    let error = resp.error.unwrap();
    assert_eq!((error.code, error.message.as_str(), error.data), (-1, "m", Value::from(true)));
}
