use nanorpc::{
    DynRpcTransport, FnService, JrpcId, JrpcRequest, JrpcResponse, OrService, RpcService,
    RpcTransport, ServerError,
};
use serde_json::Value;
use std::sync::atomic::{AtomicUsize, Ordering};
use std::sync::Arc;

struct Counted {
    knows: &'static str,
    answer: i64,
    calls: Arc<AtomicUsize>,
}

impl RpcService for Counted {
    fn respond(
        &self,
        method: &str,
        params: Vec<Value>,
    ) -> Option<Result<Value, ServerError>> {
        self.calls.fetch_add(1, Ordering::SeqCst);
        if method == self.knows {
            Some(Ok(Value::from(self.answer + params.len() as i64)))
        } else if method == "fail" {
            Some(Err(ServerError {
                code: 3,
                message: self.knows.to_string(),
                details: Value::Null,
            }))
        } else {
            None
        }
    }
}

fn counted(knows: &'static str, answer: i64) -> (Counted, Arc<AtomicUsize>) {
    let calls = Arc::new(AtomicUsize::new(0));
    (Counted { knows, answer, calls: calls.clone() }, calls)
}

#[test]
fn the_first_service_answers_what_it_knows_and_the_second_is_not_asked() {
    let (a, a_calls) = counted("left", 100);
    let (b, b_calls) = counted("right", 200);
    let or = OrService::new(a, b);
    assert_eq!(or.respond("left", vec![Value::Null]), Some(Ok(Value::from(101))));
    assert_eq!(a_calls.load(Ordering::SeqCst), 1);
    assert_eq!(b_calls.load(Ordering::SeqCst), 0);
}

#[test]
fn a_failure_of_the_first_service_is_an_answer_too() {
    let (a, _) = counted("left", 100);
    let (b, b_calls) = counted("right", 200);
    let or = OrService::new(a, b);
    assert_eq!(
        or.respond("fail", vec![]),
        Some(Err(ServerError { code: 3, message: "left".to_string(), details: Value::Null }))
    );
    assert_eq!(b_calls.load(Ordering::SeqCst), 0);
}

#[test]
fn the_second_service_gets_the_same_call_where_the_first_declines() {
    let (a, a_calls) = counted("left", 100);
    let (b, b_calls) = counted("right", 200);
    let or = OrService::new(a, b);
    assert_eq!(
        or.respond("right", vec![Value::from(1), Value::from(2)]),
        Some(Ok(Value::from(202)))
    );
    assert_eq!(a_calls.load(Ordering::SeqCst), 1);
    assert_eq!(b_calls.load(Ordering::SeqCst), 1);
    assert_eq!(or.respond("neither", vec![]), None);
    assert_eq!(a_calls.load(Ordering::SeqCst), 2);
    assert_eq!(b_calls.load(Ordering::SeqCst), 2);
}

#[test]
fn where_both_know_a_method_the_first_wins() {
    let (a, _) = counted("both", 1);
    let (b, b_calls) = counted("both", 2);
    let or = OrService::new(a, b);
    assert_eq!(or.respond("both", vec![]), Some(Ok(Value::from(1))));
    assert_eq!(b_calls.load(Ordering::SeqCst), 0);
}

#[test]
fn fallbacks_nest() {
    let (a, _) = counted("a", 1);
    let (b, _) = counted("b", 2);
    let (c, _) = counted("c", 3);
    let or = OrService::new(OrService::new(a, b), c);
    assert_eq!(or.respond("a", vec![]), Some(Ok(Value::from(1))));
    assert_eq!(or.respond("b", vec![]), Some(Ok(Value::from(2))));
    assert_eq!(or.respond("c", vec![]), Some(Ok(Value::from(3))));
    assert_eq!(or.respond("d", vec![]), None);
    let resp = or.respond_raw(JrpcRequest {
        jsonrpc: "2.0".to_string(),
        method: "c".to_string(),
        params: vec![],
        id: JrpcId::Number(4),
    });
    assert_eq!(resp.result, Some(Value::from(3)));
}

#[test]
fn a_function_is_a_service() {
    let service = FnService::new(|method: &str, params: Vec<Value>| {
        if method == "len" {
            Some(Ok(Value::from(params.len())))
        } else {
            None
        }
    });
    assert_eq!(service.respond("len", vec![Value::Null, Value::Null]), Some(Ok(Value::from(2))));
    assert_eq!(service.respond("other", vec![]), None);
}

struct Flaky;

impl RpcTransport for Flaky {
    type Error = std::io::Error;

    fn call_raw(&self, req: JrpcRequest) -> Result<JrpcResponse, std::io::Error> {
        if req.method == "down" {
            Err(std::io::Error::new(std::io::ErrorKind::Other, "line is down"))
        } else {
            Ok(JrpcResponse {
                jsonrpc: "2.0".to_string(),
                result: Some(Value::from(req.method)),
                error: None,
                id: req.id,
            })
        }
    }
}

struct Plain;

impl RpcTransport for Plain {
    type Error = anyhow::Error;

    fn call_raw(&self, req: JrpcRequest) -> Result<JrpcResponse, anyhow::Error> {
        if req.params.is_empty() {
            Err(anyhow::Error::msg("no arguments"))
        } else {
            Ok(JrpcResponse { jsonrpc: "2.0".to_string(), result: None, error: None, id: req.id })
        }
    }
}

#[test]
fn an_erased_transport_carries_the_replies_of_the_transport() {
    let erased = DynRpcTransport::new(Flaky);
    let req = JrpcRequest::for_call(1, "up", &[]);
    let resp = erased.call_raw(req).unwrap();
    assert_eq!(resp.id, JrpcId::String("req-1".to_string()));
    assert_eq!(resp.result, Some(Value::from("up")));
    assert_eq!(erased.call("up", &[]).unwrap(), Some(Ok(Value::from("up"))));
}

#[test]
fn an_erased_transport_converts_the_failure_of_the_transport() {
    let erased = DynRpcTransport::new(Flaky);
    let failure = erased.call("down", &[]).unwrap_err();
    assert_eq!(failure.to_string(), "line is down");
    assert!(failure.downcast_ref::<std::io::Error>().is_some());
}

#[test]
fn erased_transports_of_different_types_stand_side_by_side() {
    let transports: Vec<DynRpcTransport> =
        vec![DynRpcTransport::new(Flaky), DynRpcTransport::new(Plain)];
    assert_eq!(transports[0].call("m", &[]).unwrap(), Some(Ok(Value::from("m"))));
    assert_eq!(transports[1].call("m", &[]).unwrap_err().to_string(), "no arguments");
    assert_eq!(transports[1].call("m", &[Value::Null]).unwrap(), Some(Ok(Value::Null)));
}

#[test]
fn a_copy_of_a_function_service_shares_the_function() {
    let calls = Arc::new(AtomicUsize::new(0));
    let counter = calls.clone();
    let service = FnService::new(move |method: &str, _params: Vec<Value>| {
        counter.fetch_add(1, Ordering::SeqCst);
        Some(Ok(Value::from(method)))
    });
    let copy = service.clone();
    assert_eq!(copy.respond("a", vec![]), Some(Ok(Value::from("a"))));
    assert_eq!(service.respond("b", vec![]), Some(Ok(Value::from("b"))));
    assert_eq!(calls.load(Ordering::SeqCst), 2);
}

#[test]
fn function_services_of_different_functions_stand_side_by_side() {
    let services: Vec<FnService> = vec![
        FnService::new(|_method: &str, _params: Vec<Value>| Some(Ok(Value::from(1)))),
        FnService::new(|method: &str, params: Vec<Value>| {
            if method == "len" {
                Some(Ok(Value::from(params.len())))
            } else {
                None
            }
        }),
    ];
    assert_eq!(services[0].respond("len", vec![]), Some(Ok(Value::from(1))));
    assert_eq!(services[1].respond("len", vec![Value::Null]), Some(Ok(Value::from(1))));
    assert_eq!(services[1].respond("x", vec![]), None);
    let or = OrService::new(services[1].clone(), services[0].clone());
    assert_eq!(or.respond("len", vec![]), Some(Ok(Value::from(0))));
    assert_eq!(or.respond("x", vec![]), Some(Ok(Value::from(1))));
}
