use radical::handler::WasmError;
use radical::lambda::{
    read_request, request_of, respond_with, DcAction, DcEvent, DcPhase, Diagnostic, EdgeAction,
    EdgeEvent, EdgePhase, EdgeRequest, LambdaError, RadicalHandler, RequestError, SetupEvent,
    SetupPhase, WrapperError,
};
use radical::wasm::WasmResult;
use serde_json::Value;

const ID_TEXT: &str = "00010203-0405-0607-0809-0a0b0c0d0e0f";
const ID: u128 = 0x00010203_0405_0607_0809_0a0b0c0d0e0f;

fn json(text: &str) -> Value {
    serde_json::from_str(text).unwrap()
}

fn request(dc_url: Option<&str>) -> EdgeRequest {
    EdgeRequest {
        args: json("[1]"),
        exec_id: ID,
        dc_url: dc_url.map(|url| url.to_string()),
    }
}

/// An execution at the edge under way.
struct Run {
    handler: RadicalHandler,
    request: EdgeRequest,
    phase: EdgePhase,
}

impl Run {
    fn step(&mut self, event: EdgeEvent) -> EdgeAction {
        let phase = std::mem::replace(&mut self.phase, EdgePhase::Done);
        let (next, action) = self.handler.edge_handler(&self.request, phase, event);
        self.phase = next;
        action
    }

    /// Goes on until the function is to run.
    fn until_run(dc_url: Option<&str>) -> Self {
        let mut run = Run {
            handler: RadicalHandler::new("http://check".to_string()),
            request: request(dc_url),
            phase: EdgePhase::Setup(SetupPhase::Load),
        };
        let action =
            run.step(EdgeEvent::Setup(SetupEvent::Loaded { read: 1, compile: 2, load: 3 }));
        assert!(matches!(action, EdgeAction::Link));
        let action = run.step(EdgeEvent::Setup(SetupEvent::Linked { outcome: Ok(()), link: 4 }));
        assert!(matches!(action, EdgeAction::Instantiate));
        let action = run.step(EdgeEvent::Setup(SetupEvent::Instantiated {
            outcome: Ok(()),
            instance: 5,
            total: 6,
        }));
        assert!(matches!(action, EdgeAction::RunBlob(3)));
        run
    }

    /// Goes on until the writes were collected.
    fn until_collected(dc_url: Option<&str>, stale: bool) -> (Self, EdgeAction) {
        let mut run = Run::until_run(dc_url);
        let action = run.step(EdgeEvent::Ran {
            outcome: Ok(Value::from("done")),
            read_keys: vec![("t".to_string(), b"k".to_vec())],
            encountered_stale: stale,
            run: 7,
        });
        assert!(matches!(action, EdgeAction::CollectWrites));
        let action =
            run.step(EdgeEvent::WritesCollected { updates: vec![Value::from("w")], collect: 8 });
        (run, action)
    }
}

#[test]
fn a_body_names_arguments_and_identifier() {
    let request = read_request(
        b"{\"args\": {\"items\": [1]}, \"id\": \"00010203-0405-0607-0809-0a0b0c0d0e0f\"}",
    )
    .unwrap();
    assert_eq!(request.args, json("{\"items\": [1]}"));
    assert_eq!(request.exec_id, ID);
}

#[test]
fn a_body_without_identifier_gets_a_random_one() {
    for body in ["{\"args\": 1}", "{\"args\": 1, \"id\": null}"] {
        let request = read_request(body.as_bytes()).unwrap();
        assert_eq!(request.args, Value::from(1));
        assert_eq!((request.exec_id >> 76) & 0xf, 4);
        assert_eq!((request.exec_id >> 62) & 0x3, 2);
    }
    let first = read_request(b"{}").unwrap().exec_id;
    let second = read_request(b"{}").unwrap().exec_id;
    assert_ne!(first, second);
}

#[test]
fn missing_arguments_are_null() {
    assert_eq!(read_request(b"{}").unwrap().args, Value::Null);
    assert_eq!(request_of(&Value::from(3)).unwrap().args, Value::Null);
}

#[test]
fn a_body_that_is_no_json_is_refused() {
    assert!(matches!(read_request(b"{"), Err(RequestError::InvalidJson(_))));
}

#[test]
fn an_identifier_that_is_none_is_refused() {
    for body in ["{\"id\": 7}", "{\"id\": \"seven\"}", "{\"id\": [\"x\"]}"] {
        assert!(matches!(read_request(body.as_bytes()), Err(RequestError::InvalidId)));
        assert!(request_of(&json(body)).is_none());
    }
}

#[test]
fn a_fresh_run_is_reported_and_answered() {
    let (mut run, action) = Run::until_collected(Some("http://dc"), false);
    match action {
        EdgeAction::SendResult { url, execution } => {
            assert_eq!(url, "http://dc/execution_result");
            assert_eq!(execution.result, WasmResult { result: Value::from("done") });
            assert_eq!(execution.read_keys, vec![("t".to_string(), b"k".to_vec())]);
            assert_eq!(execution.write_updates, vec![Value::from("w")]);
            assert_eq!(execution.latencies.entries().len(), 8);
            assert!(execution.remote_latencies.entries().is_empty());
        },
        other => panic!("{:?}", other),
    }
    match run.step(EdgeEvent::ResultSent { sent: Ok(()), e2e: 9 }) {
        EdgeAction::Respond(response) => {
            assert_eq!(response.status, 200);
            assert_eq!(response.content_type, "application/json");
            assert_eq!(
                json(&response.body),
                json(
                    "{\"result\": {\"result\": \"done\"}, \"latencies\": {\"blob_read\": 1, \
                     \"blob_compile\": 2, \"blob_load\": 3, \"blob_link\": 4, \
                     \"instance_setup\": 5, \"wasm_setup\": 6, \"wasm_execution\": 7, \
                     \"collect_writes\": 8}, \"remote_latencies\": {}}"
                )
            );
        },
        other => panic!("{:?}", other),
    }
    assert!(matches!(run.phase, EdgePhase::Done));
    assert_eq!(run.handler.latencies.get(&"e2e".to_string()), Some(&9));
}

#[test]
fn a_stale_run_is_repeated_in_the_datacenter() {
    let (mut run, action) = Run::until_collected(Some("http://dc"), true);
    match action {
        EdgeAction::ExecuteAtDc { url, body } => {
            assert_eq!(url, "http://dc");
            let mut fields = serde_json::Map::new();
            fields.insert("args".to_string(), json("[1]"));
            fields.insert("id".to_string(), Value::from(ID_TEXT));
            assert_eq!(body, Value::from(fields));
        },
        other => panic!("{:?}", other),
    }
    match run.step(EdgeEvent::DcReplied { reply: Ok(json("{\"b\":1, \"a\": [null]}")), e2e: 9 }) {
        EdgeAction::Respond(response) => {
            assert_eq!(response.status, 200);
            assert_eq!(response.body, "{\"a\":[null],\"b\":1}");
        },
        other => panic!("{:?}", other),
    }
}

#[test]
fn the_datacenter_must_be_known() {
    for stale in [false, true] {
        let (run, action) = Run::until_collected(None, stale);
        match action {
            EdgeAction::Fail(error) => {
                assert_eq!(error, LambdaError::Stop("DC_URL not set".to_string()))
            },
            other => panic!("{:?}", other),
        }
        assert!(matches!(run.phase, EdgePhase::Done));
    }
}

#[test]
fn a_datacenter_that_cannot_be_reached_is_an_error() {
    let transport = || LambdaError::Transport("down".to_string());
    let (mut run, _) = Run::until_collected(Some("http://dc"), false);
    match run.step(EdgeEvent::ResultSent { sent: Err("down".to_string()), e2e: 9 }) {
        EdgeAction::Fail(error) => assert_eq!(error, transport()),
        other => panic!("{:?}", other),
    }
    let (mut run, _) = Run::until_collected(Some("http://dc"), true);
    match run.step(EdgeEvent::DcReplied { reply: Err("down".to_string()), e2e: 9 }) {
        EdgeAction::Fail(error) => assert_eq!(error, transport()),
        other => panic!("{:?}", other),
    }
    assert_eq!(run.handler.latencies.get(&"e2e".to_string()), None);
}

#[test]
fn failures_of_the_function_are_wasm_errors() {
    let exec_error = || LambdaError::Wasm(WasmError::WasmExecError("trap".to_string()));
    let mut run = Run::until_run(None);
    let action = run.step(EdgeEvent::Ran {
        outcome: Err("trap".to_string()),
        read_keys: Vec::new(),
        encountered_stale: true,
        run: 7,
    });
    match action {
        EdgeAction::Fail(error) => assert_eq!(error, exec_error()),
        other => panic!("{:?}", other),
    }
    let mut handler = RadicalHandler::new("u".to_string());
    let (_, action) = handler.edge_handler(
        &request(None),
        EdgePhase::Setup(SetupPhase::Instance),
        EdgeEvent::Setup(SetupEvent::Instantiated {
            outcome: Err("trap".to_string()),
            instance: 1,
            total: 2,
        }),
    );
    match action {
        EdgeAction::Fail(error) => assert_eq!(error, exec_error()),
        other => panic!("{:?}", other),
    }
    let (_, action) = handler.edge_handler(
        &request(None),
        EdgePhase::Setup(SetupPhase::Link),
        EdgeEvent::Setup(SetupEvent::Linked { outcome: Err("no import".to_string()), link: 1 }),
    );
    match action {
        EdgeAction::Fail(error) => assert_eq!(
            error,
            LambdaError::Wasm(WasmError::LinkerError("no import".to_string()))
        ),
        other => panic!("{:?}", other),
    }
    assert!(handler.latencies.entries().is_empty());
}

#[test]
fn a_lambda_event_out_of_turn_changes_nothing() {
    let mut run = Run::until_run(Some("http://dc"));
    let action = run.step(EdgeEvent::ResultSent { sent: Ok(()), e2e: 9 });
    assert!(matches!(action, EdgeAction::Ignored));
    assert!(matches!(run.phase, EdgePhase::Run));
}

#[test]
fn the_datacenter_answers_with_result_and_writes() {
    let mut handler = RadicalHandler::new("u".to_string());
    let args = Value::from("x");
    let mut phase = DcPhase::Setup(SetupPhase::Load);
    let events = vec![
        DcEvent::Setup(SetupEvent::Loaded { read: 1, compile: 2, load: 3 }),
        DcEvent::Setup(SetupEvent::Linked { outcome: Ok(()), link: 4 }),
        DcEvent::Setup(SetupEvent::Instantiated { outcome: Ok(()), instance: 5, total: 6 }),
        DcEvent::WritesReset,
        DcEvent::Ran(Ok(Value::from(false))),
        DcEvent::WritesCollected { updates: vec![json("{}")], run: 7, collect: 8, e2e: u64::MAX },
    ];
    let mut actions = Vec::new();
    for event in events {
        let (next, action) = handler.dc_handler(&args, phase, event);
        phase = next;
        actions.push(action);
    }
    assert!(matches!(actions[0], DcAction::Link));
    assert!(matches!(actions[1], DcAction::Instantiate));
    assert!(matches!(actions[2], DcAction::ResetWrites));
    assert!(matches!(actions[3], DcAction::RunBlob(3)));
    assert!(matches!(actions[4], DcAction::CollectWrites));
    match actions.pop() {
        Some(DcAction::Respond(response)) => assert_eq!(
            response.body,
            "{\"check_status\":false,\"latencies\":{\"blob_compile\":2,\"blob_link\":4,\
             \"blob_load\":3,\"blob_read\":1,\"collect_updates\":8,\"e2e\":18446744073709551615,\
             \"instance_setup\":5,\"wasm_execution\":7,\"wasm_setup\":6},\
             \"remote_latencies\":{},\"result\":{\"result\":false},\"updates\":[{}]}"
        ),
        other => panic!("{:?}", other),
    }
    let (_, action) = handler.dc_handler(&args, DcPhase::Run, DcEvent::Ran(Err("x".to_string())));
    match action {
        DcAction::Fail(error) => assert_eq!(error, WasmError::WasmExecError("x".to_string())),
        other => panic!("{:?}", other),
    }
}

#[test]
fn an_answer_carries_remote_durations() {
    let mut handler = RadicalHandler::new("u".to_string());
    handler.remote_latencies.insert("lock".to_string(), -3);
    handler.add_latency("e2e", 2);
    let response = handler.construct_response(
        WasmResult { result: Value::from(1) },
        vec![Value::from(2)],
        true,
    );
    assert_eq!(
        response.body,
        "{\"check_status\":true,\"latencies\":{\"e2e\":2},\"remote_latencies\":{\"lock\":-3},\
         \"result\":{\"result\":1},\"updates\":[2]}"
    );
}

#[test]
fn an_answer_is_json() {
    let response = respond_with(&Value::from("a\"b"));
    assert_eq!(response.status, 200);
    assert_eq!(response.content_type, "application/json");
    assert_eq!(response.body, "\"a\\\"b\"");
}

#[test]
fn diagnostics_name_the_kind_of_error() {
    let diagnostic = |error_type: &'static str| Diagnostic {
        error_type,
        error_message: "m".to_string(),
    };
    let message = || "m".to_string();
    assert_eq!(Diagnostic::from(WasmError::LinkerError(message())), diagnostic("LinkerError"));
    assert_eq!(Diagnostic::from(WasmError::WasmExecError(message())), diagnostic("WasmExecError"));
    assert_eq!(Diagnostic::from(WrapperError::CheckError(message())), diagnostic("CheckError"));
    assert_eq!(
        Diagnostic::from(WrapperError::FollowupError(message())),
        diagnostic("FollowupError")
    );
    assert_eq!(WrapperError::CheckError(message()).message(), "check error: m");
    assert_eq!(WrapperError::FollowupError(message()).message(), "followup error: m");
}

#[test]
fn the_datacenter_reads_what_the_edge_sent() {
    match RadicalHandler::execute_at_dc(&json("{\"n\": [1]}"), ID, "http://dc") {
        EdgeAction::ExecuteAtDc { url, body } => {
            assert_eq!(url, "http://dc");
            let request = request_of(&body).unwrap();
            assert_eq!(request.args, json("{\"n\": [1]}"));
            assert_eq!(request.exec_id, ID);
            let sent = serde_json::to_vec(&body).unwrap();
            let request = read_request(&sent).unwrap();
            assert_eq!(request.args, json("{\"n\": [1]}"));
            assert_eq!(request.exec_id, ID);
        },
        other => panic!("{:?}", other),
    }
}

#[test]
fn a_lambda_execution_ends_once() {
    let (mut run, _) = Run::until_collected(Some("http://dc"), false);
    let action = run.step(EdgeEvent::ResultSent { sent: Ok(()), e2e: 9 });
    assert!(matches!(action, EdgeAction::Respond(_)));
    let action = run.step(EdgeEvent::ResultSent { sent: Ok(()), e2e: 10 });
    assert!(matches!(action, EdgeAction::Ignored));
    assert_eq!(run.handler.latencies.get(&"e2e".to_string()), Some(&9));
}
