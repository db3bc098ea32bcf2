use radical::consistency::CheckResult;
use radical::handler::{
    encode_args, DcAction, DcEvent, DcPhase, EdgeAction, EdgeEvent, EdgePhase, EdgeRequest,
    HandlerResponse, RadicalHandler, SetupEvent, SetupPhase, SetupStep, WasmError, WrapperError,
};
use radical::keyed::{label_get, KeyedMap};
use radical::storage::{KeySet, UpdateItem};
use radical::wasm::WasmResult;
use serde_json::Value;

fn request() -> EdgeRequest {
    EdgeRequest {
        function_name: "f".to_string(),
        args: serde_json::from_str("{\"a\": 1}").unwrap(),
        exec_id: 5,
        remote_url: "http://dc".to_string(),
    }
}

fn verdict(passed: bool, updates: Vec<UpdateItem>) -> CheckResult {
    let mut latencies = KeyedMap::new();
    latencies.insert("lock".to_string(), 17i64);
    CheckResult { result: Value::Null, check_result: passed, latencies, updates }
}

fn an_update() -> UpdateItem {
    UpdateItem {
        table: "t".to_string(),
        value: b"v".to_vec(),
        key: b"k".to_vec(),
        version: 3,
    }
}

/// An execution at the edge under way.
struct Run {
    handler: RadicalHandler,
    request: EdgeRequest,
    phase: EdgePhase,
}

impl Run {
    fn new() -> Self {
        Run {
            handler: RadicalHandler::new("http://check".to_string()),
            request: request(),
            phase: EdgePhase::Setup(SetupPhase::Module),
        }
    }

    fn step(&mut self, event: EdgeEvent) -> EdgeAction {
        let phase = std::mem::replace(&mut self.phase, EdgePhase::Done);
        let (next, action) = self.handler.edge_handler(&self.request, phase, event);
        self.phase = next;
        action
    }

    fn latency(&self, label: &str) -> Option<u128> {
        label_get(&self.handler.latencies, label).copied()
    }

    /// Goes on until the function is to guess its keys.
    fn until_guess() -> Self {
        let mut run = Run::new();
        let action = run.step(EdgeEvent::Setup(SetupEvent::Module { found: true, load: 1 }));
        assert!(matches!(action, EdgeAction::Link));
        let action = run.step(EdgeEvent::Setup(SetupEvent::Linked { outcome: Ok(()), link: 2 }));
        assert!(matches!(action, EdgeAction::Instantiate));
        let action = run.step(EdgeEvent::Setup(SetupEvent::Instantiated {
            outcome: Ok(()),
            instance: 3,
            total: 4,
        }));
        assert!(matches!(action, EdgeAction::Instantiate));
        let action = run.step(EdgeEvent::Instantiated(Ok(())));
        // The arguments are written as {"a":1}.
        assert!(matches!(action, EdgeAction::GuessKey(7)));
        run
    }

    /// Goes on until the function is to run.
    fn until_run() -> Self {
        let mut run = Run::until_guess();
        let key_set = KeySet {
            read_set: vec![("t".to_string(), b"k".to_vec())],
            write_set: vec![("t".to_string(), b"l".to_vec())],
        };
        match run.step(EdgeEvent::Guessed { outcome: Ok(key_set), guess: 5 }) {
            EdgeAction::FetchVersions(pairs) => assert_eq!(
                pairs,
                vec![("t".to_string(), b"k".to_vec()), ("t".to_string(), b"l".to_vec())]
            ),
            other => panic!("{:?}", other),
        }
        let versions = vec![
            ("t".to_string(), b"k".to_vec(), Some(2)),
            ("t".to_string(), b"l".to_vec(), None),
        ];
        match run.step(EdgeEvent::Versions { versions, body: 6 }) {
            EdgeAction::SpawnCheck(check) => {
                assert_eq!(check.url, "http://check/check");
                assert_eq!(check.body.function, "http://dc/f");
                assert_eq!(check.body.id, "00000000-0000-0000-0000-000000000005");
                assert_eq!(check.body.read_keys[0].version, 2);
                assert_eq!(check.body.write_keys[0].version, -1);
            },
            other => panic!("{:?}", other),
        }
        assert!(matches!(run.step(EdgeEvent::Spawned { spawn: 7 }), EdgeAction::Instantiate));
        assert!(matches!(run.step(EdgeEvent::Instantiated(Ok(()))), EdgeAction::ResetWrites));
        let action = run.step(EdgeEvent::WritesReset { reset: 8 });
        assert!(matches!(action, EdgeAction::RunBlob(7)));
        run
    }

    /// Goes on until the verdict of the check is awaited.
    fn until_verdict() -> Self {
        let mut run = Run::until_run();
        let action = run.step(EdgeEvent::Ran { outcome: Ok(Value::from("done")), run: 9 });
        assert!(matches!(action, EdgeAction::CollectWrites));
        let action =
            run.step(EdgeEvent::WritesCollected { updates: vec![Value::from(1)], collect: 10 });
        assert!(matches!(action, EdgeAction::AwaitCheck));
        run
    }
}

fn response(action: EdgeAction) -> HandlerResponse {
    match action {
        EdgeAction::Respond(response) => response,
        other => panic!("{:?}", other),
    }
}

fn failure(action: EdgeAction) -> WrapperError {
    match action {
        EdgeAction::Fail(error) => error,
        other => panic!("{:?}", other),
    }
}

#[test]
fn a_passed_check_is_followed_up() {
    let mut run = Run::until_verdict();
    let action = run.step(EdgeEvent::Checked {
        outcome: Ok((verdict(true, vec![an_update()]), 20)),
        wait: 21,
        split: 22,
        e2e: 23,
    });
    match action {
        EdgeAction::SendFollowup(content) => {
            assert_eq!(content.updates, vec![Value::from(1)]);
            assert_eq!(content.id, 5);
        },
        other => panic!("{:?}", other),
    }
    let answer = response(run.step(EdgeEvent::FollowupSent { outcome: Ok(()), followup: 24 }));
    assert_eq!(answer.result, WasmResult { result: Value::from("done") });
    assert!(answer.updates.is_empty());
    assert!(answer.check_status);
    assert_eq!(label_get(&answer.remote_latencies, "lock"), Some(&17));
    let expected = [
        ("blob_load", 1),
        ("blob_link", 2),
        ("instance_setup", 3),
        ("wasm_setup", 4),
        ("key_guess", 5),
        ("body_end", 6),
        ("spawn_check", 7),
        ("reset_writes", 8),
        ("wasm_execution", 9),
        ("collect_writes", 10),
        ("consistency_check", 20),
        ("check_wait", 21),
        ("split", 22),
        ("e2e", 23),
        ("followup", 24),
    ];
    for (label, millis) in expected {
        assert_eq!(label_get(&answer.latencies, label), Some(&millis), "{}", label);
    }
    assert_eq!(answer.latencies.entries().len(), expected.len());
}

#[test]
fn the_updates_of_a_failed_check_are_applied() {
    let mut run = Run::until_verdict();
    let action = run.step(EdgeEvent::Checked {
        outcome: Ok((verdict(false, vec![an_update()]), 20)),
        wait: 21,
        split: 22,
        e2e: 23,
    });
    match action {
        EdgeAction::ApplyUpdates(updates) => assert_eq!(updates, vec![an_update()]),
        other => panic!("{:?}", other),
    }
    assert_eq!(run.latency("e2e"), None);
    let answer = response(run.step(EdgeEvent::UpdatesApplied { update: 30, e2e: 31 }));
    assert_eq!(answer.result.result, Value::from("done"));
    assert!(answer.updates.is_empty());
    assert!(!answer.check_status);
    assert_eq!(label_get(&answer.latencies, "update_state"), Some(&30));
    assert_eq!(label_get(&answer.latencies, "e2e"), Some(&31));
    assert_eq!(label_get(&answer.latencies, "followup"), None);
}

#[test]
fn a_failed_check_without_updates_is_answered_at_once() {
    let mut run = Run::until_verdict();
    let answer = response(run.step(EdgeEvent::Checked {
        outcome: Ok((verdict(false, Vec::new()), 20)),
        wait: 21,
        split: 22,
        e2e: 23,
    }));
    assert!(!answer.check_status);
    assert_eq!(label_get(&answer.latencies, "e2e"), Some(&23));
    assert_eq!(label_get(&answer.latencies, "update_state"), None);
}

#[test]
fn a_check_that_fails_to_run_is_an_error() {
    let mut run = Run::until_verdict();
    let action =
        run.step(EdgeEvent::Checked { outcome: Err(()), wait: 21, split: 22, e2e: 23 });
    assert_eq!(
        failure(action),
        WrapperError::CheckError("Consistency check error".to_string())
    );
    assert_eq!(run.latency("check_wait"), None);
}

#[test]
fn a_follow_up_that_cannot_be_handed_over_is_an_error() {
    let mut run = Run::until_verdict();
    run.step(EdgeEvent::Checked {
        outcome: Ok((verdict(true, Vec::new()), 20)),
        wait: 21,
        split: 22,
        e2e: 23,
    });
    let action =
        run.step(EdgeEvent::FollowupSent { outcome: Err("closed".to_string()), followup: 24 });
    assert_eq!(failure(action), WrapperError::FollowupError("closed".to_string()));
}

#[test]
fn an_unknown_function_is_not_found() {
    let mut run = Run::new();
    let action = run.step(EdgeEvent::Setup(SetupEvent::Module { found: false, load: 1 }));
    assert_eq!(failure(action), WrapperError::FunctionNotFound("f".to_string()));
    assert_eq!(run.latency("blob_load"), None);
}

#[test]
fn failures_of_the_function_are_errors() {
    let error = || Err("trap".to_string());
    let check_error = |text: &str| WrapperError::CheckError(text.to_string());

    let mut run = Run::new();
    run.step(EdgeEvent::Setup(SetupEvent::Module { found: true, load: 1 }));
    let action = run.step(EdgeEvent::Setup(SetupEvent::Linked { outcome: error(), link: 2 }));
    assert_eq!(failure(action), check_error("Link error: trap"));

    let mut run = Run::new();
    run.step(EdgeEvent::Setup(SetupEvent::Module { found: true, load: 1 }));
    run.step(EdgeEvent::Setup(SetupEvent::Linked { outcome: Ok(()), link: 2 }));
    let action = run.step(EdgeEvent::Setup(SetupEvent::Instantiated {
        outcome: error(),
        instance: 3,
        total: 4,
    }));
    assert_eq!(failure(action), check_error("Instance setup error: trap"));

    let mut run = Run::until_guess();
    let action =
        run.step(EdgeEvent::Guessed { outcome: Err("trap".to_string()), guess: 5 });
    assert_eq!(failure(action), check_error("Key guess error: trap"));

    let mut run = Run::until_run();
    let action = run.step(EdgeEvent::Ran { outcome: Err("trap".to_string()), run: 9 });
    assert_eq!(failure(action), check_error("WASM execution error: trap"));
    assert_eq!(run.latency("wasm_execution"), None);
}

#[test]
fn an_instance_that_cannot_be_made_is_an_error() {
    let mut handler = RadicalHandler::new("u".to_string());
    for phase in [EdgePhase::GuessInstance, EdgePhase::ExecInstance] {
        let (next, action) = handler.edge_handler(
            &request(),
            phase,
            EdgeEvent::Instantiated(Err("no memory".to_string())),
        );
        assert!(matches!(next, EdgePhase::Done));
        assert_eq!(
            failure(action),
            WrapperError::CheckError("Instance error: no memory".to_string())
        );
    }
}

#[test]
fn nothing_happens_after_the_end() {
    let mut run = Run::new();
    run.step(EdgeEvent::Setup(SetupEvent::Module { found: false, load: 1 }));
    let action = run.step(EdgeEvent::Setup(SetupEvent::Module { found: true, load: 1 }));
    assert!(matches!(action, EdgeAction::Ignored));
    assert!(matches!(run.phase, EdgePhase::Done));
    assert_eq!(run.latency("blob_load"), None);
}

#[test]
fn an_event_out_of_turn_changes_nothing() {
    let mut run = Run::until_run();
    let action = run.step(EdgeEvent::Checked {
        outcome: Ok((verdict(true, Vec::new()), 20)),
        wait: 21,
        split: 22,
        e2e: 23,
    });
    assert!(matches!(action, EdgeAction::Ignored));
    assert!(matches!(run.phase, EdgePhase::Run));
    assert_eq!(run.latency("check_wait"), None);
}

#[test]
fn the_datacenter_answers_with_the_writes() {
    let mut handler = RadicalHandler::new("u".to_string());
    let args = Value::from(12);
    let mut phase = DcPhase::Setup(SetupPhase::Module);
    let events = vec![
        DcEvent::Setup(SetupEvent::Module { found: true, load: 1 }),
        DcEvent::Setup(SetupEvent::Linked { outcome: Ok(()), link: 2 }),
        DcEvent::Setup(SetupEvent::Instantiated { outcome: Ok(()), instance: 3, total: 4 }),
        DcEvent::Instantiated(Ok(())),
        DcEvent::WritesReset,
        DcEvent::Ran(Ok(Value::from(true))),
        DcEvent::WritesCollected { updates: vec![Value::from("w")], run: 5, collect: 6, e2e: 7 },
    ];
    let mut actions = Vec::new();
    for event in events {
        let (next, action) = handler.dc_handler("f", &args, phase, event);
        phase = next;
        actions.push(action);
    }
    assert!(matches!(actions[0], DcAction::Link));
    assert!(matches!(actions[1], DcAction::Instantiate));
    assert!(matches!(actions[2], DcAction::Instantiate));
    assert!(matches!(actions[3], DcAction::ResetWrites));
    assert!(matches!(actions[4], DcAction::RunBlob(2)));
    assert!(matches!(actions[5], DcAction::CollectWrites));
    match actions.pop() {
        Some(DcAction::Respond(answer)) => {
            assert_eq!(answer.result.result, Value::from(true));
            assert_eq!(answer.updates, vec![Value::from("w")]);
            assert!(!answer.check_status);
            assert_eq!(label_get(&answer.latencies, "wasm_execution"), Some(&5));
            assert_eq!(label_get(&answer.latencies, "collect_updates"), Some(&6));
            assert_eq!(label_get(&answer.latencies, "e2e"), Some(&7));
            assert!(answer.remote_latencies.entries().is_empty());
        },
        other => panic!("{:?}", other),
    }
    assert!(matches!(phase, DcPhase::Done));
}

#[test]
fn failures_in_the_datacenter_are_errors() {
    let mut handler = RadicalHandler::new("u".to_string());
    let error = |action: DcAction| match action {
        DcAction::Fail(error) => error,
        other => panic!("{:?}", other),
    };
    let args = Value::Null;
    let module = SetupEvent::Module { found: false, load: 1 };
    let (_, action) = handler.dc_handler(
        "g",
        &args,
        DcPhase::Setup(SetupPhase::Module),
        DcEvent::Setup(module),
    );
    assert_eq!(error(action), WrapperError::FunctionNotFound("g".to_string()));
    let (_, action) = handler.dc_handler(
        "g",
        &args,
        DcPhase::Instance,
        DcEvent::Instantiated(Err("x".to_string())),
    );
    assert_eq!(error(action), WrapperError::CheckError("Instance error: x".to_string()));
    let (_, action) =
        handler.dc_handler("g", &args, DcPhase::Run, DcEvent::Ran(Err("x".to_string())));
    assert_eq!(error(action), WrapperError::CheckError("WASM execution error: x".to_string()));
    let (phase, action) = handler.dc_handler("g", &args, DcPhase::Run, DcEvent::WritesReset);
    assert!(matches!((phase, action), (DcPhase::Run, DcAction::Ignored)));
}

#[test]
fn a_duration_replaces_the_one_before() {
    let mut handler = RadicalHandler::new("u".to_string());
    handler.add_latency("e2e", 1);
    handler.add_latency("e2e", u128::MAX);
    let answer = handler.construct_response(WasmResult { result: Value::Null }, Vec::new(), true);
    assert_eq!(label_get(&answer.latencies, "e2e"), Some(&u128::MAX));
    assert_eq!(answer.latencies.entries().len(), 1);
    assert_eq!(handler.check_url, "u");
}

#[test]
fn setup_ignores_an_event_out_of_turn() {
    let mut handler = RadicalHandler::new("u".to_string());
    let step = handler.setup_wasm_blob(
        "f",
        SetupPhase::Link,
        SetupEvent::Module { found: true, load: 1 },
    );
    assert!(matches!(step, SetupStep::Ignored));
}

#[test]
fn arguments_are_compact_json() {
    let args: Value = serde_json::from_str("{ \"b\" : [1, 2.5],\n \"a\": \"\\u00e9\" }").unwrap();
    assert_eq!(encode_args(&args), "{\"a\":\"é\",\"b\":[1,2.5]}".as_bytes().to_vec());
}

#[test]
fn errors_describe_themselves() {
    assert_eq!(WasmError::LinkerError("x".to_string()).message(), "linker error: x");
    assert_eq!(WasmError::WasmExecError("x".to_string()).message(), "wasm execution error: x");
    assert_eq!(WrapperError::CheckError("x".to_string()).message(), "check error: x");
    assert_eq!(WrapperError::FollowupError("x".to_string()).message(), "followup error: x");
    assert_eq!(
        WrapperError::FunctionNotFound("x".to_string()).message(),
        "function not found: x"
    );
}
