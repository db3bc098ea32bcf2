use radical::config::{
    read_dc_handler_config, read_edge_handler_config, read_lambda_config, Backend, ConfigError,
    DcHandlerConfig, DcHandlerEnv, EdgeHandlerConfig, EdgeHandlerEnv, LambdaConfig, LambdaEnv,
};
use radical::consistency::FollowupRequest;
use radical::dummy::DummyStorage;
use radical::dynamo::DynamoStore;
use radical::edge_server::{
    health_handler, replicate_handler, run_edge_server, EdgeServerConfig, EdgeServerEnv,
    EdgeServerState, ReplicateItem,
};
use radical::followup::{
    run_followup_task, ExtensionEvent, ExtensionStep, FollowupContent, FollowupExtension, TaskEvent,
    TaskStep,
};
use radical::handler::WrapperError;
use radical::http_server::{
    create_dc_server, create_edge_server, dc_handler, edge_handler, health_check, list_functions,
    requested_id, AppError, RequestBody,
};
use radical::provider::StorageProvider;
use radical::storage::{BatchUpdateStep, GetStep, Storage, UpdateItem};
use serde_json::Value;

const ID_TEXT: &str = "00010203-0405-0607-0809-0a0b0c0d0e0f";
const ID: u128 = 0x00010203_0405_0607_0809_0a0b0c0d0e0f;

fn json(text: &str) -> Value {
    serde_json::from_str(text).unwrap()
}

fn set(value: &str) -> Option<String> {
    Some(value.to_string())
}

fn stops<T>(message: &str) -> Result<T, ConfigError> {
    Err(ConfigError { message: message.to_string() })
}

#[test]
fn an_identifier_that_is_none_counts_as_missing() {
    assert_eq!(requested_id(&set(ID_TEXT)), Some(ID));
    assert_eq!(requested_id(&set("000102030405060708090A0B0C0D0E0F")), Some(ID));
    assert_eq!(requested_id(&set("no identifier")), None);
    assert_eq!(requested_id(&None), None);
}

#[test]
fn the_edge_starts_an_execution() {
    let plan = create_edge_server(
        "http://check".to_string(),
        "http://dc".to_string(),
        "edge-1".to_string(),
        "http://edge".to_string(),
        65535,
    );
    assert_eq!(plan.address, "0.0.0.0:65535");
    assert_eq!(plan.followup_endpoint, set("http://check"));
    let copy = plan.state.clone();
    assert_eq!(copy.check_url, "http://check");
    assert_eq!(copy.remote_url, "http://dc");
    assert_eq!(copy.edge_id, set("edge-1"));
    assert_eq!(copy.edge_endpoint, set("http://edge"));
    let body = RequestBody { args: Value::from(3), id: set(ID_TEXT) };
    let call = edge_handler(&plan.state, "f".to_string(), body).unwrap();
    assert_eq!(call.handler.check_url, "http://check");
    assert!(call.handler.latencies.entries().is_empty());
    assert_eq!(call.request.function_name, "f");
    assert_eq!(call.request.args, Value::from(3));
    assert_eq!(call.request.exec_id, ID);
    assert_eq!(call.request.remote_url, "http://dc");
    assert_eq!(call.edge_id, "edge-1");
    assert_eq!(call.edge_endpoint, "http://edge");
}

#[test]
fn an_edge_must_know_itself() {
    let mut plan = create_dc_server("http://check".to_string(), 80);
    let body = || RequestBody { args: Value::Null, id: None };
    let error = edge_handler(&plan.state, "f".to_string(), body()).unwrap_err();
    assert_eq!(error, AppError::Config("EDGE_ID not set".to_string()));
    plan.state.edge_id = set("edge-1");
    let error = edge_handler(&plan.state, "f".to_string(), body()).unwrap_err();
    assert_eq!(error, AppError::Config("EDGE_ENDPOINT not set".to_string()));
}

#[test]
fn the_datacenter_starts_an_execution() {
    let plan = create_dc_server("http://check".to_string(), 8080);
    assert_eq!(plan.address, "0.0.0.0:8080");
    assert_eq!(plan.followup_endpoint, None);
    assert_eq!(plan.state.remote_url, "");
    let body = RequestBody { args: Value::from("a"), id: set("x") };
    let call = dc_handler(&plan.state, "g".to_string(), body);
    assert_eq!(call.function_name, "g");
    assert_eq!(call.args, Value::from("a"));
    assert_eq!(call.handler.check_url, "http://check");
    assert_eq!((call.exec_id >> 76) & 0xf, 4);
    assert_eq!((call.exec_id >> 62) & 0x3, 2);
}

#[test]
fn errors_are_answered_with_status_and_message() {
    let cases = [
        (
            AppError::from(WrapperError::FunctionNotFound("f".to_string())),
            404,
            "Function not found: f",
        ),
        (
            AppError::from(WrapperError::CheckError("c".to_string())),
            500,
            "Handler error: check error: c",
        ),
        (
            AppError::from(WrapperError::FollowupError("c".to_string())),
            500,
            "Handler error: followup error: c",
        ),
        (
            AppError::Config("EDGE_ID not set".to_string()),
            500,
            "Configuration error: EDGE_ID not set",
        ),
    ];
    for (error, status, message) in cases {
        let (answered, body) = error.into_response();
        assert_eq!(answered, status);
        assert_eq!(body["error"], Value::from(message));
        assert_eq!(body.as_object().unwrap().len(), 1);
    }
}

#[test]
fn servers_tell_that_they_are_up() {
    assert_eq!(health_check(), (200, "OK".to_string()));
    assert_eq!(health_handler(), (200, "OK".to_string()));
}

#[test]
fn functions_are_listed_and_counted() {
    assert_eq!(
        list_functions(&vec!["b".to_string(), "a".to_string()]),
        json("{\"functions\": [\"b\", \"a\"], \"count\": 2}")
    );
    assert_eq!(list_functions(&Vec::new()), json("{\"functions\": [], \"count\": 0}"));
}

fn replicated(key: &[u8], value: &[u8]) -> ReplicateItem {
    ReplicateItem {
        key: key.to_vec(),
        value: value.to_vec(),
        version: 6,
        table: "t".to_string(),
    }
}

#[test]
fn a_replicated_value_is_an_update() {
    assert_eq!(
        UpdateItem::from(replicated(b"k", b"v")),
        UpdateItem {
            table: "t".to_string(),
            value: b"v".to_vec(),
            key: b"k".to_vec(),
            version: 6,
        }
    );
}

#[test]
fn replicated_values_are_stored() {
    let mut state = EdgeServerState {
        storage: StorageProvider::Dummy(DummyStorage::new()),
        edge_id: "edge-1".to_string(),
    };
    let items = vec![replicated(b"k", b"1"), replicated(b"l", b"2")];
    let replication = replicate_handler(&mut state, items).unwrap();
    assert_eq!(replication.status, 200);
    assert!(matches!(replication.step, BatchUpdateStep::Done));
    match state.storage.get("t".to_string(), &b"l".to_vec()) {
        GetStep::Done(stored) => assert_eq!(stored, Some((0, b"2".to_vec()))),
        GetStep::Send(_) => panic!("an in-memory backend sends nothing"),
    }
    // The backend's own write log stays as it was.
    assert!(state.storage.get_all_writes().is_empty());
    state.storage.try_put("t".to_string(), b"m".to_vec(), b"3".to_vec()).unwrap();
    let log = state.storage.get_all_writes();
    assert!(replicate_handler(&mut state, vec![replicated(b"k", b"4")]).is_some());
    assert_eq!(state.storage.get_all_writes(), log);
    assert_eq!(log.len(), 1);
    assert_eq!(replicate_handler(&mut state, Vec::new()).unwrap().status, 200);
    assert!(replicate_handler(&mut state, vec![replicated(b"k", b"{")]).is_none());
    assert_eq!(state.edge_id, "edge-1");

    state.storage = StorageProvider::Dynamo(DynamoStore::new());
    let items: Vec<ReplicateItem> = (0..21u8).map(|i| replicated(&[i], b"{")).collect();
    match replicate_handler(&mut state, items).unwrap().step {
        BatchUpdateStep::Send(batches) => assert_eq!(batches.len(), 2),
        BatchUpdateStep::Done => panic!("the database is remote"),
    }
}

fn edge_server_env() -> EdgeServerEnv {
    EdgeServerEnv {
        edge_id: None,
        edge_endpoint: set("http://edge"),
        edge_port: None,
        use_scylla: None,
        scylla_ep: None,
    }
}

#[test]
fn the_edge_server_reads_its_variables() {
    assert_eq!(
        run_edge_server(edge_server_env()),
        Ok(EdgeServerConfig {
            edge_id: "edge-unknown".to_string(),
            edge_endpoint: "http://edge".to_string(),
            port: 3000,
            backend: Backend::Cloud,
        })
    );
    let mut env = edge_server_env();
    env.edge_port = set("+81");
    env.use_scylla = set("true");
    env.scylla_ep = set("http://scylla");
    let config = run_edge_server(env).unwrap();
    assert_eq!(config.port, 81);
    assert_eq!(config.backend, Backend::Scylla { endpoint: "http://scylla".to_string() });
    assert_eq!(config.backend.region(), "None");
}

#[test]
fn the_edge_server_stops_on_wrong_variables() {
    let mut env = edge_server_env();
    env.edge_endpoint = None;
    assert_eq!(run_edge_server(env), stops("EDGE_ENDPOINT must be set"));
    for port in ["", "65536", "-1", "-0", "8o", "+", "1 "] {
        let mut env = edge_server_env();
        env.edge_port = set(port);
        assert_eq!(run_edge_server(env), stops("EDGE_PORT must be a valid port number"));
    }
    let mut env = edge_server_env();
    env.use_scylla = set("true");
    assert_eq!(run_edge_server(env), stops("SCYLLA_EP must be set when USE_SCYLLA=true"));
}

fn edge_env() -> EdgeHandlerEnv {
    EdgeHandlerEnv {
        port: None,
        check_url: set("c"),
        remote_url: set("r"),
        edge_id: set("e"),
        edge_endpoint: set("p"),
        use_scylla: set("TRUE"),
        scylla_ep: None,
        functions_dir: None,
    }
}

#[test]
fn the_edge_handler_reads_its_variables() {
    assert_eq!(
        read_edge_handler_config(edge_env()),
        Ok(EdgeHandlerConfig {
            port: 8080,
            check_url: "c".to_string(),
            remote_url: "r".to_string(),
            edge_id: "e".to_string(),
            edge_endpoint: "p".to_string(),
            functions_dir: "src/functions".to_string(),
            backend: Backend::Cloud,
        })
    );
    let wrong: Vec<(fn(&mut EdgeHandlerEnv), &str)> = vec![
        (|env| env.port = set("x"), "PORT must be a valid port number"),
        (|env| env.check_url = None, "CHECK_URL must be set"),
        (|env| env.remote_url = None, "REMOTE_URL must be set"),
        (|env| env.edge_id = None, "EDGE_ID must be set"),
        (|env| env.edge_endpoint = None, "EDGE_ENDPOINT must be set"),
        (|env| env.use_scylla = set("true"), "SCYLLA_EP must be set when USE_SCYLLA=true"),
    ];
    for (change, message) in wrong {
        let mut env = edge_env();
        change(&mut env);
        assert_eq!(read_edge_handler_config(env), stops(message));
    }
}

#[test]
fn the_datacenter_handler_reads_its_variables() {
    let env = DcHandlerEnv {
        port: set("0"),
        check_url: None,
        use_scylla: None,
        scylla_ep: None,
        functions_dir: set("dir"),
    };
    assert_eq!(
        read_dc_handler_config(env),
        Ok(DcHandlerConfig {
            port: 0,
            check_url: "http://localhost:8000".to_string(),
            functions_dir: "dir".to_string(),
            backend: Backend::Cloud,
        })
    );
    let env = DcHandlerEnv {
        port: set("70000"),
        check_url: None,
        use_scylla: None,
        scylla_ep: None,
        functions_dir: None,
    };
    assert_eq!(read_dc_handler_config(env), stops("PORT must be a valid port number"));
    let env = DcHandlerEnv {
        port: None,
        check_url: None,
        use_scylla: set("true"),
        scylla_ep: None,
        functions_dir: None,
    };
    assert_eq!(
        read_dc_handler_config(env),
        stops("SCYLLA_EP must be set when USE_SCYLLA=true")
    );
}

fn lambda_env() -> LambdaEnv {
    LambdaEnv {
        deployment: set("edge"),
        use_scylla: None,
        scylla_ep: None,
        dynamodb_local: None,
        dynamodb_local_endpoint: None,
        check_url: set("c"),
    }
}

#[test]
fn the_lambda_function_reads_its_variables() {
    let config = |near_user: bool, backend: Backend| {
        Ok(LambdaConfig { near_user, backend, check_url: "c".to_string() })
    };
    assert_eq!(read_lambda_config(lambda_env()), config(true, Backend::Cloud));
    assert_eq!(Backend::Cloud.region(), "eu-central-1");

    let mut env = lambda_env();
    env.deployment = set("datacenter");
    env.dynamodb_local = set("true");
    let local = Backend::Local { endpoint: "http://localhost:8000".to_string() };
    assert_eq!(local.region(), "local");
    assert_eq!(read_lambda_config(env), config(false, local));

    let mut env = lambda_env();
    env.dynamodb_local = set("true");
    env.dynamodb_local_endpoint = set("http://db");
    env.use_scylla = set("true");
    env.scylla_ep = set("http://scylla");
    let scylla = Backend::Scylla { endpoint: "http://scylla".to_string() };
    assert_eq!(read_lambda_config(env), config(true, scylla));
}

#[test]
fn the_lambda_function_stops_on_wrong_variables() {
    let wrong: Vec<(fn(&mut LambdaEnv), &str)> = vec![
        (|env| env.deployment = None, "DEPLOYMENT not set"),
        (|env| env.deployment = set("Edge"), "unknown deployment env"),
        (
            |env| env.use_scylla = set("true"),
            "Trying to use scylla without a specified endpoint",
        ),
        (|env| env.check_url = None, "CHECK_URL not set"),
    ];
    for (change, message) in wrong {
        let mut env = lambda_env();
        change(&mut env);
        assert_eq!(read_lambda_config(env), stops(message));
    }
}

fn content(updates: Vec<Value>) -> FollowupContent {
    FollowupContent { updates, id: ID }
}

fn report() -> FollowupRequest {
    FollowupRequest {
        url: "http://check/update".to_string(),
        body: json("{\"updates\": [1], \"id\": \"00010203-0405-0607-0809-0a0b0c0d0e0f\"}"),
    }
}

#[test]
fn the_background_task_reports_what_holds_writes() {
    let step = |event: TaskEvent| run_followup_task("http://check", event);
    assert_eq!(
        step(TaskEvent::Received(Some(content(vec![Value::from(1)])))),
        TaskStep::Send(report())
    );
    assert_eq!(step(TaskEvent::Received(Some(content(Vec::new())))), TaskStep::Receive);
    assert_eq!(step(TaskEvent::Sent(Ok(()))), TaskStep::Receive);
    assert_eq!(step(TaskEvent::Sent(Err("down".to_string()))), TaskStep::Receive);
    assert_eq!(step(TaskEvent::Received(None)), TaskStep::Stop);
}

#[test]
fn the_background_task_works_through_its_channel() {
    let mut channel = vec![
        content(vec![Value::from(1)]),
        content(Vec::new()),
        FollowupContent { updates: vec![Value::from(2)], id: 7 },
    ]
    .into_iter();
    let mut posts = Vec::new();
    let mut event = TaskEvent::Received(channel.next());
    loop {
        event = match run_followup_task("http://check", event) {
            TaskStep::Receive => TaskEvent::Received(channel.next()),
            TaskStep::Send(request) => {
                posts.push(request);
                TaskEvent::Sent(Err("down".to_string()))
            },
            TaskStep::Stop => break,
        };
    }
    assert_eq!(channel.next(), None);
    assert_eq!(posts.len(), 2);
    assert_eq!(posts[0], report());
    assert_eq!(posts[1].url, "http://check/update");
    assert_eq!(posts[1].body["id"], Value::from("00000000-0000-0000-0000-000000000007"));
}

#[test]
fn the_extension_handles_one_invocation() {
    let extension = FollowupExtension::new("http://check".to_string());
    assert_eq!(extension.invoke(ExtensionEvent::Invoke), ExtensionStep::Receive);
    assert_eq!(
        extension.invoke(ExtensionEvent::Received(Some(content(vec![Value::from(1)])))),
        ExtensionStep::Send(report())
    );
    assert_eq!(
        extension.invoke(ExtensionEvent::Received(Some(content(Vec::new())))),
        ExtensionStep::Done
    );
    assert_eq!(extension.invoke(ExtensionEvent::Sent(Ok(()))), ExtensionStep::Done);
    assert_eq!(
        extension.invoke(ExtensionEvent::Sent(Err("down".to_string()))),
        ExtensionStep::Fail("down".to_string())
    );
    assert_eq!(
        extension.invoke(ExtensionEvent::Received(None)),
        ExtensionStep::Fail("channel is closed".to_string())
    );
    assert_eq!(
        extension.invoke(ExtensionEvent::Shutdown("spindown".to_string())),
        ExtensionStep::Fail("followup received unexpected shutdown evvent: spindown".to_string())
    );
}
