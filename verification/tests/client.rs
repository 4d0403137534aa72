use mcp_client::client::{
    Client, Event, PendingRequest, ProcessStatus, Progress, SessionState, TeardownEvent,
    TeardownStep, DEFAULT_POLL_LIMIT, EXIT_WAIT_SECONDS, POLL_INTERVAL_MILLIS,
};
use mcp_client::error::{ClientError, ErrorCode};
use mcp_client::json::JsonValue;
use mcp_client::json_text::parse;
use mcp_client::message::Message;
use mcp_client::protocol::{Notification, Request, RequestId, Response, ResponseError};
use mcp_client::types::{ClientCapabilities, Implementation};

fn response(id: i64, result: &str) -> Event {
    Event::Message(Message::Response(Response::success(RequestId::Number(id), parse(result).unwrap())))
}

fn failure(id: i64, code: i32, message: &str) -> Event {
    Event::Message(Message::Response(Response::failure(
        RequestId::Number(id),
        ResponseError { code, message: message.to_string(), data: None },
    )))
}

fn started(client: &mut Client, method: &str) -> PendingRequest {
    client.request(method, None).unwrap()
}

#[test]
fn requests_are_numbered_from_one() {
    let mut client = Client::new(false);
    let first = started(&mut client, "ping");
    let second = started(&mut client, "tools/list");
    assert_eq!(first.id(), RequestId::Number(1));
    assert_eq!(second.id(), RequestId::Number(2));
    assert_eq!(first.message(), Message::Request(Request::new("ping", None, RequestId::Number(1))));
    assert_eq!(
        second.message(),
        Message::Request(Request::new("tools/list", None, RequestId::Number(2)))
    );
}

#[test]
fn identifiers_never_repeat() {
    let mut client = Client::new(false);
    let mut seen = Vec::new();
    for _ in 0..50 {
        let pending = started(&mut client, "ping");
        assert!(!seen.contains(&pending.id()));
        seen.push(pending.id());
    }
}

#[test]
fn matching_response_resolves_the_request() {
    let mut client = Client::new(false);
    let mut pending = started(&mut client, "ping");
    let progress = pending.step(response(1, r#"{"ok":true}"#));
    assert_eq!(progress, Progress::Done(Ok(parse(r#"{"ok":true}"#).unwrap())));
}

#[test]
fn other_responses_are_passed_over() {
    let mut client = Client::new(false);
    let _ = started(&mut client, "first");
    let mut pending = started(&mut client, "second");
    assert_eq!(pending.step(response(1, "\"stale\"")), Progress::Waiting);
    assert_eq!(pending.step(response(3, "\"early\"")), Progress::Waiting);
    assert_eq!(
        pending.step(Event::Message(Message::Response(Response::success(
            RequestId::String("2".to_string()),
            JsonValue::Null,
        )))),
        Progress::Waiting
    );
    assert_eq!(pending.step(response(2, "\"mine\"")), Progress::Done(Ok(JsonValue::text("mine"))));
}

#[test]
fn notifications_and_requests_do_not_resolve() {
    let mut client = Client::new(false);
    let mut pending = started(&mut client, "ping");
    let notification = Event::Message(Message::Notification(Notification::new(
        "notifications/resources/list_changed",
        None,
    )));
    let request = Event::Message(Message::Request(Request::new("sampling", None, RequestId::Number(1))));
    assert_eq!(pending.step(notification), Progress::Waiting);
    assert_eq!(pending.step(request), Progress::Waiting);
    assert_eq!(pending.step(response(1, "{}")), Progress::Done(Ok(JsonValue::Object(vec![]))));
}

#[test]
fn run_stops_at_the_matching_response() {
    let mut client = Client::new(false);
    let mut pending = started(&mut client, "ping");
    let progress = pending.run(vec![
        response(9, "1"),
        Event::Tick(None),
        response(1, "2"),
        response(1, "3"),
        Event::Closed,
    ]);
    assert_eq!(progress, Progress::Done(Ok(JsonValue::Int(2))));
    let mut idle = started(&mut client, "ping");
    assert_eq!(idle.run(vec![]), Progress::Waiting);
    assert_eq!(idle.run(vec![response(1, "1"), Event::Tick(None)]), Progress::Waiting);
}

#[test]
fn method_not_found_is_a_protocol_error_of_that_kind() {
    let mut client = Client::new(false);
    let mut pending = started(&mut client, "nope");
    match pending.step(failure(1, -32601, "Method not found")) {
        Progress::Done(Err(error)) => {
            assert_eq!(
                error,
                ClientError::Protocol { code: -32601, message: "Method not found".to_string(), data: None }
            );
            assert_eq!(error.kind(), Some(ErrorCode::MethodNotFound));
        }
        other => panic!("unexpected: {:?}", other),
    }
}

#[test]
fn unknown_code_is_of_unknown_kind() {
    let mut client = Client::new(false);
    let mut pending = started(&mut client, "nope");
    match pending.step(failure(1, -12345, "strange")) {
        Progress::Done(Err(error)) => assert_eq!(error.kind(), Some(ErrorCode::UnknownErrorCode)),
        other => panic!("unexpected: {:?}", other),
    }
}

#[test]
fn error_codes_map_to_their_kinds() {
    let table = [
        (-32700, ErrorCode::ParseError),
        (-32600, ErrorCode::InvalidRequest),
        (-32601, ErrorCode::MethodNotFound),
        (-32602, ErrorCode::InvalidParams),
        (-32603, ErrorCode::InternalError),
        (-32002, ErrorCode::ServerNotInitialized),
        (-32001, ErrorCode::UnknownErrorCode),
        (-32000, ErrorCode::RequestFailed),
    ];
    for (code, kind) in table {
        assert_eq!(ErrorCode::from_code(code), kind);
        assert_eq!(kind.code(), code);
    }
    for code in [0, 1, -1, -12345, -32604, i32::MIN, i32::MAX] {
        assert_eq!(ErrorCode::from_code(code), ErrorCode::UnknownErrorCode);
    }
}

#[test]
fn error_data_is_carried_along() {
    let mut client = Client::new(false);
    let mut pending = started(&mut client, "m");
    let event = Event::Message(Message::Response(Response::failure(
        RequestId::Number(1),
        ResponseError { code: -32602, message: "bad".to_string(), data: Some(JsonValue::Int(7)) },
    )));
    assert_eq!(
        pending.step(event),
        Progress::Done(Err(ClientError::Protocol {
            code: -32602,
            message: "bad".to_string(),
            data: Some(JsonValue::Int(7)),
        }))
    );
}

#[test]
fn response_without_result_or_error_is_an_internal_error() {
    let mut client = Client::new(false);
    let mut pending = started(&mut client, "m");
    let empty = Response { jsonrpc: "2.0".to_string(), id: RequestId::Number(1), result: None, error: None };
    assert_eq!(
        pending.step(Event::Message(Message::Response(empty))),
        Progress::Done(Err(ClientError::Protocol {
            code: -32603,
            message: "Response missing result".to_string(),
            data: None,
        }))
    );
}

#[test]
fn closed_stream_ends_the_request() {
    let mut client = Client::new(false);
    let mut pending = started(&mut client, "m");
    let expected = ClientError::protocol(ErrorCode::InternalError, "Connection closed while waiting for response");
    assert_eq!(pending.step(Event::Closed), Progress::Done(Err(expected)));
}

#[test]
fn request_times_out_at_the_poll_limit() {
    let mut client = Client::new(false);
    client.set_poll_limit(3);
    let mut pending = started(&mut client, "slow");
    assert_eq!(pending.step(Event::Tick(None)), Progress::Waiting);
    assert_eq!(pending.step(response(7, "1")), Progress::Waiting);
    assert_eq!(pending.step(Event::Tick(Some(ProcessStatus::Running))), Progress::Waiting);
    assert_eq!(
        pending.step(Event::Tick(None)),
        Progress::Done(Err(ClientError::Timeout { method: "slow".to_string() }))
    );
}

#[test]
fn default_limit_is_thirty_seconds() {
    assert_eq!(DEFAULT_POLL_LIMIT as u64 * POLL_INTERVAL_MILLIS, 30_000);
    let mut client = Client::new(true);
    let mut pending = started(&mut client, "slow");
    for _ in 0..99 {
        assert_eq!(pending.step(Event::Tick(Some(ProcessStatus::Running))), Progress::Waiting);
    }
    assert_eq!(
        pending.step(Event::Tick(Some(ProcessStatus::Running))),
        Progress::Done(Err(ClientError::Timeout { method: "slow".to_string() }))
    );
}

#[test]
fn zero_limit_times_out_at_the_first_tick() {
    let mut client = Client::new(false);
    client.set_poll_limit(0);
    let mut pending = started(&mut client, "m");
    assert_eq!(
        pending.step(Event::Tick(None)),
        Progress::Done(Err(ClientError::Timeout { method: "m".to_string() }))
    );
}

#[test]
fn process_exit_ends_the_request_at_once() {
    let mut client = Client::new(true);
    let mut pending = started(&mut client, "m");
    assert_eq!(
        pending.step(Event::Tick(Some(ProcessStatus::Exited("exit status: 1".to_string())))),
        Progress::Done(Err(ClientError::ProcessExited { status: "exit status: 1".to_string() }))
    );
}

#[test]
fn failed_look_at_the_process_ends_the_request() {
    let mut client = Client::new(true);
    let mut pending = started(&mut client, "m");
    assert_eq!(
        pending.step(Event::Tick(Some(ProcessStatus::Unknown("denied".to_string())))),
        Progress::Done(Err(ClientError::ProcessUnknown { reason: "denied".to_string() }))
    );
}

#[test]
fn notify_builds_a_notification() {
    let client = Client::new(false);
    assert_eq!(
        client.notify("notifications/initialized", None),
        Message::Notification(Notification::new("notifications/initialized", None))
    );
    assert_eq!(
        client.notify("x", Some(JsonValue::Int(1))),
        Message::Notification(Notification::new("x", Some(JsonValue::Int(1))))
    );
}

#[test]
fn initialize_sends_identity_capabilities_and_version() {
    let mut client = Client::new(false);
    assert_eq!(client.state(), SessionState::Uninitialized);
    let pending = client
        .initialize(&Implementation::new("me", "1.0"), &ClientCapabilities::default())
        .unwrap();
    assert_eq!(client.state(), SessionState::Initializing);
    assert_eq!(
        pending.message().encode().unwrap(),
        r#"{"id":1,"jsonrpc":"2.0","method":"initialize","params":{"capabilities":{},"clientInfo":{"name":"me","version":"1.0"},"protocolVersion":"2024-11-05"},"type":"request"}"#
    );
    assert_eq!(mcp_client::LATEST_PROTOCOL_VERSION, "2024-11-05");
    assert_eq!(mcp_client::JSONRPC_VERSION, "2.0");
}

#[test]
fn initialize_end_to_end() {
    let mut client = Client::new(true);
    assert!(client.capabilities().is_none());
    let mut pending = client
        .initialize(&Implementation::new("me", "1.0"), &ClientCapabilities::default())
        .unwrap();
    let reply = Message::decode(
        r#"{"id":1,"result":{"protocolVersion":"2024-11-05","capabilities":{},"serverInfo":{"name":"x","version":"0"}}}"#,
    )
    .unwrap();
    let outcome = match pending.step(Event::Message(reply)) {
        Progress::Done(outcome) => outcome,
        Progress::Waiting => panic!("still waiting"),
    };
    let (result, next) = client.complete_initialize(outcome).unwrap();
    assert_eq!(result.protocol_version, "2024-11-05");
    assert_eq!(result.server_info, Implementation::new("x", "0"));
    assert_eq!(next, Message::Notification(Notification::new("notifications/initialized", None)));
    assert_eq!(client.state(), SessionState::Ready);
    assert!(client.capabilities().is_some());
    assert_eq!(client.capabilities().unwrap().document, JsonValue::Object(vec![]));
}

#[test]
fn failed_initialize_leaves_the_session_uninitialized() {
    let mut client = Client::new(false);
    let _ = client.initialize(&Implementation::new("me", "1.0"), &ClientCapabilities::default()).unwrap();
    let error = client
        .complete_initialize(Err(ClientError::Timeout { method: "initialize".to_string() }))
        .unwrap_err();
    assert_eq!(error, ClientError::Timeout { method: "initialize".to_string() });
    assert_eq!(client.state(), SessionState::Uninitialized);
    assert!(client.capabilities().is_none());

    let _ = client.initialize(&Implementation::new("me", "1.0"), &ClientCapabilities::default()).unwrap();
    let error = client.complete_initialize(Ok(parse(r#"{"capabilities":{}}"#).unwrap())).unwrap_err();
    assert_eq!(
        error,
        ClientError::Serialization("initialize result is not of the expected shape".to_string())
    );
    assert_eq!(client.state(), SessionState::Uninitialized);
    assert!(client.capabilities().is_none());
}

#[test]
fn typed_operations_use_their_methods() {
    let mut client = Client::new(false);
    let texts: Vec<String> = vec![
        client.list_tools().unwrap(),
        client.call_tool("add-note", parse(r#"{"name":"n"}"#).unwrap()).unwrap(),
        client.get_tool().unwrap(),
        client.list_resources().unwrap(),
        client.list_prompts().unwrap(),
        client.read_resource("note://internal/a").unwrap(),
        client.get_prompt("p", None).unwrap(),
        client.get_prompt("p", Some(parse(r#"{"style":"short"}"#).unwrap())).unwrap(),
        client.complete(parse(r#"{"ref":{"name":"p"}}"#).unwrap()).unwrap(),
    ]
    .iter()
    .map(|pending| pending.message().encode().unwrap())
    .collect();
    assert_eq!(
        texts,
        vec![
            r#"{"id":1,"jsonrpc":"2.0","method":"tools/list","type":"request"}"#,
            r#"{"id":2,"jsonrpc":"2.0","method":"tools/call","params":{"arguments":{"name":"n"},"name":"add-note"},"type":"request"}"#,
            r#"{"id":3,"jsonrpc":"2.0","method":"tools/list","type":"request"}"#,
            r#"{"id":4,"jsonrpc":"2.0","method":"resources/list","type":"request"}"#,
            r#"{"id":5,"jsonrpc":"2.0","method":"prompts/list","type":"request"}"#,
            r#"{"id":6,"jsonrpc":"2.0","method":"resources/read","params":{"uri":"note://internal/a"},"type":"request"}"#,
            r#"{"id":7,"jsonrpc":"2.0","method":"prompts/get","params":{"arguments":{},"name":"p"},"type":"request"}"#,
            r#"{"id":8,"jsonrpc":"2.0","method":"prompts/get","params":{"arguments":{"style":"short"},"name":"p"},"type":"request"}"#,
            r#"{"id":9,"jsonrpc":"2.0","method":"prompts/complete","params":{"ref":{"name":"p"}},"type":"request"}"#,
        ]
    );
}

#[test]
fn tool_failure_surfaces_as_an_error() {
    let value = parse(r#"{"content":[{"type":"text","text":"Missing name or content"}],"isError":true}"#).unwrap();
    let error = Client::call_tool_result("add-note", &value).unwrap_err();
    assert_eq!(
        error,
        ClientError::ToolExecutionFailed {
            tool: "add-note".to_string(),
            message: "Missing name or content".to_string(),
        }
    );
    assert_eq!(error.describe(), "Tool 'add-note' execution failed: Missing name or content");
    assert!(error.describe().contains("Missing name or content"));
}

#[test]
fn tool_failure_joins_the_text_blocks() {
    let value = parse(
        r#"{"content":[{"type":"text","text":"a"},{"type":"image","data":"AA==","mimeType":"image/png"},{"type":"text","text":"b"},{"type":"resource","resource":{"uri":"u"}},{"type":"text","text":"c"}],"isError":true}"#,
    )
    .unwrap();
    match Client::call_tool_result("t", &value) {
        Err(ClientError::ToolExecutionFailed { tool, message }) => {
            assert_eq!(tool, "t");
            assert_eq!(message, "a\nb\nc");
        }
        other => panic!("unexpected: {:?}", other),
    }
}

#[test]
fn tool_success_is_handed_back() {
    let value = parse(r#"{"content":[{"type":"text","text":"Added note 'my-test-note'"}]}"#).unwrap();
    let result = Client::call_tool_result("add-note", &value).unwrap();
    assert!(!result.is_error);
    assert_eq!(result.content.len(), 1);
    assert_eq!(result.text(), "Added note 'my-test-note'");
    let explicit = parse(r#"{"content":[],"isError":false}"#).unwrap();
    assert_eq!(Client::call_tool_result("t", &explicit).unwrap().text(), "");
}

#[test]
fn tool_result_of_another_shape_is_refused() {
    for text in [
        r#"{}"#,
        r#"{"content":{}}"#,
        r#"{"content":[{"type":"text"}]}"#,
        r#"{"content":[{"type":"video","text":"x"}]}"#,
        r#"{"content":[],"isError":"yes"}"#,
        r#"{"content":[{"type":"image","data":"x"}]}"#,
    ] {
        assert_eq!(
            Client::call_tool_result("t", &parse(text).unwrap()),
            Err(ClientError::Serialization("result is not of the expected shape".to_string()))
        );
    }
}

#[test]
fn tool_list_is_read_and_searched() {
    let value = parse(
        r#"{"tools":[{"name":"add-note","description":"Add a new note","inputSchema":{"type":"object","properties":{},"required":["name","content"]}},{"name":"other","description":"d","inputSchema":{}},{"name":"add-note","description":"second","inputSchema":{}}]}"#,
    )
    .unwrap();
    let listed = Client::list_tools_result(&value).unwrap();
    assert_eq!(listed.tools.len(), 3);
    let tool = Client::get_tool_result("add-note", &value).unwrap().unwrap();
    assert_eq!(tool.description, "Add a new note");
    assert_eq!(tool.input_schema.get("type").unwrap().as_text(), Some("object"));
    assert_eq!(Client::get_tool_result("missing", &value).unwrap(), None);
    for text in [r#"{}"#, r#"{"tools":1}"#, r#"{"tools":[{"name":"x"}]}"#] {
        assert_eq!(
            Client::get_tool_result("x", &parse(text).unwrap()),
            Err(ClientError::Serialization("result is not of the expected shape".to_string()))
        );
    }
}

fn finish(client: &mut Client, events: Vec<TeardownEvent>) -> Vec<TeardownStep> {
    let mut steps = vec![client.shutdown()];
    for event in events {
        steps.push(client.shutdown_step(event));
    }
    steps
}

#[test]
fn shutdown_without_a_process_only_closes_the_transport() {
    let mut client = Client::new(false);
    let steps = finish(&mut client, vec![TeardownEvent::Closed(None)]);
    assert_eq!(steps, vec![TeardownStep::CloseTransport, TeardownStep::Finish(Ok(()))]);
    assert_eq!(client.state(), SessionState::Closed);
}

#[test]
fn shutdown_waits_for_the_process_and_then_kills_it() {
    let mut client = Client::new(true);
    assert!(client.owns_process());
    let steps = finish(
        &mut client,
        vec![
            TeardownEvent::Closed(None),
            TeardownEvent::Looked(true),
            TeardownEvent::Waited,
            TeardownEvent::Looked(true),
            TeardownEvent::Waited,
        ],
    );
    assert_eq!(
        steps,
        vec![
            TeardownStep::CloseTransport,
            TeardownStep::Look,
            TeardownStep::Wait,
            TeardownStep::Look,
            TeardownStep::KillAndWait,
            TeardownStep::Finish(Ok(())),
        ]
    );
    assert_eq!(client.state(), SessionState::Closed);
    assert_eq!(EXIT_WAIT_SECONDS, 2);
}

#[test]
fn shutdown_does_not_kill_a_process_that_ends_by_itself() {
    let mut client = Client::new(true);
    let steps = finish(
        &mut client,
        vec![
            TeardownEvent::Closed(None),
            TeardownEvent::Looked(true),
            TeardownEvent::Waited,
            TeardownEvent::Looked(false),
        ],
    );
    assert_eq!(
        steps,
        vec![
            TeardownStep::CloseTransport,
            TeardownStep::Look,
            TeardownStep::Wait,
            TeardownStep::Look,
            TeardownStep::Finish(Ok(())),
        ]
    );
}

#[test]
fn shutdown_twice_does_not_fail() {
    let mut client = Client::new(true);
    let _ = finish(
        &mut client,
        vec![
            TeardownEvent::Closed(None),
            TeardownEvent::Looked(true),
            TeardownEvent::Waited,
            TeardownEvent::Looked(true),
            TeardownEvent::Waited,
        ],
    );
    assert_eq!(client.state(), SessionState::Closed);
    let again = finish(&mut client, vec![TeardownEvent::Closed(None), TeardownEvent::Looked(false)]);
    assert_eq!(
        again,
        vec![TeardownStep::CloseTransport, TeardownStep::Look, TeardownStep::Finish(Ok(()))]
    );
    assert_eq!(client.state(), SessionState::Closed);
}

#[test]
fn shutdown_reports_a_transport_that_does_not_close() {
    let mut client = Client::new(true);
    let steps = finish(&mut client, vec![TeardownEvent::Closed(Some(ClientError::Io("stuck".to_string())))]);
    assert_eq!(
        steps,
        vec![TeardownStep::CloseTransport, TeardownStep::Finish(Err(ClientError::Io("stuck".to_string())))]
    );
    assert_eq!(client.state(), SessionState::ShuttingDown);
}

#[test]
fn shutdown_asks_again_after_a_report_that_does_not_fit() {
    let mut client = Client::new(true);
    assert_eq!(client.shutdown_step(TeardownEvent::Waited), TeardownStep::Finish(Ok(())));
    assert_eq!(client.state(), SessionState::Uninitialized);
    assert_eq!(client.shutdown(), TeardownStep::CloseTransport);
    assert_eq!(client.shutdown_step(TeardownEvent::Waited), TeardownStep::CloseTransport);
    assert_eq!(client.shutdown_step(TeardownEvent::Closed(None)), TeardownStep::Look);
    assert_eq!(client.shutdown_step(TeardownEvent::Closed(None)), TeardownStep::Look);
    assert_eq!(client.state(), SessionState::ShuttingDown);
}

#[test]
fn errors_describe_themselves() {
    assert_eq!(
        ClientError::Timeout { method: "tools/list".to_string() }.describe(),
        "Request to 'tools/list' timed out"
    );
    assert_eq!(
        ClientError::ProcessExited { status: "exit status: 0".to_string() }.describe(),
        "Process exited with status: exit status: 0"
    );
    assert_eq!(
        ClientError::ProcessUnknown { reason: "r".to_string() }.describe(),
        "Error checking process status: r"
    );
    assert_eq!(ClientError::protocol(ErrorCode::InvalidParams, "m").describe(), "Protocol error: m");
    assert_eq!(ClientError::Serialization("s".to_string()).describe(), "Serialization error: s");
    assert_eq!(ClientError::Io("i".to_string()).describe(), "I/O error: i");
    assert_eq!(ClientError::Other("o".to_string()).describe(), "o");
    assert_eq!(ClientError::Io("i".to_string()).kind(), None);
    assert_eq!(ClientError::protocol(ErrorCode::RequestFailed, "m").kind(), Some(ErrorCode::RequestFailed));
}

#[test]
fn stream_items_become_events() {
    let message = Message::Notification(Notification::new("n", None));
    assert_eq!(Event::from_item(Ok(message.clone())), Event::Message(message));
    assert_eq!(Event::from_item(Err(ClientError::Other("connection closed".to_string()))), Event::Closed);
    assert_eq!(Event::from_item(Err(ClientError::Io("broken pipe".to_string()))), Event::Closed);
    assert_eq!(
        Event::from_item(Err(ClientError::Serialization("bad line".to_string()))),
        Event::Malformed(ClientError::Serialization("bad line".to_string()))
    );
}

#[test]
fn a_line_that_does_not_decode_is_passed_over() {
    let mut client = Client::new(false);
    let mut pending = started(&mut client, "ping");
    let bad = Event::from_item(Message::decode("{not json}"));
    assert_eq!(pending.step(bad), Progress::Waiting);
    let shapeless = Event::from_item(Message::decode(r#"{"id":1}"#));
    assert_eq!(pending.step(shapeless), Progress::Waiting);
    assert_eq!(pending.step(response(1, "\"late\"")), Progress::Done(Ok(JsonValue::text("late"))));
}

#[test]
fn the_response_after_a_malformed_line_still_arrives() {
    let mut client = Client::new(false);
    let mut pending = started(&mut client, "ping");
    let items = vec![
        Message::decode("garbage"),
        Message::decode(r#"{"id":1,"result":{"ok":true}}"#),
        Err(ClientError::Other("connection closed".to_string())),
    ];
    let events: Vec<Event> = items.into_iter().map(Event::from_item).collect();
    assert_eq!(pending.run(events), Progress::Done(Ok(parse(r#"{"ok":true}"#).unwrap())));
}

#[test]
fn the_end_of_the_stream_after_a_malformed_line_ends_the_request() {
    let mut client = Client::new(false);
    let mut pending = started(&mut client, "ping");
    let events = vec![
        Event::from_item(Message::decode("garbage")),
        Event::from_item(Err(ClientError::Other("connection closed".to_string()))),
    ];
    let expected = ClientError::protocol(ErrorCode::InternalError, "Connection closed while waiting for response");
    assert_eq!(pending.run(events), Progress::Done(Err(expected)));
}

#[test]
fn supported_versions_start_with_the_latest() {
    assert_eq!(mcp_client::supported_protocol_versions(), vec!["2024-11-05", "2024-10-07"]);
    assert_eq!(mcp_client::supported_protocol_versions()[0], mcp_client::LATEST_PROTOCOL_VERSION);
    assert_eq!(mcp_client::PREVIOUS_PROTOCOL_VERSION, "2024-10-07");
}

#[test]
fn clones_are_equal_to_what_they_copy() {
    let error = ClientError::Protocol {
        code: -32000,
        message: "m".to_string(),
        data: Some(parse(r#"{"a":[1,2.5]}"#).unwrap()),
    };
    assert_eq!(error.clone(), error);
    let message = Message::Response(Response::failure(
        RequestId::String("x".to_string()),
        ResponseError { code: 1, message: "m".to_string(), data: Some(JsonValue::Null) },
    ));
    assert_eq!(message.clone(), message);
    let request = Message::Request(Request::new("m", Some(JsonValue::Int(1)), RequestId::Number(5)));
    assert_eq!(request.clone(), request);
}
