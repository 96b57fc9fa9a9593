use ultralog::client::{is_alive, CallPhase, ClientAction, ClientEvent, ClientLink};
use ultralog::command::{encode_command, IpcCommand};
use ultralog::json::{Json, Number};
use ultralog::response::{encode_response, read_file_info, FileInfo, IpcResponse, ResponseData};
use ultralog::server::{blank, handler_step, HandlerAction, HandlerEvent, HandlerState};
use ultralog::tools::{command_for, tool_result, CreateComputedChannelRequest, ChannelDataRequest, LoadFileRequest, ToolCall, ToolOutput};

fn s(t: &str) -> String {
    t.to_string()
}

fn line(text: &str, parsed: Result<Json, String>) -> HandlerEvent {
    HandlerEvent::Line { text: s(text), parsed }
}

fn error_message(a: &HandlerAction) -> String {
    match a {
        HandlerAction::Write(IpcResponse::Error { message }) => message.clone(),
        other => panic!("expected an error reply, got {:?}", other),
    }
}

#[test]
fn blank_lines_are_skipped() {
    assert!(blank(""));
    assert!(blank(" \t\r"));
    assert!(!blank(" x "));
    let (st, a) = handler_step(HandlerState::Reading, line("   ", Err(s("EOF while parsing"))));
    assert_eq!(st, HandlerState::Reading);
    assert!(matches!(a, HandlerAction::ReadLine));
}

#[test]
fn malformed_line_is_answered_and_connection_stays_open() {
    let (st, a) = handler_step(HandlerState::Reading, line("not json", Err(s("expected value at line 1 column 1"))));
    assert_eq!(st, HandlerState::Writing { close_after: false });
    assert_eq!(error_message(&a), "Invalid command JSON: expected value at line 1 column 1");
    let (st, a) = handler_step(st, HandlerEvent::Written);
    assert_eq!(st, HandlerState::Reading);
    assert!(matches!(a, HandlerAction::ReadLine));
    let ping = encode_command(&IpcCommand::Ping);
    let (st, a) = handler_step(st, line("{\"type\":\"Ping\"}", Ok(ping)));
    assert_eq!(st, HandlerState::Dispatched);
    assert!(matches!(a, HandlerAction::Enqueue(IpcCommand::Ping)));
    let (st, a) = handler_step(st, HandlerEvent::Reply(IpcResponse::ok_with_data(ResponseData::Pong)));
    assert_eq!(st, HandlerState::Writing { close_after: false });
    assert!(matches!(a, HandlerAction::Write(IpcResponse::Success(Some(ResponseData::Pong)))));
}

#[test]
fn json_that_is_no_command_is_answered() {
    let j = Json::Object(vec![(s("type"), Json::Str(s("Launch")))]);
    let (st, a) = handler_step(HandlerState::Reading, line("{\"type\":\"Launch\"}", Ok(j)));
    assert_eq!(st, HandlerState::Writing { close_after: false });
    assert!(error_message(&a).starts_with("Invalid command JSON: "));
}

#[test]
fn timeout_is_answered_and_connection_stays_open() {
    let (st, a) = handler_step(HandlerState::Dispatched, HandlerEvent::ReplyTimedOut);
    assert_eq!(st, HandlerState::Writing { close_after: false });
    assert_eq!(error_message(&a), "Timeout waiting for GUI response");
    match a {
        HandlerAction::Write(r) => {
            let j = encode_response(&r);
            match j {
                Json::Object(ms) => {
                    assert_eq!(ms[0].0, "status");
                    assert!(matches!(&ms[0].1, Json::Str(t) if t == "Error"));
                }
                other => panic!("unexpected {:?}", other),
            }
        }
        other => panic!("unexpected {:?}", other),
    }
    let (st, a) = handler_step(st, HandlerEvent::Written);
    assert_eq!(st, HandlerState::Reading);
    assert!(matches!(a, HandlerAction::ReadLine));
}

#[test]
fn closed_queue_ends_the_connection() {
    let (st, a) = handler_step(HandlerState::Dispatched, HandlerEvent::QueueClosed);
    assert_eq!(st, HandlerState::Writing { close_after: true });
    assert_eq!(error_message(&a), "GUI is not responding");
    let (st, a) = handler_step(st, HandlerEvent::Written);
    assert_eq!(st, HandlerState::Closed);
    assert!(matches!(a, HandlerAction::Close));
}

#[test]
fn no_line_is_read_while_a_reply_is_awaited() {
    // A second command arriving early is not read: a line event while a reply
    // is awaited is out of turn and closes the connection.
    let (st, a) = handler_step(HandlerState::Dispatched, line("{\"type\":\"Ping\"}", Ok(encode_command(&IpcCommand::Ping))));
    assert_eq!(st, HandlerState::Closed);
    assert!(matches!(a, HandlerAction::Close));
    let (st, _) = handler_step(HandlerState::Reading, HandlerEvent::ReadFailed);
    assert_eq!(st, HandlerState::Closed);
    let (st, _) = handler_step(HandlerState::Writing { close_after: false }, HandlerEvent::WriteFailed);
    assert_eq!(st, HandlerState::Closed);
}

fn ok_ack() -> Json {
    encode_response(&IpcResponse::ok())
}

#[test]
fn first_call_connects_and_success_is_cached() {
    let mut link = ClientLink::with_port(52384);
    assert!(!link.is_connected());
    assert!(matches!(link.step(ClientEvent::Call(IpcCommand::Ping)), ClientAction::Connect { port: 52384 }));
    assert!(matches!(link.step(ClientEvent::Connected), ClientAction::Send(IpcCommand::Ping)));
    assert!(matches!(link.step(ClientEvent::Sent), ClientAction::ReadLine));
    match link.step(ClientEvent::Received { parsed: Ok(ok_ack()) }) {
        ClientAction::Finish { outcome: Ok(IpcResponse::Success(Some(ResponseData::Ack))), keep_connection: true } => {}
        other => panic!("unexpected {:?}", other),
    }
    assert!(link.is_connected());
    assert_eq!(link.phase, CallPhase::Idle);
    // The next call reuses the cached connection.
    assert!(matches!(link.step(ClientEvent::Call(IpcCommand::GetState)), ClientAction::Send(IpcCommand::GetState)));
    assert!(!link.is_connected());
}

#[test]
fn failed_call_reconnects_on_the_next() {
    let mut link = ClientLink::with_port(7);
    link.step(ClientEvent::Call(IpcCommand::Ping));
    link.step(ClientEvent::Connected);
    link.step(ClientEvent::Sent);
    match link.step(ClientEvent::ReadFailed(s("connection reset"))) {
        ClientAction::Finish { outcome: Err(m), keep_connection: false } => {
            assert_eq!(m, "Failed to read response: connection reset")
        }
        other => panic!("unexpected {:?}", other),
    }
    assert!(!link.is_connected());
    assert!(matches!(link.step(ClientEvent::Call(IpcCommand::Ping)), ClientAction::Connect { port: 7 }));
}

#[test]
fn each_failure_has_its_message() {
    let mut link = ClientLink::with_port(1);
    link.step(ClientEvent::Call(IpcCommand::Ping));
    match link.step(ClientEvent::ConnectFailed(s("refused"))) {
        ClientAction::Finish { outcome: Err(m), .. } => assert_eq!(m, "Failed to connect to UltraLog GUI at 127.0.0.1:1: refused"),
        other => panic!("unexpected {:?}", other),
    }
    link.step(ClientEvent::Call(IpcCommand::Ping));
    link.step(ClientEvent::Connected);
    match link.step(ClientEvent::FlushFailed(s("broken pipe"))) {
        ClientAction::Finish { outcome: Err(m), .. } => assert_eq!(m, "Failed to flush: broken pipe"),
        other => panic!("unexpected {:?}", other),
    }
    link.step(ClientEvent::Call(IpcCommand::Ping));
    link.step(ClientEvent::Connected);
    link.step(ClientEvent::Sent);
    match link.step(ClientEvent::Received { parsed: Err(s("EOF while parsing")) }) {
        ClientAction::Finish { outcome: Err(m), keep_connection } => {
            assert_eq!(m, "Failed to parse response: EOF while parsing");
            assert!(!keep_connection);
        }
        other => panic!("unexpected {:?}", other),
    }
    assert!(!link.is_connected());
}

fn file_info() -> FileInfo {
    FileInfo {
        id: s("f1"),
        path: s("a.csv"),
        name: s("a.csv"),
        ecu_type: s("Haltech"),
        channel_count: 3,
        record_count: 250,
        duration: Number::Float(5.0f64.to_bits()),
        sample_rate: Number::PosInt(50),
    }
}

#[test]
fn load_file_returns_the_descriptor() {
    let call = ToolCall::LoadFile(LoadFileRequest { path: s("a.csv") });
    let cmd = command_for(&call);
    assert!(matches!(&cmd, IpcCommand::LoadFile { path } if path == "a.csv"));
    let reply = IpcResponse::ok_with_data(ResponseData::FileLoaded(file_info()));
    match tool_result(&call, Ok(reply)) {
        Ok(ToolOutput::Document(j)) => {
            let f = read_file_info(&j).expect("a file descriptor");
            assert_eq!(f.id, "f1");
            assert_eq!(f.path, "a.csv");
            assert_eq!(f.channel_count, 3);
            assert_eq!(f.record_count, 250);
            assert_eq!(f.duration, Number::Float(5.0f64.to_bits()));
        }
        other => panic!("unexpected {:?}", other),
    }
    match tool_result(&call, Ok(IpcResponse::ok())) {
        Ok(ToolOutput::Text(t)) => assert_eq!(t, "File is being loaded. Use get_state to check when ready."),
        other => panic!("unexpected {:?}", other),
    }
}

#[test]
fn tool_errors_pass_through() {
    let call = ToolCall::GetState;
    match tool_result(&call, Ok(IpcResponse::error("unknown file f9"))) {
        Err(m) => assert_eq!(m, "unknown file f9"),
        other => panic!("unexpected {:?}", other),
    }
    match tool_result(&call, Err(s("Failed to connect to UltraLog GUI at 127.0.0.1:1: refused"))) {
        Err(m) => assert_eq!(m, "Failed to connect to UltraLog GUI at 127.0.0.1:1: refused"),
        other => panic!("unexpected {:?}", other),
    }
    match tool_result(&call, Ok(IpcResponse::ok())) {
        Err(m) => assert_eq!(m, "Unexpected response"),
        other => panic!("unexpected {:?}", other),
    }
}

#[test]
fn acknowledging_tools_say_what_was_done() {
    let call = ToolCall::CreateComputedChannel(CreateComputedChannelRequest {
        name: s("Boost kPa"),
        formula: s("Boost * 100"),
        unit: s("kPa"),
        description: None,
    });
    match tool_result(&call, Ok(IpcResponse::ok())) {
        Ok(ToolOutput::Text(t)) => assert_eq!(t, "Computed channel 'Boost kPa' created"),
        other => panic!("unexpected {:?}", other),
    }
    match tool_result(&ToolCall::Stop, Ok(IpcResponse::Success(None))) {
        Ok(ToolOutput::Text(t)) => assert_eq!(t, "Playback stopped"),
        other => panic!("unexpected {:?}", other),
    }
}

#[test]
fn time_range_needs_both_ends() {
    let call = ToolCall::GetChannelData(ChannelDataRequest {
        file_id: s("f1"),
        channel_name: s("RPM"),
        start_time: Some(Number::PosInt(1)),
        end_time: None,
    });
    assert!(matches!(command_for(&call), IpcCommand::GetChannelData { time_range: None, .. }));
    let call = ToolCall::GetChannelData(ChannelDataRequest {
        file_id: s("f1"),
        channel_name: s("RPM"),
        start_time: Some(Number::PosInt(1)),
        end_time: Some(Number::PosInt(4)),
    });
    assert!(matches!(
        command_for(&call),
        IpcCommand::GetChannelData { time_range: Some((Number::PosInt(1), Number::PosInt(4))), .. }
    ));
}

#[test]
fn channel_data_document_counts_samples() {
    let call = ToolCall::GetChannelData(ChannelDataRequest {
        file_id: s("f1"),
        channel_name: s("RPM"),
        start_time: None,
        end_time: None,
    });
    let data = ResponseData::ChannelData {
        times: vec![Number::PosInt(0), Number::PosInt(1)],
        values: vec![Number::PosInt(900), Number::PosInt(950)],
    };
    match tool_result(&call, Ok(IpcResponse::ok_with_data(data))) {
        Ok(ToolOutput::Document(Json::Object(ms))) => {
            assert_eq!(ms[0].0, "sample_count");
            assert!(matches!(ms[0].1, Json::Num(Number::PosInt(2))));
        }
        other => panic!("unexpected {:?}", other),
    }
}

#[test]
fn two_connections_get_their_own_replies() {
    // Each connection has its own handler state and its own reply sink.
    let ping = || line("{\"type\":\"Ping\"}", Ok(encode_command(&IpcCommand::Ping)));
    let (a, _) = handler_step(HandlerState::Reading, ping());
    let (b, _) = handler_step(HandlerState::Reading, ping());
    assert_eq!((a, b), (HandlerState::Dispatched, HandlerState::Dispatched));
    let (_, to_a) = handler_step(a, HandlerEvent::Reply(IpcResponse::ok_with_data(ResponseData::Pong)));
    let (_, to_b) = handler_step(b, HandlerEvent::Reply(IpcResponse::ok()));
    assert!(matches!(to_a, HandlerAction::Write(IpcResponse::Success(Some(ResponseData::Pong)))));
    assert!(matches!(to_b, HandlerAction::Write(IpcResponse::Success(Some(ResponseData::Ack)))));
}

#[test]
fn write_failure_drops_the_connection() {
    let mut link = ClientLink::with_port(9);
    link.step(ClientEvent::Call(IpcCommand::Ping));
    link.step(ClientEvent::Connected);
    match link.step(ClientEvent::WriteFailed(s("broken pipe"))) {
        ClientAction::Finish { outcome: Err(m), keep_connection: false } => {
            assert_eq!(m, "Failed to send command: broken pipe")
        }
        other => panic!("unexpected {:?}", other),
    }
    assert!(matches!(link.step(ClientEvent::Disconnect), ClientAction::Drop));
    assert!(matches!(link.step(ClientEvent::Call(IpcCommand::Ping)), ClientAction::Connect { port: 9 }));
}

#[test]
fn unknown_response_line_is_a_parse_failure() {
    let mut link = ClientLink::with_port(9);
    link.step(ClientEvent::Call(IpcCommand::Ping));
    link.step(ClientEvent::Connected);
    link.step(ClientEvent::Sent);
    let odd = Json::Object(vec![(s("status"), Json::Str(s("Maybe")))]);
    match link.step(ClientEvent::Received { parsed: Ok(odd) }) {
        ClientAction::Finish { outcome: Err(m), keep_connection: false } => {
            assert_eq!(m, "Failed to parse response: not a known response")
        }
        other => panic!("unexpected {:?}", other),
    }
}

#[test]
fn liveness_needs_a_success() {
    assert!(is_alive(&Ok(IpcResponse::ok_with_data(ResponseData::Pong))));
    assert!(!is_alive(&Ok(IpcResponse::error("busy"))));
    assert!(!is_alive(&Err(s("Failed to connect to UltraLog GUI at 127.0.0.1:1: refused"))));
}

#[test]
fn connect_failure_names_the_address() {
    let mut link = ClientLink::with_port(52452);
    link.step(ClientEvent::Call(IpcCommand::Ping));
    match link.step(ClientEvent::ConnectFailed(s("Connection refused (os error 111)"))) {
        ClientAction::Finish { outcome: Err(m), keep_connection: false } => {
            assert_eq!(m, "Failed to connect to UltraLog GUI at 127.0.0.1:52452: Connection refused (os error 111)")
        }
        other => panic!("unexpected {:?}", other),
    }
    assert_eq!(ultralog::client::decimal_text(0), "0");
    assert_eq!(ultralog::client::decimal_text(65535), "65535");
}

#[test]
fn correlation_and_formula_documents_are_exact() {
    let call = ToolCall::CorrelateChannels(ultralog::tools::CorrelateChannelsRequest {
        file_id: s("f1"),
        channel_a: s("RPM"),
        channel_b: s("MAP"),
    });
    assert!(matches!(
        command_for(&call),
        IpcCommand::CorrelateChannels { ref channel_a, ref channel_b, .. } if channel_a == "RPM" && channel_b == "MAP"
    ));
    let data = ResponseData::Correlation { coefficient: Number::Float(0.9f64.to_bits()), interpretation: s("strong") };
    match tool_result(&call, Ok(IpcResponse::ok_with_data(data))) {
        Ok(ToolOutput::Document(Json::Object(ms))) => {
            let names: Vec<&str> = ms.iter().map(|(k, _)| k.as_str()).collect();
            assert_eq!(names, vec!["coefficient", "interpretation"]);
        }
        other => panic!("unexpected {:?}", other),
    }
    let stats = ultralog::response::ChannelStats {
        min: Number::PosInt(1),
        max: Number::PosInt(2),
        mean: Number::PosInt(1),
        std_dev: Number::PosInt(0),
        median: Number::PosInt(1),
        count: 2,
        min_time: Number::PosInt(0),
        max_time: Number::PosInt(1),
    };
    let call = ToolCall::EvaluateFormula(ultralog::tools::EvaluateFormulaRequest {
        file_id: s("f1"),
        formula: s("RPM / 1000"),
        start_time: None,
        end_time: Some(Number::PosInt(3)),
    });
    assert!(matches!(command_for(&call), IpcCommand::EvaluateFormula { time_range: None, .. }));
    let data = ResponseData::FormulaResult {
        times: vec![Number::PosInt(0), Number::PosInt(1)],
        values: vec![Number::PosInt(1), Number::PosInt(2)],
        stats,
    };
    match tool_result(&call, Ok(IpcResponse::ok_with_data(data))) {
        Ok(ToolOutput::Document(Json::Object(ms))) => {
            let names: Vec<&str> = ms.iter().map(|(k, _)| k.as_str()).collect();
            assert_eq!(names, vec!["sample_count", "stats", "times", "values"]);
            assert!(matches!(ms[0].1, Json::Num(Number::PosInt(2))));
        }
        other => panic!("unexpected {:?}", other),
    }
}
