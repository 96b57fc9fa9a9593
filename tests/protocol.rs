use ultralog::command::{decode_command, encode_command, IpcCommand};
use ultralog::json::{Json, Number};
use ultralog::response::{
    decode_response, encode_response, AppState, ChannelInfo, ChannelStats, FileInfo, IpcResponse, Peak,
    ResponseData, SelectedChannelInfo,
};

fn s(t: &str) -> String {
    t.to_string()
}

fn obj(members: Vec<(&str, Json)>) -> Json {
    Json::Object(members.into_iter().map(|(k, v)| (k.to_string(), v)).collect())
}

fn round_trip(c: IpcCommand) -> IpcCommand {
    decode_command(&encode_command(&c)).expect("an encoded command reads back")
}

#[test]
fn ping_record_decodes() {
    let j = obj(vec![("type", Json::Str(s("Ping")))]);
    assert!(matches!(decode_command(&j), Some(IpcCommand::Ping)));
}

#[test]
fn load_file_record_decodes() {
    let j = obj(vec![
        ("type", Json::Str(s("LoadFile"))),
        ("payload", obj(vec![("path", Json::Str(s("a.csv")))])),
    ]);
    match decode_command(&j) {
        Some(IpcCommand::LoadFile { path }) => assert_eq!(path, "a.csv"),
        other => panic!("unexpected {:?}", other),
    }
}

#[test]
fn member_order_and_extra_members_do_not_matter() {
    let j = obj(vec![
        ("payload", obj(vec![("channel_name", Json::Str(s("RPM"))), ("extra", Json::Null), ("file_id", Json::Str(s("f1")))])),
        ("type", Json::Str(s("SelectChannel"))),
    ]);
    match decode_command(&j) {
        Some(IpcCommand::SelectChannel { file_id, channel_name }) => {
            assert_eq!(file_id, "f1");
            assert_eq!(channel_name, "RPM");
        }
        other => panic!("unexpected {:?}", other),
    }
}

#[test]
fn records_that_are_not_commands_are_refused() {
    assert!(decode_command(&Json::Null).is_none());
    assert!(decode_command(&obj(vec![("type", Json::Str(s("Launch")))])).is_none());
    assert!(decode_command(&obj(vec![("type", Json::Num(Number::PosInt(1)))])).is_none());
    // A command with fields needs its payload.
    assert!(decode_command(&obj(vec![("type", Json::Str(s("LoadFile")))])).is_none());
    // A field of the wrong kind.
    let j = obj(vec![
        ("type", Json::Str(s("SetCursor"))),
        ("payload", obj(vec![("time", Json::Str(s("soon")))])),
    ]);
    assert!(decode_command(&j).is_none());
}

#[test]
fn optional_fields_may_be_absent() {
    let j = obj(vec![("type", Json::Str(s("Play"))), ("payload", obj(vec![]))]);
    assert!(matches!(decode_command(&j), Some(IpcCommand::Play { speed: None })));
}

#[test]
fn commands_round_trip() {
    let half = Number::Float(0.5f64.to_bits());
    match round_trip(IpcCommand::GetChannelData {
        file_id: s("f1"),
        channel_name: s("Boost"),
        time_range: Some((Number::PosInt(1), half)),
    }) {
        IpcCommand::GetChannelData { file_id, channel_name, time_range } => {
            assert_eq!(file_id, "f1");
            assert_eq!(channel_name, "Boost");
            assert_eq!(time_range, Some((Number::PosInt(1), half)));
        }
        other => panic!("unexpected {:?}", other),
    }
    match round_trip(IpcCommand::CreateComputedChannel {
        name: s("Half"),
        formula: s("RPM * 0.5"),
        unit: s("rpm"),
        description: None,
    }) {
        IpcCommand::CreateComputedChannel { name, formula, unit, description } => {
            assert_eq!((name.as_str(), formula.as_str(), unit.as_str()), ("Half", "RPM * 0.5", "rpm"));
            assert_eq!(description, None);
        }
        other => panic!("unexpected {:?}", other),
    }
    match round_trip(IpcCommand::CorrelateChannels { file_id: s("f"), channel_a: s("a"), channel_b: s("b") }) {
        IpcCommand::CorrelateChannels { file_id, channel_a, channel_b } => {
            assert_eq!((file_id.as_str(), channel_a.as_str(), channel_b.as_str()), ("f", "a", "b"));
        }
        other => panic!("unexpected {:?}", other),
    }
    assert!(matches!(
        round_trip(IpcCommand::SetTimeRange { start: Number::NegInt(-2), end: Number::PosInt(3) }),
        IpcCommand::SetTimeRange { start: Number::NegInt(-2), end: Number::PosInt(3) }
    ));
    assert!(matches!(round_trip(IpcCommand::Stop), IpcCommand::Stop));
    assert!(matches!(round_trip(IpcCommand::ShowChart), IpcCommand::ShowChart));
}

#[test]
fn ping_is_written_with_its_type_only() {
    match encode_command(&IpcCommand::Ping) {
        Json::Object(ms) => {
            assert_eq!(ms.len(), 1);
            assert_eq!(ms[0].0, "type");
            assert!(matches!(&ms[0].1, Json::Str(t) if t == "Ping"));
        }
        other => panic!("unexpected {:?}", other),
    }
}

fn file_info() -> FileInfo {
    FileInfo {
        id: s("f1"),
        path: s("a.csv"),
        name: s("a.csv"),
        ecu_type: s("Haltech"),
        channel_count: 3,
        record_count: 100,
        duration: Number::Float(2.0f64.to_bits()),
        sample_rate: Number::PosInt(50),
    }
}

#[test]
fn responses_round_trip() {
    let state = AppState {
        files: vec![file_info()],
        active_file: Some(s("f1")),
        selected_channels: vec![SelectedChannelInfo { file_id: s("f1"), channel_name: s("RPM"), color: s("#ff0000") }],
        cursor_time: None,
        visible_time_range: Some((Number::PosInt(0), Number::PosInt(2))),
        is_playing: false,
        view_mode: s("chart"),
    };
    match decode_response(&encode_response(&IpcResponse::ok_with_data(ResponseData::State(state)))) {
        Some(IpcResponse::Success(Some(ResponseData::State(st)))) => {
            assert_eq!(st.files.len(), 1);
            assert_eq!(st.files[0].id, "f1");
            assert_eq!(st.files[0].channel_count, 3);
            assert_eq!(st.active_file.as_deref(), Some("f1"));
            assert_eq!(st.selected_channels[0].color, "#ff0000");
            assert_eq!(st.visible_time_range, Some((Number::PosInt(0), Number::PosInt(2))));
            assert!(!st.is_playing);
            assert_eq!(st.view_mode, "chart");
        }
        other => panic!("unexpected {:?}", other),
    }
    let channels = vec![ChannelInfo {
        name: s("RPM"),
        unit: s("rpm"),
        channel_type: s("engine"),
        is_computed: false,
        min_value: Some(Number::PosInt(800)),
        max_value: None,
    }];
    match decode_response(&encode_response(&IpcResponse::ok_with_data(ResponseData::Channels(channels)))) {
        Some(IpcResponse::Success(Some(ResponseData::Channels(cs)))) => {
            assert_eq!(cs.len(), 1);
            assert_eq!(cs[0].name, "RPM");
            assert_eq!(cs[0].min_value, Some(Number::PosInt(800)));
            assert_eq!(cs[0].max_value, None);
        }
        other => panic!("unexpected {:?}", other),
    }
    let peaks = vec![Peak { time: Number::PosInt(1), value: Number::PosInt(7), prominence: Number::PosInt(2) }];
    match decode_response(&encode_response(&IpcResponse::ok_with_data(ResponseData::Peaks(peaks)))) {
        Some(IpcResponse::Success(Some(ResponseData::Peaks(ps)))) => {
            assert_eq!(ps, vec![Peak { time: Number::PosInt(1), value: Number::PosInt(7), prominence: Number::PosInt(2) }]);
        }
        other => panic!("unexpected {:?}", other),
    }
    match decode_response(&encode_response(&IpcResponse::error("no such file"))) {
        Some(IpcResponse::Error { message }) => assert_eq!(message, "no such file"),
        other => panic!("unexpected {:?}", other),
    }
    assert!(matches!(decode_response(&encode_response(&IpcResponse::ok())), Some(IpcResponse::Success(Some(ResponseData::Ack)))));
    assert!(matches!(decode_response(&encode_response(&IpcResponse::Success(None))), Some(IpcResponse::Success(None))));
}

#[test]
fn formula_result_round_trips() {
    let stats = ChannelStats {
        min: Number::PosInt(1),
        max: Number::PosInt(9),
        mean: Number::PosInt(5),
        std_dev: Number::PosInt(2),
        median: Number::PosInt(5),
        count: 3,
        min_time: Number::PosInt(0),
        max_time: Number::PosInt(2),
    };
    let data = ResponseData::FormulaResult {
        times: vec![Number::PosInt(0), Number::PosInt(1), Number::PosInt(2)],
        values: vec![Number::PosInt(1), Number::PosInt(5), Number::PosInt(9)],
        stats,
    };
    match decode_response(&encode_response(&IpcResponse::ok_with_data(data))) {
        Some(IpcResponse::Success(Some(ResponseData::FormulaResult { times, values, stats: st }))) => {
            assert_eq!(times.len(), 3);
            assert_eq!(values[2], Number::PosInt(9));
            assert_eq!(st, stats);
        }
        other => panic!("unexpected {:?}", other),
    }
}

#[test]
fn response_records_decode() {
    let ok_ack = obj(vec![("status", Json::Str(s("Ok"))), ("data", obj(vec![("type", Json::Str(s("Ack")))]))]);
    assert!(matches!(decode_response(&ok_ack), Some(IpcResponse::Success(Some(ResponseData::Ack)))));
    let ok_null = obj(vec![("status", Json::Str(s("Ok"))), ("data", Json::Null)]);
    assert!(matches!(decode_response(&ok_null), Some(IpcResponse::Success(None))));
    let err = obj(vec![("status", Json::Str(s("Error"))), ("data", obj(vec![("message", Json::Str(s("bad")))]))]);
    assert!(matches!(decode_response(&err), Some(IpcResponse::Error { message }) if message == "bad"));
    let unknown = obj(vec![("status", Json::Str(s("Maybe")))]);
    assert!(decode_response(&unknown).is_none());
    let no_message = obj(vec![("status", Json::Str(s("Error"))), ("data", Json::Null)]);
    assert!(decode_response(&no_message).is_none());
}

#[test]
fn counts_beyond_a_negative_are_refused() {
    let mut j = encode_response(&IpcResponse::ok_with_data(ResponseData::FileLoaded(file_info())));
    if let Json::Object(ms) = &mut j {
        if let Json::Object(d) = &mut ms[1].1 {
            if let Json::Object(v) = &mut d[1].1 {
                v[4].1 = Json::Num(Number::NegInt(-3));
            }
        }
    }
    assert!(decode_response(&j).is_none());
}

fn keys(j: &Json) -> Vec<String> {
    match j {
        Json::Object(ms) => ms.iter().map(|(k, _)| k.clone()).collect(),
        other => panic!("not an object: {:?}", other),
    }
}

fn member_of<'a>(j: &'a Json, key: &str) -> &'a Json {
    match j {
        Json::Object(ms) => &ms.iter().find(|(k, _)| k == key).expect("member present").1,
        other => panic!("not an object: {:?}", other),
    }
}

#[test]
fn ack_record_is_exact() {
    let j = encode_response(&IpcResponse::ok());
    assert_eq!(keys(&j), vec!["status", "data"]);
    assert!(matches!(member_of(&j, "status"), Json::Str(t) if t == "Ok"));
    let data = member_of(&j, "data");
    assert_eq!(keys(data), vec!["type"]);
    assert!(matches!(member_of(data, "type"), Json::Str(t) if t == "Ack"));
}

#[test]
fn error_record_is_exact() {
    let j = encode_response(&IpcResponse::error("Timeout waiting for GUI response"));
    assert_eq!(keys(&j), vec!["status", "data"]);
    assert!(matches!(member_of(&j, "status"), Json::Str(t) if t == "Error"));
    let data = member_of(&j, "data");
    assert_eq!(keys(data), vec!["message"]);
    assert!(matches!(member_of(data, "message"), Json::Str(t) if t == "Timeout waiting for GUI response"));
}

#[test]
fn load_file_record_is_exact() {
    let j = encode_command(&IpcCommand::LoadFile { path: s("a.csv") });
    assert_eq!(keys(&j), vec!["type", "payload"]);
    assert!(matches!(member_of(&j, "type"), Json::Str(t) if t == "LoadFile"));
    let p = member_of(&j, "payload");
    assert_eq!(keys(p), vec!["path"]);
    assert!(matches!(member_of(p, "path"), Json::Str(t) if t == "a.csv"));
}

#[test]
fn file_loaded_record_is_exact() {
    let j = encode_response(&IpcResponse::ok_with_data(ResponseData::FileLoaded(file_info())));
    let data = member_of(&j, "data");
    assert_eq!(keys(data), vec!["type", "value"]);
    let v = member_of(data, "value");
    assert_eq!(
        keys(v),
        vec!["id", "path", "name", "ecu_type", "channel_count", "record_count", "duration", "sample_rate"]
    );
    assert!(matches!(member_of(v, "channel_count"), Json::Num(Number::PosInt(3))));
}
