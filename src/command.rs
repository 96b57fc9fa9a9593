//! Commands sent from the gateway to the viewer, and their wire form
//! `{"type": <name>, "payload": {...}}`.
use vstd::prelude::*;
use crate::json::{
    Json, has_members, field, text_is, opt_text_is, opt_num_is, opt_pair_is, Number, lookup, members_of, is_object, opt_text, str_at, opt_str_at, num_at, opt_num_at,
    opt_pair_at, get_member, get_str, get_opt_str, get_num, get_opt_num, get_opt_pair, str_eq, text,
    write_opt_pair, write_opt_num, write_opt_str, member, string,
};

verus! {

/// One operation that the viewer is asked to perform. A time range is a
/// `(start, end)` pair of seconds.
#[derive(Debug)]
pub enum IpcCommand {
    Ping,
    GetState,
    LoadFile { path: String },
    CloseFile { file_id: String },
    ListChannels { file_id: String },
    GetChannelData { file_id: String, channel_name: String, time_range: Option<(Number, Number)> },
    GetChannelStats { file_id: String, channel_name: String, time_range: Option<(Number, Number)> },
    SelectChannel { file_id: String, channel_name: String },
    DeselectChannel { file_id: String, channel_name: String },
    DeselectAllChannels,
    CreateComputedChannel { name: String, formula: String, unit: String, description: Option<String> },
    DeleteComputedChannel { name: String },
    ListComputedChannels,
    EvaluateFormula { file_id: String, formula: String, time_range: Option<(Number, Number)> },
    SetTimeRange { start: Number, end: Number },
    SetCursor { time: Number },
    Play { speed: Option<Number> },
    Pause,
    Stop,
    GetCursorValues { file_id: String },
    FindPeaks { file_id: String, channel_name: String, min_prominence: Option<Number> },
    CorrelateChannels { file_id: String, channel_a: String, channel_b: String },
    ShowScatterPlot { file_id: String, x_channel: String, y_channel: String },
    ShowChart,
}

/// The mathematical value of an `IpcCommand`: its text fields as character
/// sequences.
pub enum CommandModel {
    Ping,
    GetState,
    LoadFile { path: Seq<char> },
    CloseFile { file_id: Seq<char> },
    ListChannels { file_id: Seq<char> },
    GetChannelData { file_id: Seq<char>, channel_name: Seq<char>, time_range: Option<(Number, Number)> },
    GetChannelStats { file_id: Seq<char>, channel_name: Seq<char>, time_range: Option<(Number, Number)> },
    SelectChannel { file_id: Seq<char>, channel_name: Seq<char> },
    DeselectChannel { file_id: Seq<char>, channel_name: Seq<char> },
    DeselectAllChannels,
    CreateComputedChannel { name: Seq<char>, formula: Seq<char>, unit: Seq<char>, description: Option<Seq<char>> },
    DeleteComputedChannel { name: Seq<char> },
    ListComputedChannels,
    EvaluateFormula { file_id: Seq<char>, formula: Seq<char>, time_range: Option<(Number, Number)> },
    SetTimeRange { start: Number, end: Number },
    SetCursor { time: Number },
    Play { speed: Option<Number> },
    Pause,
    Stop,
    GetCursorValues { file_id: Seq<char> },
    FindPeaks { file_id: Seq<char>, channel_name: Seq<char>, min_prominence: Option<Number> },
    CorrelateChannels { file_id: Seq<char>, channel_a: Seq<char>, channel_b: Seq<char> },
    ShowScatterPlot { file_id: Seq<char>, x_channel: Seq<char>, y_channel: Seq<char> },
    ShowChart,
}

impl View for IpcCommand {
    type V = CommandModel;

    open spec fn view(&self) -> CommandModel {
        match self {
            IpcCommand::Ping => CommandModel::Ping,
            IpcCommand::GetState => CommandModel::GetState,
            IpcCommand::LoadFile { path } => CommandModel::LoadFile { path: path@ },
            IpcCommand::CloseFile { file_id } => CommandModel::CloseFile { file_id: file_id@ },
            IpcCommand::ListChannels { file_id } => CommandModel::ListChannels { file_id: file_id@ },
            IpcCommand::GetChannelData { file_id, channel_name, time_range } =>
                CommandModel::GetChannelData { file_id: file_id@, channel_name: channel_name@, time_range: *time_range },
            IpcCommand::GetChannelStats { file_id, channel_name, time_range } =>
                CommandModel::GetChannelStats { file_id: file_id@, channel_name: channel_name@, time_range: *time_range },
            IpcCommand::SelectChannel { file_id, channel_name } =>
                CommandModel::SelectChannel { file_id: file_id@, channel_name: channel_name@ },
            IpcCommand::DeselectChannel { file_id, channel_name } =>
                CommandModel::DeselectChannel { file_id: file_id@, channel_name: channel_name@ },
            IpcCommand::DeselectAllChannels => CommandModel::DeselectAllChannels,
            IpcCommand::CreateComputedChannel { name, formula, unit, description } =>
                CommandModel::CreateComputedChannel {
                    name: name@,
                    formula: formula@,
                    unit: unit@,
                    description: opt_text(*description),
                },
            IpcCommand::DeleteComputedChannel { name } => CommandModel::DeleteComputedChannel { name: name@ },
            IpcCommand::ListComputedChannels => CommandModel::ListComputedChannels,
            IpcCommand::EvaluateFormula { file_id, formula, time_range } =>
                CommandModel::EvaluateFormula { file_id: file_id@, formula: formula@, time_range: *time_range },
            IpcCommand::SetTimeRange { start, end } => CommandModel::SetTimeRange { start: *start, end: *end },
            IpcCommand::SetCursor { time } => CommandModel::SetCursor { time: *time },
            IpcCommand::Play { speed } => CommandModel::Play { speed: *speed },
            IpcCommand::Pause => CommandModel::Pause,
            IpcCommand::Stop => CommandModel::Stop,
            IpcCommand::GetCursorValues { file_id } => CommandModel::GetCursorValues { file_id: file_id@ },
            IpcCommand::FindPeaks { file_id, channel_name, min_prominence } =>
                CommandModel::FindPeaks { file_id: file_id@, channel_name: channel_name@, min_prominence: *min_prominence },
            IpcCommand::CorrelateChannels { file_id, channel_a, channel_b } =>
                CommandModel::CorrelateChannels { file_id: file_id@, channel_a: channel_a@, channel_b: channel_b@ },
            IpcCommand::ShowScatterPlot { file_id, x_channel, y_channel } =>
                CommandModel::ShowScatterPlot { file_id: file_id@, x_channel: x_channel@, y_channel: y_channel@ },
            IpcCommand::ShowChart => CommandModel::ShowChart,
        }
    }
}

/// The command that a wire record denotes, if it denotes one: an object whose
/// `type` member names an operation and whose `payload` object holds that
/// operation's fields. Members that the operation does not use are ignored.
pub open spec fn command_of(j: Json) -> Option<CommandModel> {
    match j {
        Json::Object(ms) => match lookup(ms@, "type"@) {
            Some(Json::Str(t)) => command_from(t@, lookup(ms@, "payload"@)),
            _ => None,
        },
        _ => None,
    }
}

/// The command named `tag`, with its fields read from `payload`.
pub open spec fn command_from(tag: Seq<char>, payload: Option<Json>) -> Option<CommandModel> {
    let p = members_of(payload);
    let obj = is_object(payload);
    if tag == "Ping"@ {
        Some(CommandModel::Ping)
    } else if tag == "GetState"@ {
        Some(CommandModel::GetState)
    } else if tag == "DeselectAllChannels"@ {
        Some(CommandModel::DeselectAllChannels)
    } else if tag == "ListComputedChannels"@ {
        Some(CommandModel::ListComputedChannels)
    } else if tag == "Pause"@ {
        Some(CommandModel::Pause)
    } else if tag == "Stop"@ {
        Some(CommandModel::Stop)
    } else if tag == "ShowChart"@ {
        Some(CommandModel::ShowChart)
    } else if !obj {
        None
    } else if tag == "LoadFile"@ {
        if str_at(p, "path"@) is Some {
            Some(CommandModel::LoadFile { path: str_at(p, "path"@).unwrap() })
        } else {
            None
        }
    } else if tag == "CloseFile"@ {
        if str_at(p, "file_id"@) is Some {
            Some(CommandModel::CloseFile { file_id: str_at(p, "file_id"@).unwrap() })
        } else {
            None
        }
    } else if tag == "ListChannels"@ {
        if str_at(p, "file_id"@) is Some {
            Some(CommandModel::ListChannels { file_id: str_at(p, "file_id"@).unwrap() })
        } else {
            None
        }
    } else if tag == "GetChannelData"@ {
        if str_at(p, "file_id"@) is Some && str_at(p, "channel_name"@) is Some && opt_pair_at(p, "time_range"@) is Some {
            Some(CommandModel::GetChannelData {
                file_id: str_at(p, "file_id"@).unwrap(),
                channel_name: str_at(p, "channel_name"@).unwrap(),
                time_range: opt_pair_at(p, "time_range"@).unwrap(),
            })
        } else {
            None
        }
    } else if tag == "GetChannelStats"@ {
        if str_at(p, "file_id"@) is Some && str_at(p, "channel_name"@) is Some && opt_pair_at(p, "time_range"@) is Some {
            Some(CommandModel::GetChannelStats {
                file_id: str_at(p, "file_id"@).unwrap(),
                channel_name: str_at(p, "channel_name"@).unwrap(),
                time_range: opt_pair_at(p, "time_range"@).unwrap(),
            })
        } else {
            None
        }
    } else if tag == "SelectChannel"@ {
        if str_at(p, "file_id"@) is Some && str_at(p, "channel_name"@) is Some {
            Some(CommandModel::SelectChannel {
                file_id: str_at(p, "file_id"@).unwrap(),
                channel_name: str_at(p, "channel_name"@).unwrap(),
            })
        } else {
            None
        }
    } else if tag == "DeselectChannel"@ {
        if str_at(p, "file_id"@) is Some && str_at(p, "channel_name"@) is Some {
            Some(CommandModel::DeselectChannel {
                file_id: str_at(p, "file_id"@).unwrap(),
                channel_name: str_at(p, "channel_name"@).unwrap(),
            })
        } else {
            None
        }
    } else if tag == "CreateComputedChannel"@ {
        if str_at(p, "name"@) is Some && str_at(p, "formula"@) is Some && str_at(p, "unit"@) is Some
            && opt_str_at(p, "description"@) is Some {
            Some(CommandModel::CreateComputedChannel {
                name: str_at(p, "name"@).unwrap(),
                formula: str_at(p, "formula"@).unwrap(),
                unit: str_at(p, "unit"@).unwrap(),
                description: opt_str_at(p, "description"@).unwrap(),
            })
        } else {
            None
        }
    } else if tag == "DeleteComputedChannel"@ {
        if str_at(p, "name"@) is Some {
            Some(CommandModel::DeleteComputedChannel { name: str_at(p, "name"@).unwrap() })
        } else {
            None
        }
    } else if tag == "EvaluateFormula"@ {
        if str_at(p, "file_id"@) is Some && str_at(p, "formula"@) is Some && opt_pair_at(p, "time_range"@) is Some {
            Some(CommandModel::EvaluateFormula {
                file_id: str_at(p, "file_id"@).unwrap(),
                formula: str_at(p, "formula"@).unwrap(),
                time_range: opt_pair_at(p, "time_range"@).unwrap(),
            })
        } else {
            None
        }
    } else if tag == "SetTimeRange"@ {
        if num_at(p, "start"@) is Some && num_at(p, "end"@) is Some {
            Some(CommandModel::SetTimeRange { start: num_at(p, "start"@).unwrap(), end: num_at(p, "end"@).unwrap() })
        } else {
            None
        }
    } else if tag == "SetCursor"@ {
        if num_at(p, "time"@) is Some {
            Some(CommandModel::SetCursor { time: num_at(p, "time"@).unwrap() })
        } else {
            None
        }
    } else if tag == "Play"@ {
        if opt_num_at(p, "speed"@) is Some {
            Some(CommandModel::Play { speed: opt_num_at(p, "speed"@).unwrap() })
        } else {
            None
        }
    } else if tag == "GetCursorValues"@ {
        if str_at(p, "file_id"@) is Some {
            Some(CommandModel::GetCursorValues { file_id: str_at(p, "file_id"@).unwrap() })
        } else {
            None
        }
    } else if tag == "FindPeaks"@ {
        if str_at(p, "file_id"@) is Some && str_at(p, "channel_name"@) is Some && opt_num_at(p, "min_prominence"@) is Some {
            Some(CommandModel::FindPeaks {
                file_id: str_at(p, "file_id"@).unwrap(),
                channel_name: str_at(p, "channel_name"@).unwrap(),
                min_prominence: opt_num_at(p, "min_prominence"@).unwrap(),
            })
        } else {
            None
        }
    } else if tag == "CorrelateChannels"@ {
        if str_at(p, "file_id"@) is Some && str_at(p, "channel_a"@) is Some && str_at(p, "channel_b"@) is Some {
            Some(CommandModel::CorrelateChannels {
                file_id: str_at(p, "file_id"@).unwrap(),
                channel_a: str_at(p, "channel_a"@).unwrap(),
                channel_b: str_at(p, "channel_b"@).unwrap(),
            })
        } else {
            None
        }
    } else if tag == "ShowScatterPlot"@ {
        if str_at(p, "file_id"@) is Some && str_at(p, "x_channel"@) is Some && str_at(p, "y_channel"@) is Some {
            Some(CommandModel::ShowScatterPlot {
                file_id: str_at(p, "file_id"@).unwrap(),
                x_channel: str_at(p, "x_channel"@).unwrap(),
                y_channel: str_at(p, "y_channel"@).unwrap(),
            })
        } else {
            None
        }
    } else {
        None
    }
}

/// The characters of the names used in command records.
proof fn lemma_command_words()
    ensures
        "type"@.len() == 4,
        "type"@[0] == 't',
        "type"@[1] == 'y',
        "type"@[2] == 'p',
        "type"@[3] == 'e',
        "payload"@.len() == 7,
        "payload"@[0] == 'p',
        "payload"@[1] == 'a',
        "payload"@[2] == 'y',
        "payload"@[3] == 'l',
        "payload"@[4] == 'o',
        "payload"@[5] == 'a',
        "payload"@[6] == 'd',
        "Ping"@.len() == 4,
        "Ping"@[0] == 'P',
        "Ping"@[1] == 'i',
        "Ping"@[2] == 'n',
        "Ping"@[3] == 'g',
        "GetState"@.len() == 8,
        "GetState"@[0] == 'G',
        "GetState"@[1] == 'e',
        "GetState"@[2] == 't',
        "GetState"@[3] == 'S',
        "GetState"@[4] == 't',
        "GetState"@[5] == 'a',
        "GetState"@[6] == 't',
        "GetState"@[7] == 'e',
        "DeselectAllChannels"@.len() == 19,
        "DeselectAllChannels"@[0] == 'D',
        "DeselectAllChannels"@[1] == 'e',
        "DeselectAllChannels"@[2] == 's',
        "DeselectAllChannels"@[3] == 'e',
        "DeselectAllChannels"@[4] == 'l',
        "DeselectAllChannels"@[5] == 'e',
        "DeselectAllChannels"@[6] == 'c',
        "DeselectAllChannels"@[7] == 't',
        "DeselectAllChannels"@[8] == 'A',
        "DeselectAllChannels"@[9] == 'l',
        "DeselectAllChannels"@[10] == 'l',
        "DeselectAllChannels"@[11] == 'C',
        "DeselectAllChannels"@[12] == 'h',
        "DeselectAllChannels"@[13] == 'a',
        "DeselectAllChannels"@[14] == 'n',
        "DeselectAllChannels"@[15] == 'n',
        "DeselectAllChannels"@[16] == 'e',
        "DeselectAllChannels"@[17] == 'l',
        "DeselectAllChannels"@[18] == 's',
        "ListComputedChannels"@.len() == 20,
        "ListComputedChannels"@[0] == 'L',
        "ListComputedChannels"@[1] == 'i',
        "ListComputedChannels"@[2] == 's',
        "ListComputedChannels"@[3] == 't',
        "ListComputedChannels"@[4] == 'C',
        "ListComputedChannels"@[5] == 'o',
        "ListComputedChannels"@[6] == 'm',
        "ListComputedChannels"@[7] == 'p',
        "ListComputedChannels"@[8] == 'u',
        "ListComputedChannels"@[9] == 't',
        "ListComputedChannels"@[10] == 'e',
        "ListComputedChannels"@[11] == 'd',
        "ListComputedChannels"@[12] == 'C',
        "ListComputedChannels"@[13] == 'h',
        "ListComputedChannels"@[14] == 'a',
        "ListComputedChannels"@[15] == 'n',
        "ListComputedChannels"@[16] == 'n',
        "ListComputedChannels"@[17] == 'e',
        "ListComputedChannels"@[18] == 'l',
        "ListComputedChannels"@[19] == 's',
        "Pause"@.len() == 5,
        "Pause"@[0] == 'P',
        "Pause"@[1] == 'a',
        "Pause"@[2] == 'u',
        "Pause"@[3] == 's',
        "Pause"@[4] == 'e',
        "Stop"@.len() == 4,
        "Stop"@[0] == 'S',
        "Stop"@[1] == 't',
        "Stop"@[2] == 'o',
        "Stop"@[3] == 'p',
        "ShowChart"@.len() == 9,
        "ShowChart"@[0] == 'S',
        "ShowChart"@[1] == 'h',
        "ShowChart"@[2] == 'o',
        "ShowChart"@[3] == 'w',
        "ShowChart"@[4] == 'C',
        "ShowChart"@[5] == 'h',
        "ShowChart"@[6] == 'a',
        "ShowChart"@[7] == 'r',
        "ShowChart"@[8] == 't',
        "LoadFile"@.len() == 8,
        "LoadFile"@[0] == 'L',
        "LoadFile"@[1] == 'o',
        "LoadFile"@[2] == 'a',
        "LoadFile"@[3] == 'd',
        "LoadFile"@[4] == 'F',
        "LoadFile"@[5] == 'i',
        "LoadFile"@[6] == 'l',
        "LoadFile"@[7] == 'e',
        "CloseFile"@.len() == 9,
        "CloseFile"@[0] == 'C',
        "CloseFile"@[1] == 'l',
        "CloseFile"@[2] == 'o',
        "CloseFile"@[3] == 's',
        "CloseFile"@[4] == 'e',
        "CloseFile"@[5] == 'F',
        "CloseFile"@[6] == 'i',
        "CloseFile"@[7] == 'l',
        "CloseFile"@[8] == 'e',
        "ListChannels"@.len() == 12,
        "ListChannels"@[0] == 'L',
        "ListChannels"@[1] == 'i',
        "ListChannels"@[2] == 's',
        "ListChannels"@[3] == 't',
        "ListChannels"@[4] == 'C',
        "ListChannels"@[5] == 'h',
        "ListChannels"@[6] == 'a',
        "ListChannels"@[7] == 'n',
        "ListChannels"@[8] == 'n',
        "ListChannels"@[9] == 'e',
        "ListChannels"@[10] == 'l',
        "ListChannels"@[11] == 's',
        "GetChannelData"@.len() == 14,
        "GetChannelData"@[0] == 'G',
        "GetChannelData"@[1] == 'e',
        "GetChannelData"@[2] == 't',
        "GetChannelData"@[3] == 'C',
        "GetChannelData"@[4] == 'h',
        "GetChannelData"@[5] == 'a',
        "GetChannelData"@[6] == 'n',
        "GetChannelData"@[7] == 'n',
        "GetChannelData"@[8] == 'e',
        "GetChannelData"@[9] == 'l',
        "GetChannelData"@[10] == 'D',
        "GetChannelData"@[11] == 'a',
        "GetChannelData"@[12] == 't',
        "GetChannelData"@[13] == 'a',
        "GetChannelStats"@.len() == 15,
        "GetChannelStats"@[0] == 'G',
        "GetChannelStats"@[1] == 'e',
        "GetChannelStats"@[2] == 't',
        "GetChannelStats"@[3] == 'C',
        "GetChannelStats"@[4] == 'h',
        "GetChannelStats"@[5] == 'a',
        "GetChannelStats"@[6] == 'n',
        "GetChannelStats"@[7] == 'n',
        "GetChannelStats"@[8] == 'e',
        "GetChannelStats"@[9] == 'l',
        "GetChannelStats"@[10] == 'S',
        "GetChannelStats"@[11] == 't',
        "GetChannelStats"@[12] == 'a',
        "GetChannelStats"@[13] == 't',
        "GetChannelStats"@[14] == 's',
        "SelectChannel"@.len() == 13,
        "SelectChannel"@[0] == 'S',
        "SelectChannel"@[1] == 'e',
        "SelectChannel"@[2] == 'l',
        "SelectChannel"@[3] == 'e',
        "SelectChannel"@[4] == 'c',
        "SelectChannel"@[5] == 't',
        "SelectChannel"@[6] == 'C',
        "SelectChannel"@[7] == 'h',
        "SelectChannel"@[8] == 'a',
        "SelectChannel"@[9] == 'n',
        "SelectChannel"@[10] == 'n',
        "SelectChannel"@[11] == 'e',
        "SelectChannel"@[12] == 'l',
        "DeselectChannel"@.len() == 15,
        "DeselectChannel"@[0] == 'D',
        "DeselectChannel"@[1] == 'e',
        "DeselectChannel"@[2] == 's',
        "DeselectChannel"@[3] == 'e',
        "DeselectChannel"@[4] == 'l',
        "DeselectChannel"@[5] == 'e',
        "DeselectChannel"@[6] == 'c',
        "DeselectChannel"@[7] == 't',
        "DeselectChannel"@[8] == 'C',
        "DeselectChannel"@[9] == 'h',
        "DeselectChannel"@[10] == 'a',
        "DeselectChannel"@[11] == 'n',
        "DeselectChannel"@[12] == 'n',
        "DeselectChannel"@[13] == 'e',
        "DeselectChannel"@[14] == 'l',
        "CreateComputedChannel"@.len() == 21,
        "CreateComputedChannel"@[0] == 'C',
        "CreateComputedChannel"@[1] == 'r',
        "CreateComputedChannel"@[2] == 'e',
        "CreateComputedChannel"@[3] == 'a',
        "CreateComputedChannel"@[4] == 't',
        "CreateComputedChannel"@[5] == 'e',
        "CreateComputedChannel"@[6] == 'C',
        "CreateComputedChannel"@[7] == 'o',
        "CreateComputedChannel"@[8] == 'm',
        "CreateComputedChannel"@[9] == 'p',
        "CreateComputedChannel"@[10] == 'u',
        "CreateComputedChannel"@[11] == 't',
        "CreateComputedChannel"@[12] == 'e',
        "CreateComputedChannel"@[13] == 'd',
        "CreateComputedChannel"@[14] == 'C',
        "CreateComputedChannel"@[15] == 'h',
        "CreateComputedChannel"@[16] == 'a',
        "CreateComputedChannel"@[17] == 'n',
        "CreateComputedChannel"@[18] == 'n',
        "CreateComputedChannel"@[19] == 'e',
        "CreateComputedChannel"@[20] == 'l',
        "DeleteComputedChannel"@.len() == 21,
        "DeleteComputedChannel"@[0] == 'D',
        "DeleteComputedChannel"@[1] == 'e',
        "DeleteComputedChannel"@[2] == 'l',
        "DeleteComputedChannel"@[3] == 'e',
        "DeleteComputedChannel"@[4] == 't',
        "DeleteComputedChannel"@[5] == 'e',
        "DeleteComputedChannel"@[6] == 'C',
        "DeleteComputedChannel"@[7] == 'o',
        "DeleteComputedChannel"@[8] == 'm',
        "DeleteComputedChannel"@[9] == 'p',
        "DeleteComputedChannel"@[10] == 'u',
        "DeleteComputedChannel"@[11] == 't',
        "DeleteComputedChannel"@[12] == 'e',
        "DeleteComputedChannel"@[13] == 'd',
        "DeleteComputedChannel"@[14] == 'C',
        "DeleteComputedChannel"@[15] == 'h',
        "DeleteComputedChannel"@[16] == 'a',
        "DeleteComputedChannel"@[17] == 'n',
        "DeleteComputedChannel"@[18] == 'n',
        "DeleteComputedChannel"@[19] == 'e',
        "DeleteComputedChannel"@[20] == 'l',
        "EvaluateFormula"@.len() == 15,
        "EvaluateFormula"@[0] == 'E',
        "EvaluateFormula"@[1] == 'v',
        "EvaluateFormula"@[2] == 'a',
        "EvaluateFormula"@[3] == 'l',
        "EvaluateFormula"@[4] == 'u',
        "EvaluateFormula"@[5] == 'a',
        "EvaluateFormula"@[6] == 't',
        "EvaluateFormula"@[7] == 'e',
        "EvaluateFormula"@[8] == 'F',
        "EvaluateFormula"@[9] == 'o',
        "EvaluateFormula"@[10] == 'r',
        "EvaluateFormula"@[11] == 'm',
        "EvaluateFormula"@[12] == 'u',
        "EvaluateFormula"@[13] == 'l',
        "EvaluateFormula"@[14] == 'a',
        "SetTimeRange"@.len() == 12,
        "SetTimeRange"@[0] == 'S',
        "SetTimeRange"@[1] == 'e',
        "SetTimeRange"@[2] == 't',
        "SetTimeRange"@[3] == 'T',
        "SetTimeRange"@[4] == 'i',
        "SetTimeRange"@[5] == 'm',
        "SetTimeRange"@[6] == 'e',
        "SetTimeRange"@[7] == 'R',
        "SetTimeRange"@[8] == 'a',
        "SetTimeRange"@[9] == 'n',
        "SetTimeRange"@[10] == 'g',
        "SetTimeRange"@[11] == 'e',
        "SetCursor"@.len() == 9,
        "SetCursor"@[0] == 'S',
        "SetCursor"@[1] == 'e',
        "SetCursor"@[2] == 't',
        "SetCursor"@[3] == 'C',
        "SetCursor"@[4] == 'u',
        "SetCursor"@[5] == 'r',
        "SetCursor"@[6] == 's',
        "SetCursor"@[7] == 'o',
        "SetCursor"@[8] == 'r',
        "Play"@.len() == 4,
        "Play"@[0] == 'P',
        "Play"@[1] == 'l',
        "Play"@[2] == 'a',
        "Play"@[3] == 'y',
        "GetCursorValues"@.len() == 15,
        "GetCursorValues"@[0] == 'G',
        "GetCursorValues"@[1] == 'e',
        "GetCursorValues"@[2] == 't',
        "GetCursorValues"@[3] == 'C',
        "GetCursorValues"@[4] == 'u',
        "GetCursorValues"@[5] == 'r',
        "GetCursorValues"@[6] == 's',
        "GetCursorValues"@[7] == 'o',
        "GetCursorValues"@[8] == 'r',
        "GetCursorValues"@[9] == 'V',
        "GetCursorValues"@[10] == 'a',
        "GetCursorValues"@[11] == 'l',
        "GetCursorValues"@[12] == 'u',
        "GetCursorValues"@[13] == 'e',
        "GetCursorValues"@[14] == 's',
        "FindPeaks"@.len() == 9,
        "FindPeaks"@[0] == 'F',
        "FindPeaks"@[1] == 'i',
        "FindPeaks"@[2] == 'n',
        "FindPeaks"@[3] == 'd',
        "FindPeaks"@[4] == 'P',
        "FindPeaks"@[5] == 'e',
        "FindPeaks"@[6] == 'a',
        "FindPeaks"@[7] == 'k',
        "FindPeaks"@[8] == 's',
        "CorrelateChannels"@.len() == 17,
        "CorrelateChannels"@[0] == 'C',
        "CorrelateChannels"@[1] == 'o',
        "CorrelateChannels"@[2] == 'r',
        "CorrelateChannels"@[3] == 'r',
        "CorrelateChannels"@[4] == 'e',
        "CorrelateChannels"@[5] == 'l',
        "CorrelateChannels"@[6] == 'a',
        "CorrelateChannels"@[7] == 't',
        "CorrelateChannels"@[8] == 'e',
        "CorrelateChannels"@[9] == 'C',
        "CorrelateChannels"@[10] == 'h',
        "CorrelateChannels"@[11] == 'a',
        "CorrelateChannels"@[12] == 'n',
        "CorrelateChannels"@[13] == 'n',
        "CorrelateChannels"@[14] == 'e',
        "CorrelateChannels"@[15] == 'l',
        "CorrelateChannels"@[16] == 's',
        "ShowScatterPlot"@.len() == 15,
        "ShowScatterPlot"@[0] == 'S',
        "ShowScatterPlot"@[1] == 'h',
        "ShowScatterPlot"@[2] == 'o',
        "ShowScatterPlot"@[3] == 'w',
        "ShowScatterPlot"@[4] == 'S',
        "ShowScatterPlot"@[5] == 'c',
        "ShowScatterPlot"@[6] == 'a',
        "ShowScatterPlot"@[7] == 't',
        "ShowScatterPlot"@[8] == 't',
        "ShowScatterPlot"@[9] == 'e',
        "ShowScatterPlot"@[10] == 'r',
        "ShowScatterPlot"@[11] == 'P',
        "ShowScatterPlot"@[12] == 'l',
        "ShowScatterPlot"@[13] == 'o',
        "ShowScatterPlot"@[14] == 't',
        "path"@.len() == 4,
        "path"@[0] == 'p',
        "path"@[1] == 'a',
        "path"@[2] == 't',
        "path"@[3] == 'h',
        "file_id"@.len() == 7,
        "file_id"@[0] == 'f',
        "file_id"@[1] == 'i',
        "file_id"@[2] == 'l',
        "file_id"@[3] == 'e',
        "file_id"@[4] == '_',
        "file_id"@[5] == 'i',
        "file_id"@[6] == 'd',
        "channel_name"@.len() == 12,
        "channel_name"@[0] == 'c',
        "channel_name"@[1] == 'h',
        "channel_name"@[2] == 'a',
        "channel_name"@[3] == 'n',
        "channel_name"@[4] == 'n',
        "channel_name"@[5] == 'e',
        "channel_name"@[6] == 'l',
        "channel_name"@[7] == '_',
        "channel_name"@[8] == 'n',
        "channel_name"@[9] == 'a',
        "channel_name"@[10] == 'm',
        "channel_name"@[11] == 'e',
        "time_range"@.len() == 10,
        "time_range"@[0] == 't',
        "time_range"@[1] == 'i',
        "time_range"@[2] == 'm',
        "time_range"@[3] == 'e',
        "time_range"@[4] == '_',
        "time_range"@[5] == 'r',
        "time_range"@[6] == 'a',
        "time_range"@[7] == 'n',
        "time_range"@[8] == 'g',
        "time_range"@[9] == 'e',
        "name"@.len() == 4,
        "name"@[0] == 'n',
        "name"@[1] == 'a',
        "name"@[2] == 'm',
        "name"@[3] == 'e',
        "formula"@.len() == 7,
        "formula"@[0] == 'f',
        "formula"@[1] == 'o',
        "formula"@[2] == 'r',
        "formula"@[3] == 'm',
        "formula"@[4] == 'u',
        "formula"@[5] == 'l',
        "formula"@[6] == 'a',
        "unit"@.len() == 4,
        "unit"@[0] == 'u',
        "unit"@[1] == 'n',
        "unit"@[2] == 'i',
        "unit"@[3] == 't',
        "description"@.len() == 11,
        "description"@[0] == 'd',
        "description"@[1] == 'e',
        "description"@[2] == 's',
        "description"@[3] == 'c',
        "description"@[4] == 'r',
        "description"@[5] == 'i',
        "description"@[6] == 'p',
        "description"@[7] == 't',
        "description"@[8] == 'i',
        "description"@[9] == 'o',
        "description"@[10] == 'n',
        "start"@.len() == 5,
        "start"@[0] == 's',
        "start"@[1] == 't',
        "start"@[2] == 'a',
        "start"@[3] == 'r',
        "start"@[4] == 't',
        "end"@.len() == 3,
        "end"@[0] == 'e',
        "end"@[1] == 'n',
        "end"@[2] == 'd',
        "time"@.len() == 4,
        "time"@[0] == 't',
        "time"@[1] == 'i',
        "time"@[2] == 'm',
        "time"@[3] == 'e',
        "speed"@.len() == 5,
        "speed"@[0] == 's',
        "speed"@[1] == 'p',
        "speed"@[2] == 'e',
        "speed"@[3] == 'e',
        "speed"@[4] == 'd',
        "min_prominence"@.len() == 14,
        "min_prominence"@[0] == 'm',
        "min_prominence"@[1] == 'i',
        "min_prominence"@[2] == 'n',
        "min_prominence"@[3] == '_',
        "min_prominence"@[4] == 'p',
        "min_prominence"@[5] == 'r',
        "min_prominence"@[6] == 'o',
        "min_prominence"@[7] == 'm',
        "min_prominence"@[8] == 'i',
        "min_prominence"@[9] == 'n',
        "min_prominence"@[10] == 'e',
        "min_prominence"@[11] == 'n',
        "min_prominence"@[12] == 'c',
        "min_prominence"@[13] == 'e',
        "channel_a"@.len() == 9,
        "channel_a"@[0] == 'c',
        "channel_a"@[1] == 'h',
        "channel_a"@[2] == 'a',
        "channel_a"@[3] == 'n',
        "channel_a"@[4] == 'n',
        "channel_a"@[5] == 'e',
        "channel_a"@[6] == 'l',
        "channel_a"@[7] == '_',
        "channel_a"@[8] == 'a',
        "channel_b"@.len() == 9,
        "channel_b"@[0] == 'c',
        "channel_b"@[1] == 'h',
        "channel_b"@[2] == 'a',
        "channel_b"@[3] == 'n',
        "channel_b"@[4] == 'n',
        "channel_b"@[5] == 'e',
        "channel_b"@[6] == 'l',
        "channel_b"@[7] == '_',
        "channel_b"@[8] == 'b',
        "x_channel"@.len() == 9,
        "x_channel"@[0] == 'x',
        "x_channel"@[1] == '_',
        "x_channel"@[2] == 'c',
        "x_channel"@[3] == 'h',
        "x_channel"@[4] == 'a',
        "x_channel"@[5] == 'n',
        "x_channel"@[6] == 'n',
        "x_channel"@[7] == 'e',
        "x_channel"@[8] == 'l',
        "y_channel"@.len() == 9,
        "y_channel"@[0] == 'y',
        "y_channel"@[1] == '_',
        "y_channel"@[2] == 'c',
        "y_channel"@[3] == 'h',
        "y_channel"@[4] == 'a',
        "y_channel"@[5] == 'n',
        "y_channel"@[6] == 'n',
        "y_channel"@[7] == 'e',
        "y_channel"@[8] == 'l',
{
    reveal_strlit("type");
    reveal_strlit("payload");
    reveal_strlit("Ping");
    reveal_strlit("GetState");
    reveal_strlit("DeselectAllChannels");
    reveal_strlit("ListComputedChannels");
    reveal_strlit("Pause");
    reveal_strlit("Stop");
    reveal_strlit("ShowChart");
    reveal_strlit("LoadFile");
    reveal_strlit("CloseFile");
    reveal_strlit("ListChannels");
    reveal_strlit("GetChannelData");
    reveal_strlit("GetChannelStats");
    reveal_strlit("SelectChannel");
    reveal_strlit("DeselectChannel");
    reveal_strlit("CreateComputedChannel");
    reveal_strlit("DeleteComputedChannel");
    reveal_strlit("EvaluateFormula");
    reveal_strlit("SetTimeRange");
    reveal_strlit("SetCursor");
    reveal_strlit("Play");
    reveal_strlit("GetCursorValues");
    reveal_strlit("FindPeaks");
    reveal_strlit("CorrelateChannels");
    reveal_strlit("ShowScatterPlot");
    reveal_strlit("path");
    reveal_strlit("file_id");
    reveal_strlit("channel_name");
    reveal_strlit("time_range");
    reveal_strlit("name");
    reveal_strlit("formula");
    reveal_strlit("unit");
    reveal_strlit("description");
    reveal_strlit("start");
    reveal_strlit("end");
    reveal_strlit("time");
    reveal_strlit("speed");
    reveal_strlit("min_prominence");
    reveal_strlit("channel_a");
    reveal_strlit("channel_b");
    reveal_strlit("x_channel");
    reveal_strlit("y_channel");
}


/// The operation name that a command record carries in `type`.
pub open spec fn command_name(c: CommandModel) -> Seq<char> {
    match c {
        CommandModel::Ping => "Ping"@,
        CommandModel::GetState => "GetState"@,
        CommandModel::LoadFile { .. } => "LoadFile"@,
        CommandModel::CloseFile { .. } => "CloseFile"@,
        CommandModel::ListChannels { .. } => "ListChannels"@,
        CommandModel::GetChannelData { .. } => "GetChannelData"@,
        CommandModel::GetChannelStats { .. } => "GetChannelStats"@,
        CommandModel::SelectChannel { .. } => "SelectChannel"@,
        CommandModel::DeselectChannel { .. } => "DeselectChannel"@,
        CommandModel::DeselectAllChannels => "DeselectAllChannels"@,
        CommandModel::CreateComputedChannel { .. } => "CreateComputedChannel"@,
        CommandModel::DeleteComputedChannel { .. } => "DeleteComputedChannel"@,
        CommandModel::ListComputedChannels => "ListComputedChannels"@,
        CommandModel::EvaluateFormula { .. } => "EvaluateFormula"@,
        CommandModel::SetTimeRange { .. } => "SetTimeRange"@,
        CommandModel::SetCursor { .. } => "SetCursor"@,
        CommandModel::Play { .. } => "Play"@,
        CommandModel::Pause => "Pause"@,
        CommandModel::Stop => "Stop"@,
        CommandModel::GetCursorValues { .. } => "GetCursorValues"@,
        CommandModel::FindPeaks { .. } => "FindPeaks"@,
        CommandModel::CorrelateChannels { .. } => "CorrelateChannels"@,
        CommandModel::ShowScatterPlot { .. } => "ShowScatterPlot"@,
        CommandModel::ShowChart => "ShowChart"@,
    }
}

/// Whether `p` is the payload record of `c`: an object with exactly the
/// command's fields as members, in order. A command without fields has none.
pub open spec fn payload_is(p: Json, c: CommandModel) -> bool {
    match c {
        CommandModel::LoadFile { path } => has_members(p, seq!["path"@]) && text_is(field(p, 0), path),
        CommandModel::CloseFile { file_id } => has_members(p, seq!["file_id"@]) && text_is(field(p, 0), file_id),
        CommandModel::ListChannels { file_id } => has_members(p, seq!["file_id"@]) && text_is(field(p, 0), file_id),
        CommandModel::GetChannelData { file_id, channel_name, time_range } => has_members(p, seq!["file_id"@, "channel_name"@, "time_range"@]) && text_is(field(p, 0), file_id) && text_is(field(p, 1), channel_name) && opt_pair_is(field(p, 2), time_range),
        CommandModel::GetChannelStats { file_id, channel_name, time_range } => has_members(p, seq!["file_id"@, "channel_name"@, "time_range"@]) && text_is(field(p, 0), file_id) && text_is(field(p, 1), channel_name) && opt_pair_is(field(p, 2), time_range),
        CommandModel::SelectChannel { file_id, channel_name } => has_members(p, seq!["file_id"@, "channel_name"@]) && text_is(field(p, 0), file_id) && text_is(field(p, 1), channel_name),
        CommandModel::DeselectChannel { file_id, channel_name } => has_members(p, seq!["file_id"@, "channel_name"@]) && text_is(field(p, 0), file_id) && text_is(field(p, 1), channel_name),
        CommandModel::CreateComputedChannel { name, formula, unit, description } => has_members(p, seq!["name"@, "formula"@, "unit"@, "description"@]) && text_is(field(p, 0), name) && text_is(field(p, 1), formula) && text_is(field(p, 2), unit) && opt_text_is(field(p, 3), description),
        CommandModel::DeleteComputedChannel { name } => has_members(p, seq!["name"@]) && text_is(field(p, 0), name),
        CommandModel::EvaluateFormula { file_id, formula, time_range } => has_members(p, seq!["file_id"@, "formula"@, "time_range"@]) && text_is(field(p, 0), file_id) && text_is(field(p, 1), formula) && opt_pair_is(field(p, 2), time_range),
        CommandModel::SetTimeRange { start, end } => has_members(p, seq!["start"@, "end"@]) && field(p, 0) == Json::Num(start) && field(p, 1) == Json::Num(end),
        CommandModel::SetCursor { time } => has_members(p, seq!["time"@]) && field(p, 0) == Json::Num(time),
        CommandModel::Play { speed } => has_members(p, seq!["speed"@]) && opt_num_is(field(p, 0), speed),
        CommandModel::GetCursorValues { file_id } => has_members(p, seq!["file_id"@]) && text_is(field(p, 0), file_id),
        CommandModel::FindPeaks { file_id, channel_name, min_prominence } => has_members(p, seq!["file_id"@, "channel_name"@, "min_prominence"@]) && text_is(field(p, 0), file_id) && text_is(field(p, 1), channel_name) && opt_num_is(field(p, 2), min_prominence),
        CommandModel::CorrelateChannels { file_id, channel_a, channel_b } => has_members(p, seq!["file_id"@, "channel_a"@, "channel_b"@]) && text_is(field(p, 0), file_id) && text_is(field(p, 1), channel_a) && text_is(field(p, 2), channel_b),
        CommandModel::ShowScatterPlot { file_id, x_channel, y_channel } => has_members(p, seq!["file_id"@, "x_channel"@, "y_channel"@]) && text_is(field(p, 0), file_id) && text_is(field(p, 1), x_channel) && text_is(field(p, 2), y_channel),
        _ => false,
    }
}

/// Whether the command carries fields, and so a `payload` member.
pub open spec fn has_payload(c: CommandModel) -> bool {
    !(c is Ping || c is GetState || c is DeselectAllChannels || c is ListComputedChannels || c is Pause || c is Stop || c is ShowChart)
}

/// Whether `j` is the record of `c`: `{"type": <name>}` for a command
/// without fields, `{"type": <name>, "payload": {...}}` otherwise, with no
/// other members.
pub open spec fn command_is(j: Json, c: CommandModel) -> bool {
    if has_payload(c) {
        has_members(j, seq!["type"@, "payload"@]) && text_is(field(j, 0), command_name(c)) && payload_is(field(j, 1), c)
    } else {
        has_members(j, seq!["type"@]) && text_is(field(j, 0), command_name(c))
    }
}

/// Reads a wire record as a command; `None` when the record denotes none.
pub fn decode_command(j: &Json) -> (r: Option<IpcCommand>)
    ensures
        match r {
            Some(c) => command_of(*j) == Some(c@),
            None => command_of(*j) is None,
        },
{
    let ms = match j {
        Json::Object(ms) => ms,
        _ => return None,
    };
    let tag = match get_member(ms, "type") {
        Some(Json::Str(t)) => t.as_str(),
        _ => return None,
    };
    let payload = get_member(ms, "payload");
    let empty: Vec<(String, Json)> = Vec::new();
    let (obj, p) = match payload {
        Some(Json::Object(pm)) => (true, pm),
        _ => (false, &empty),
    };
    assert(p@ == members_of(lookup(ms@, "payload"@)));
    assert(obj == is_object(lookup(ms@, "payload"@)));
    if str_eq(tag, "Ping") {
        Some(IpcCommand::Ping)
    } else if str_eq(tag, "GetState") {
        Some(IpcCommand::GetState)
    } else if str_eq(tag, "DeselectAllChannels") {
        Some(IpcCommand::DeselectAllChannels)
    } else if str_eq(tag, "ListComputedChannels") {
        Some(IpcCommand::ListComputedChannels)
    } else if str_eq(tag, "Pause") {
        Some(IpcCommand::Pause)
    } else if str_eq(tag, "Stop") {
        Some(IpcCommand::Stop)
    } else if str_eq(tag, "ShowChart") {
        Some(IpcCommand::ShowChart)
    } else if !obj {
        None
    } else if str_eq(tag, "LoadFile") {
        match get_str(p, "path") {
            Some(path) => Some(IpcCommand::LoadFile { path }),
            None => None,
        }
    } else if str_eq(tag, "CloseFile") {
        match get_str(p, "file_id") {
            Some(file_id) => Some(IpcCommand::CloseFile { file_id }),
            None => None,
        }
    } else if str_eq(tag, "ListChannels") {
        match get_str(p, "file_id") {
            Some(file_id) => Some(IpcCommand::ListChannels { file_id }),
            None => None,
        }
    } else if str_eq(tag, "GetChannelData") {
        match (get_str(p, "file_id"), get_str(p, "channel_name"), get_opt_pair(p, "time_range")) {
            (Some(file_id), Some(channel_name), Some(time_range)) =>
                Some(IpcCommand::GetChannelData { file_id, channel_name, time_range }),
            _ => None,
        }
    } else if str_eq(tag, "GetChannelStats") {
        match (get_str(p, "file_id"), get_str(p, "channel_name"), get_opt_pair(p, "time_range")) {
            (Some(file_id), Some(channel_name), Some(time_range)) =>
                Some(IpcCommand::GetChannelStats { file_id, channel_name, time_range }),
            _ => None,
        }
    } else if str_eq(tag, "SelectChannel") {
        match (get_str(p, "file_id"), get_str(p, "channel_name")) {
            (Some(file_id), Some(channel_name)) => Some(IpcCommand::SelectChannel { file_id, channel_name }),
            _ => None,
        }
    } else if str_eq(tag, "DeselectChannel") {
        match (get_str(p, "file_id"), get_str(p, "channel_name")) {
            (Some(file_id), Some(channel_name)) => Some(IpcCommand::DeselectChannel { file_id, channel_name }),
            _ => None,
        }
    } else if str_eq(tag, "CreateComputedChannel") {
        match (get_str(p, "name"), get_str(p, "formula"), get_str(p, "unit"), get_opt_str(p, "description")) {
            (Some(name), Some(formula), Some(unit), Some(description)) =>
                Some(IpcCommand::CreateComputedChannel { name, formula, unit, description }),
            _ => None,
        }
    } else if str_eq(tag, "DeleteComputedChannel") {
        match get_str(p, "name") {
            Some(name) => Some(IpcCommand::DeleteComputedChannel { name }),
            None => None,
        }
    } else if str_eq(tag, "EvaluateFormula") {
        match (get_str(p, "file_id"), get_str(p, "formula"), get_opt_pair(p, "time_range")) {
            (Some(file_id), Some(formula), Some(time_range)) =>
                Some(IpcCommand::EvaluateFormula { file_id, formula, time_range }),
            _ => None,
        }
    } else if str_eq(tag, "SetTimeRange") {
        match (get_num(p, "start"), get_num(p, "end")) {
            (Some(start), Some(end)) => Some(IpcCommand::SetTimeRange { start, end }),
            _ => None,
        }
    } else if str_eq(tag, "SetCursor") {
        match get_num(p, "time") {
            Some(time) => Some(IpcCommand::SetCursor { time }),
            None => None,
        }
    } else if str_eq(tag, "Play") {
        match get_opt_num(p, "speed") {
            Some(speed) => Some(IpcCommand::Play { speed }),
            None => None,
        }
    } else if str_eq(tag, "GetCursorValues") {
        match get_str(p, "file_id") {
            Some(file_id) => Some(IpcCommand::GetCursorValues { file_id }),
            None => None,
        }
    } else if str_eq(tag, "FindPeaks") {
        match (get_str(p, "file_id"), get_str(p, "channel_name"), get_opt_num(p, "min_prominence")) {
            (Some(file_id), Some(channel_name), Some(min_prominence)) =>
                Some(IpcCommand::FindPeaks { file_id, channel_name, min_prominence }),
            _ => None,
        }
    } else if str_eq(tag, "CorrelateChannels") {
        match (get_str(p, "file_id"), get_str(p, "channel_a"), get_str(p, "channel_b")) {
            (Some(file_id), Some(channel_a), Some(channel_b)) =>
                Some(IpcCommand::CorrelateChannels { file_id, channel_a, channel_b }),
            _ => None,
        }
    } else if str_eq(tag, "ShowScatterPlot") {
        match (get_str(p, "file_id"), get_str(p, "x_channel"), get_str(p, "y_channel")) {
            (Some(file_id), Some(x_channel), Some(y_channel)) =>
                Some(IpcCommand::ShowScatterPlot { file_id, x_channel, y_channel }),
            _ => None,
        }
    } else {
        None
    }
}


/// Writes a command as a wire record; reading the record back gives the
/// same command.
#[verifier::rlimit(50)]
pub fn encode_command(c: &IpcCommand) -> (j: Json)
    ensures
        command_of(j) == Some(c@),
        command_is(j, c@),
{
    proof {
        lemma_command_words();
        reveal_with_fuel(lookup, 5);
    }
    let (tag, payload): (&str, Option<Vec<(String, Json)>>) = match c {
        IpcCommand::Ping => ("Ping", None),
        IpcCommand::GetState => ("GetState", None),
        IpcCommand::LoadFile { path } => ("LoadFile", Some(vec![member("path", string(path))])),
        IpcCommand::CloseFile { file_id } => ("CloseFile", Some(vec![member("file_id", string(file_id))])),
        IpcCommand::ListChannels { file_id } => ("ListChannels", Some(vec![member("file_id", string(file_id))])),
        IpcCommand::GetChannelData { file_id, channel_name, time_range } => (
            "GetChannelData",
            Some(vec![
                member("file_id", string(file_id)),
                member("channel_name", string(channel_name)),
                member("time_range", write_opt_pair(*time_range)),
            ]),
        ),
        IpcCommand::GetChannelStats { file_id, channel_name, time_range } => (
            "GetChannelStats",
            Some(vec![
                member("file_id", string(file_id)),
                member("channel_name", string(channel_name)),
                member("time_range", write_opt_pair(*time_range)),
            ]),
        ),
        IpcCommand::SelectChannel { file_id, channel_name } => (
            "SelectChannel",
            Some(vec![member("file_id", string(file_id)), member("channel_name", string(channel_name))]),
        ),
        IpcCommand::DeselectChannel { file_id, channel_name } => (
            "DeselectChannel",
            Some(vec![member("file_id", string(file_id)), member("channel_name", string(channel_name))]),
        ),
        IpcCommand::DeselectAllChannels => ("DeselectAllChannels", None),
        IpcCommand::CreateComputedChannel { name, formula, unit, description } => (
            "CreateComputedChannel",
            Some(vec![
                member("name", string(name)),
                member("formula", string(formula)),
                member("unit", string(unit)),
                member("description", write_opt_str(description)),
            ]),
        ),
        IpcCommand::DeleteComputedChannel { name } => (
            "DeleteComputedChannel",
            Some(vec![member("name", string(name))]),
        ),
        IpcCommand::ListComputedChannels => ("ListComputedChannels", None),
        IpcCommand::EvaluateFormula { file_id, formula, time_range } => (
            "EvaluateFormula",
            Some(vec![
                member("file_id", string(file_id)),
                member("formula", string(formula)),
                member("time_range", write_opt_pair(*time_range)),
            ]),
        ),
        IpcCommand::SetTimeRange { start, end } => (
            "SetTimeRange",
            Some(vec![member("start", Json::Num(*start)), member("end", Json::Num(*end))]),
        ),
        IpcCommand::SetCursor { time } => ("SetCursor", Some(vec![member("time", Json::Num(*time))])),
        IpcCommand::Play { speed } => ("Play", Some(vec![member("speed", write_opt_num(*speed))])),
        IpcCommand::Pause => ("Pause", None),
        IpcCommand::Stop => ("Stop", None),
        IpcCommand::GetCursorValues { file_id } => (
            "GetCursorValues",
            Some(vec![member("file_id", string(file_id))]),
        ),
        IpcCommand::FindPeaks { file_id, channel_name, min_prominence } => (
            "FindPeaks",
            Some(vec![
                member("file_id", string(file_id)),
                member("channel_name", string(channel_name)),
                member("min_prominence", write_opt_num(*min_prominence)),
            ]),
        ),
        IpcCommand::CorrelateChannels { file_id, channel_a, channel_b } => (
            "CorrelateChannels",
            Some(vec![
                member("file_id", string(file_id)),
                member("channel_a", string(channel_a)),
                member("channel_b", string(channel_b)),
            ]),
        ),
        IpcCommand::ShowScatterPlot { file_id, x_channel, y_channel } => (
            "ShowScatterPlot",
            Some(vec![
                member("file_id", string(file_id)),
                member("x_channel", string(x_channel)),
                member("y_channel", string(y_channel)),
            ]),
        ),
        IpcCommand::ShowChart => ("ShowChart", None),
    };
    let mut ms: Vec<(String, Json)> = vec![member("type", Json::Str(text(tag)))];
    match payload {
        Some(p) => ms.push(member("payload", Json::Object(p))),
        None => {},
    }
    Json::Object(ms)
}

} // verus!
