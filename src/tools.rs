//! The gateway's tool catalog: each named tool turns its arguments into one
//! command, and the command's response into the tool's result.
use vstd::prelude::*;
use crate::json::{Json, Number, has_members, field, count_is, numbers_is, text_is, member, string, write_numbers, text, opt_text};
use crate::command::{IpcCommand, CommandModel};
use crate::response::{
    IpcResponse, ResponseData, ResponseModel, ResponseDataModel, AppStateModel, FileInfoModel, ChannelInfoModel,
    ChannelStats, CursorValueModel, ComputedChannelInfoModel, Peak, app_state_is, file_info_is,
    channel_info_list_is, channel_stats_is, cursor_value_list_is, computed_channel_info_list_is, peak_list_is,
    write_app_state, write_file_info, write_channel_info_list, write_channel_stats, write_cursor_value_list,
    write_computed_channel_info_list, write_peak_list,
};

verus! {

/// The loopback port on which the hosted gateway listens unless told
/// otherwise; it serves the protocol at the path `/mcp`.
pub const DEFAULT_MCP_PORT: u16 = 52453;

/// Arguments of `load_file`.
#[derive(Debug)]
pub struct LoadFileRequest {
    /// Path of the log file to load.
    pub path: String,
}

/// Arguments of the tools that act on one loaded file.
#[derive(Debug)]
pub struct FileIdRequest {
    pub file_id: String,
}

/// Arguments of the tools that act on one channel.
#[derive(Debug)]
pub struct ChannelRequest {
    pub file_id: String,
    pub channel_name: String,
}

/// Arguments of `get_channel_data` and `get_channel_stats`. The time range
/// applies only when both ends are given.
#[derive(Debug)]
pub struct ChannelDataRequest {
    pub file_id: String,
    pub channel_name: String,
    pub start_time: Option<Number>,
    pub end_time: Option<Number>,
}

/// Arguments of `create_computed_channel`.
#[derive(Debug)]
pub struct CreateComputedChannelRequest {
    pub name: String,
    pub formula: String,
    pub unit: String,
    pub description: Option<String>,
}

/// Arguments of `evaluate_formula`. The time range applies only when both
/// ends are given.
#[derive(Debug)]
pub struct EvaluateFormulaRequest {
    pub file_id: String,
    pub formula: String,
    pub start_time: Option<Number>,
    pub end_time: Option<Number>,
}

/// Arguments of `set_time_range`, in seconds.
#[derive(Debug)]
pub struct SetTimeRangeRequest {
    pub start: Number,
    pub end: Number,
}

/// Arguments of `set_cursor`, in seconds.
#[derive(Debug)]
pub struct SetCursorRequest {
    pub time: Number,
}

/// Arguments of `play`: an optional speed multiplier.
#[derive(Debug)]
pub struct PlayRequest {
    pub speed: Option<Number>,
}

/// Arguments of `find_peaks`.
#[derive(Debug)]
pub struct FindPeaksRequest {
    pub file_id: String,
    pub channel_name: String,
    pub min_prominence: Option<Number>,
}

/// Arguments of `correlate_channels`.
#[derive(Debug)]
pub struct CorrelateChannelsRequest {
    pub file_id: String,
    pub channel_a: String,
    pub channel_b: String,
}

/// Arguments of `show_scatter_plot`.
#[derive(Debug)]
pub struct ShowScatterPlotRequest {
    pub file_id: String,
    pub x_channel: String,
    pub y_channel: String,
}

/// Arguments of `delete_computed_channel`.
#[derive(Debug)]
pub struct DeleteComputedChannelRequest {
    pub name: String,
}

/// The arguments of a tool that takes none.
#[derive(Debug)]
pub struct EmptyRequest {}

/// One call of a tool of the catalog, with its arguments.
#[derive(Debug)]
pub enum ToolCall {
    GetState,
    LoadFile(LoadFileRequest),
    CloseFile(FileIdRequest),
    ListChannels(FileIdRequest),
    GetChannelData(ChannelDataRequest),
    GetChannelStats(ChannelDataRequest),
    SelectChannel(ChannelRequest),
    DeselectChannel(ChannelRequest),
    DeselectAllChannels,
    CreateComputedChannel(CreateComputedChannelRequest),
    DeleteComputedChannel(DeleteComputedChannelRequest),
    ListComputedChannels,
    EvaluateFormula(EvaluateFormulaRequest),
    SetTimeRange(SetTimeRangeRequest),
    SetCursor(SetCursorRequest),
    Play(PlayRequest),
    Pause,
    Stop,
    GetCursorValues(FileIdRequest),
    FindPeaks(FindPeaksRequest),
    CorrelateChannels(CorrelateChannelsRequest),
    ShowScatterPlot(ShowScatterPlotRequest),
    ShowChart,
}

/// A time range from its two ends, when both are given.
pub open spec fn range_of(start: Option<Number>, end: Option<Number>) -> Option<(Number, Number)> {
    match (start, end) {
        (Some(s), Some(e)) => Some((s, e)),
        _ => None,
    }
}

/// The command that a tool call sends.
pub open spec fn command_for_call(call: ToolCall) -> CommandModel {
    match call {
        ToolCall::GetState => CommandModel::GetState,
        ToolCall::LoadFile(r) => CommandModel::LoadFile { path: r.path@ },
        ToolCall::CloseFile(r) => CommandModel::CloseFile { file_id: r.file_id@ },
        ToolCall::ListChannels(r) => CommandModel::ListChannels { file_id: r.file_id@ },
        ToolCall::GetChannelData(r) => CommandModel::GetChannelData {
            file_id: r.file_id@,
            channel_name: r.channel_name@,
            time_range: range_of(r.start_time, r.end_time),
        },
        ToolCall::GetChannelStats(r) => CommandModel::GetChannelStats {
            file_id: r.file_id@,
            channel_name: r.channel_name@,
            time_range: range_of(r.start_time, r.end_time),
        },
        ToolCall::SelectChannel(r) => CommandModel::SelectChannel { file_id: r.file_id@, channel_name: r.channel_name@ },
        ToolCall::DeselectChannel(r) => CommandModel::DeselectChannel { file_id: r.file_id@, channel_name: r.channel_name@ },
        ToolCall::DeselectAllChannels => CommandModel::DeselectAllChannels,
        ToolCall::CreateComputedChannel(r) => CommandModel::CreateComputedChannel {
            name: r.name@,
            formula: r.formula@,
            unit: r.unit@,
            description: opt_text(r.description),
        },
        ToolCall::DeleteComputedChannel(r) => CommandModel::DeleteComputedChannel { name: r.name@ },
        ToolCall::ListComputedChannels => CommandModel::ListComputedChannels,
        ToolCall::EvaluateFormula(r) => CommandModel::EvaluateFormula {
            file_id: r.file_id@,
            formula: r.formula@,
            time_range: range_of(r.start_time, r.end_time),
        },
        ToolCall::SetTimeRange(r) => CommandModel::SetTimeRange { start: r.start, end: r.end },
        ToolCall::SetCursor(r) => CommandModel::SetCursor { time: r.time },
        ToolCall::Play(r) => CommandModel::Play { speed: r.speed },
        ToolCall::Pause => CommandModel::Pause,
        ToolCall::Stop => CommandModel::Stop,
        ToolCall::GetCursorValues(r) => CommandModel::GetCursorValues { file_id: r.file_id@ },
        ToolCall::FindPeaks(r) => CommandModel::FindPeaks {
            file_id: r.file_id@,
            channel_name: r.channel_name@,
            min_prominence: r.min_prominence,
        },
        ToolCall::CorrelateChannels(r) => CommandModel::CorrelateChannels {
            file_id: r.file_id@,
            channel_a: r.channel_a@,
            channel_b: r.channel_b@,
        },
        ToolCall::ShowScatterPlot(r) => CommandModel::ShowScatterPlot {
            file_id: r.file_id@,
            x_channel: r.x_channel@,
            y_channel: r.y_channel@,
        },
        ToolCall::ShowChart => CommandModel::ShowChart,
    }
}

/// A time range from its two ends, when both are given.
fn range(start: Option<Number>, end: Option<Number>) -> (r: Option<(Number, Number)>)
    ensures
        r == range_of(start, end),
{
    match (start, end) {
        (Some(s), Some(e)) => Some((s, e)),
        _ => None,
    }
}

/// The command that a tool call sends.
pub fn command_for(call: &ToolCall) -> (c: IpcCommand)
    ensures
        c@ == command_for_call(*call),
{
    match call {
        ToolCall::GetState => IpcCommand::GetState,
        ToolCall::LoadFile(r) => IpcCommand::LoadFile { path: r.path.clone() },
        ToolCall::CloseFile(r) => IpcCommand::CloseFile { file_id: r.file_id.clone() },
        ToolCall::ListChannels(r) => IpcCommand::ListChannels { file_id: r.file_id.clone() },
        ToolCall::GetChannelData(r) => IpcCommand::GetChannelData {
            file_id: r.file_id.clone(),
            channel_name: r.channel_name.clone(),
            time_range: range(r.start_time, r.end_time),
        },
        ToolCall::GetChannelStats(r) => IpcCommand::GetChannelStats {
            file_id: r.file_id.clone(),
            channel_name: r.channel_name.clone(),
            time_range: range(r.start_time, r.end_time),
        },
        ToolCall::SelectChannel(r) => IpcCommand::SelectChannel {
            file_id: r.file_id.clone(),
            channel_name: r.channel_name.clone(),
        },
        ToolCall::DeselectChannel(r) => IpcCommand::DeselectChannel {
            file_id: r.file_id.clone(),
            channel_name: r.channel_name.clone(),
        },
        ToolCall::DeselectAllChannels => IpcCommand::DeselectAllChannels,
        ToolCall::CreateComputedChannel(r) => IpcCommand::CreateComputedChannel {
            name: r.name.clone(),
            formula: r.formula.clone(),
            unit: r.unit.clone(),
            description: match &r.description {
                Some(d) => Some(d.clone()),
                None => None,
            },
        },
        ToolCall::DeleteComputedChannel(r) => IpcCommand::DeleteComputedChannel { name: r.name.clone() },
        ToolCall::ListComputedChannels => IpcCommand::ListComputedChannels,
        ToolCall::EvaluateFormula(r) => IpcCommand::EvaluateFormula {
            file_id: r.file_id.clone(),
            formula: r.formula.clone(),
            time_range: range(r.start_time, r.end_time),
        },
        ToolCall::SetTimeRange(r) => IpcCommand::SetTimeRange { start: r.start, end: r.end },
        ToolCall::SetCursor(r) => IpcCommand::SetCursor { time: r.time },
        ToolCall::Play(r) => IpcCommand::Play { speed: r.speed },
        ToolCall::Pause => IpcCommand::Pause,
        ToolCall::Stop => IpcCommand::Stop,
        ToolCall::GetCursorValues(r) => IpcCommand::GetCursorValues { file_id: r.file_id.clone() },
        ToolCall::FindPeaks(r) => IpcCommand::FindPeaks {
            file_id: r.file_id.clone(),
            channel_name: r.channel_name.clone(),
            min_prominence: r.min_prominence,
        },
        ToolCall::CorrelateChannels(r) => IpcCommand::CorrelateChannels {
            file_id: r.file_id.clone(),
            channel_a: r.channel_a.clone(),
            channel_b: r.channel_b.clone(),
        },
        ToolCall::ShowScatterPlot(r) => IpcCommand::ShowScatterPlot {
            file_id: r.file_id.clone(),
            x_channel: r.x_channel.clone(),
            y_channel: r.y_channel.clone(),
        },
        ToolCall::ShowChart => IpcCommand::ShowChart,
    }
}


/// What a tool call returns when it succeeds: a message for the caller, or a
/// JSON document.
#[derive(Debug)]
pub enum ToolOutput {
    Text(String),
    Document(Json),
}

/// What a tool's success is to carry.
pub enum Expected {
    Text(Seq<char>),
    State(AppStateModel),
    File(FileInfoModel),
    Channels(Seq<ChannelInfoModel>),
    /// A channel's samples, with their number.
    Samples { times: Seq<Number>, values: Seq<Number> },
    Stats(ChannelStats),
    /// A formula's samples with their number and statistics.
    Formula { times: Seq<Number>, values: Seq<Number>, stats: ChannelStats },
    CursorValues(Seq<CursorValueModel>),
    ComputedChannels(Seq<ComputedChannelInfoModel>),
    Peaks(Seq<Peak>),
    Correlation { coefficient: Number, interpretation: Seq<char> },
}

/// Whether the JSON document `j` is exactly what `e` says a success
/// carries: the payload's own record, or for samples an object with exactly
/// the members `sample_count`, `times` and `values` (and `stats` after
/// `sample_count` for a formula), or for a correlation exactly
/// `coefficient` and `interpretation`.
pub open spec fn denotes(j: Json, e: Expected) -> bool {
    match e {
        Expected::Text(_) => false,
        Expected::State(s) => app_state_is(j, s),
        Expected::File(f) => file_info_is(j, f),
        Expected::Channels(cs) => channel_info_list_is(j, cs),
        Expected::Samples { times, values } => {
            &&& has_members(j, seq!["sample_count"@, "times"@, "values"@])
            &&& count_is(field(j, 0), times.len() as usize)
            &&& numbers_is(field(j, 1), times)
            &&& numbers_is(field(j, 2), values)
        },
        Expected::Stats(s) => channel_stats_is(j, s),
        Expected::Formula { times, values, stats } => {
            &&& has_members(j, seq!["sample_count"@, "stats"@, "times"@, "values"@])
            &&& count_is(field(j, 0), times.len() as usize)
            &&& channel_stats_is(field(j, 1), stats)
            &&& numbers_is(field(j, 2), times)
            &&& numbers_is(field(j, 3), values)
        },
        Expected::CursorValues(vs) => cursor_value_list_is(j, vs),
        Expected::ComputedChannels(cs) => computed_channel_info_list_is(j, cs),
        Expected::Peaks(ps) => peak_list_is(j, ps),
        Expected::Correlation { coefficient, interpretation } => {
            &&& has_members(j, seq!["coefficient"@, "interpretation"@])
            &&& field(j, 0) == Json::Num(coefficient)
            &&& text_is(field(j, 1), interpretation)
        },
    }
}

/// Whether a tool's result `r` is what `x` says: the same message on
/// failure, the same text, or a document that holds the expected value.
pub open spec fn output_meets(r: Result<ToolOutput, String>, x: Result<Expected, Seq<char>>) -> bool {
    match (r, x) {
        (Ok(ToolOutput::Text(s)), Ok(Expected::Text(t))) => s@ == t,
        (Ok(ToolOutput::Document(j)), Ok(e)) => denotes(j, e),
        (Err(m), Err(n)) => m@ == n,
        _ => false,
    }
}

/// The failure of a tool whose command succeeded with a payload of the
/// wrong shape.
pub open spec fn unexpected() -> Seq<char> {
    "Unexpected response"@
}

/// The message of `create_computed_channel` on success.
pub open spec fn created_message(name: Seq<char>) -> Seq<char> {
    "Computed channel '"@ + name + "' created"@
}

/// What a tool's call yields when its command succeeded with `data`.
pub open spec fn success_expected(call: ToolCall, data: Option<ResponseDataModel>) -> Result<Expected, Seq<char>> {
    match call {
        ToolCall::GetState => match data {
            Some(ResponseDataModel::State(s)) => Ok(Expected::State(s)),
            _ => Err(unexpected()),
        },
        ToolCall::LoadFile(_) => match data {
            Some(ResponseDataModel::FileLoaded(f)) => Ok(Expected::File(f)),
            Some(ResponseDataModel::Ack) => Ok(Expected::Text("File is being loaded. Use get_state to check when ready."@)),
            _ => Err(unexpected()),
        },
        ToolCall::CloseFile(_) => Ok(Expected::Text("File closed"@)),
        ToolCall::ListChannels(_) => match data {
            Some(ResponseDataModel::Channels(cs)) => Ok(Expected::Channels(cs)),
            _ => Err(unexpected()),
        },
        ToolCall::GetChannelData(_) => match data {
            Some(ResponseDataModel::ChannelData { times, values }) => Ok(Expected::Samples { times, values }),
            _ => Err(unexpected()),
        },
        ToolCall::GetChannelStats(_) => match data {
            Some(ResponseDataModel::Stats(s)) => Ok(Expected::Stats(s)),
            _ => Err(unexpected()),
        },
        ToolCall::SelectChannel(_) => Ok(Expected::Text("Channel selected"@)),
        ToolCall::DeselectChannel(_) => Ok(Expected::Text("Channel deselected"@)),
        ToolCall::DeselectAllChannels => Ok(Expected::Text("All channels deselected"@)),
        ToolCall::CreateComputedChannel(r) => Ok(Expected::Text(created_message(r.name@))),
        ToolCall::DeleteComputedChannel(_) => Ok(Expected::Text("Computed channel deleted"@)),
        ToolCall::ListComputedChannels => match data {
            Some(ResponseDataModel::ComputedChannels(cs)) => Ok(Expected::ComputedChannels(cs)),
            _ => Err(unexpected()),
        },
        ToolCall::EvaluateFormula(_) => match data {
            Some(ResponseDataModel::FormulaResult { times, values, stats }) => Ok(
                Expected::Formula { times, values, stats },
            ),
            _ => Err(unexpected()),
        },
        ToolCall::SetTimeRange(_) => Ok(Expected::Text("Time range set"@)),
        ToolCall::SetCursor(_) => Ok(Expected::Text("Cursor set"@)),
        ToolCall::Play(_) => Ok(Expected::Text("Playback started"@)),
        ToolCall::Pause => Ok(Expected::Text("Playback paused"@)),
        ToolCall::Stop => Ok(Expected::Text("Playback stopped"@)),
        ToolCall::GetCursorValues(_) => match data {
            Some(ResponseDataModel::CursorValues(vs)) => Ok(Expected::CursorValues(vs)),
            _ => Err(unexpected()),
        },
        ToolCall::FindPeaks(_) => match data {
            Some(ResponseDataModel::Peaks(ps)) => Ok(Expected::Peaks(ps)),
            _ => Err(unexpected()),
        },
        ToolCall::CorrelateChannels(_) => match data {
            Some(ResponseDataModel::Correlation { coefficient, interpretation }) => Ok(
                Expected::Correlation { coefficient, interpretation },
            ),
            _ => Err(unexpected()),
        },
        ToolCall::ShowScatterPlot(_) => Ok(Expected::Text("Scatter plot displayed"@)),
        ToolCall::ShowChart => Ok(Expected::Text("Chart view displayed"@)),
    }
}

/// The round trip's outcome as mathematical values.
pub open spec fn outcome_model(outcome: Result<IpcResponse, String>) -> Result<ResponseModel, Seq<char>> {
    match outcome {
        Ok(r) => Ok(r@),
        Err(e) => Err(e@),
    }
}

/// What a tool call yields: the round trip's own failure, the server's error
/// message verbatim, or what the success carries.
pub open spec fn tool_expected(call: ToolCall, outcome: Result<ResponseModel, Seq<char>>) -> Result<Expected, Seq<char>> {
    match outcome {
        Err(e) => Err(e),
        Ok(ResponseModel::Error { message }) => Err(message),
        Ok(ResponseModel::Success(data)) => success_expected(call, data),
    }
}

/// A message as a successful tool result.
fn say(s: &str) -> (r: Result<ToolOutput, String>)
    ensures
        r matches Ok(ToolOutput::Text(t)) && t@ == s@,
{
    Ok(ToolOutput::Text(text(s)))
}

/// The failure for a payload of the wrong shape.
fn wrong_shape() -> (r: Result<ToolOutput, String>)
    ensures
        r matches Err(m) && m@ == unexpected(),
{
    Err(text("Unexpected response"))
}

/// A document with the samples `times` and `values`, their number, and
/// statistics when there are some.
fn samples_document(times: &Vec<Number>, values: &Vec<Number>, stats: Option<&ChannelStats>) -> (j: Json)
    ensures
        stats is None ==> {
            &&& has_members(j, seq!["sample_count"@, "times"@, "values"@])
            &&& count_is(field(j, 0), times@.len() as usize)
            &&& numbers_is(field(j, 1), times@)
            &&& numbers_is(field(j, 2), values@)
        },
        stats matches Some(st) ==> {
            &&& has_members(j, seq!["sample_count"@, "stats"@, "times"@, "values"@])
            &&& count_is(field(j, 0), times@.len() as usize)
            &&& channel_stats_is(field(j, 1), *st)
            &&& numbers_is(field(j, 2), times@)
            &&& numbers_is(field(j, 3), values@)
        },
{
    let mut ms = vec![member("sample_count", Json::Num(Number::PosInt(times.len() as u64)))];
    if let Some(s) = stats {
        ms.push(member("stats", write_channel_stats(s)));
    }
    ms.push(member("times", write_numbers(times)));
    ms.push(member("values", write_numbers(values)));
    Json::Object(ms)
}

/// A tool's result when its command succeeded with `data`.
fn success_output(call: &ToolCall, data: Option<ResponseData>) -> (r: Result<ToolOutput, String>)
    ensures
        output_meets(
            r,
            success_expected(
                *call,
                match data {
                    Some(d) => Some(d@),
                    None => None,
                },
            ),
        ),
{
    match call {
        ToolCall::GetState => match data {
            Some(ResponseData::State(s)) => Ok(ToolOutput::Document(write_app_state(&s))),
            _ => wrong_shape(),
        },
        ToolCall::LoadFile(_) => match data {
            Some(ResponseData::FileLoaded(f)) => Ok(ToolOutput::Document(write_file_info(&f))),
            Some(ResponseData::Ack) => say("File is being loaded. Use get_state to check when ready."),
            _ => wrong_shape(),
        },
        ToolCall::CloseFile(_) => say("File closed"),
        ToolCall::ListChannels(_) => match data {
            Some(ResponseData::Channels(cs)) => Ok(ToolOutput::Document(write_channel_info_list(&cs))),
            _ => wrong_shape(),
        },
        ToolCall::GetChannelData(_) => match data {
            Some(ResponseData::ChannelData { times, values }) => Ok(
                ToolOutput::Document(samples_document(&times, &values, None)),
            ),
            _ => wrong_shape(),
        },
        ToolCall::GetChannelStats(_) => match data {
            Some(ResponseData::Stats(s)) => Ok(ToolOutput::Document(write_channel_stats(&s))),
            _ => wrong_shape(),
        },
        ToolCall::SelectChannel(_) => say("Channel selected"),
        ToolCall::DeselectChannel(_) => say("Channel deselected"),
        ToolCall::DeselectAllChannels => say("All channels deselected"),
        ToolCall::CreateComputedChannel(r) => {
            let mut m = text("Computed channel '");
            m.append(r.name.as_str());
            m.append("' created");
            Ok(ToolOutput::Text(m))
        },
        ToolCall::DeleteComputedChannel(_) => say("Computed channel deleted"),
        ToolCall::ListComputedChannels => match data {
            Some(ResponseData::ComputedChannels(cs)) => Ok(
                ToolOutput::Document(write_computed_channel_info_list(&cs)),
            ),
            _ => wrong_shape(),
        },
        ToolCall::EvaluateFormula(_) => match data {
            Some(ResponseData::FormulaResult { times, values, stats }) => Ok(
                ToolOutput::Document(samples_document(&times, &values, Some(&stats))),
            ),
            _ => wrong_shape(),
        },
        ToolCall::SetTimeRange(_) => say("Time range set"),
        ToolCall::SetCursor(_) => say("Cursor set"),
        ToolCall::Play(_) => say("Playback started"),
        ToolCall::Pause => say("Playback paused"),
        ToolCall::Stop => say("Playback stopped"),
        ToolCall::GetCursorValues(_) => match data {
            Some(ResponseData::CursorValues(vs)) => Ok(ToolOutput::Document(write_cursor_value_list(&vs))),
            _ => wrong_shape(),
        },
        ToolCall::FindPeaks(_) => match data {
            Some(ResponseData::Peaks(ps)) => Ok(ToolOutput::Document(write_peak_list(&ps))),
            _ => wrong_shape(),
        },
        ToolCall::CorrelateChannels(_) => match data {
            Some(ResponseData::Correlation { coefficient, interpretation }) => {
                Ok(
                    ToolOutput::Document(
                        Json::Object(
                            vec![
                                member("coefficient", Json::Num(coefficient)),
                                member("interpretation", string(&interpretation)),
                            ],
                        ),
                    ),
                )
            },
            _ => wrong_shape(),
        },
        ToolCall::ShowScatterPlot(_) => say("Scatter plot displayed"),
        ToolCall::ShowChart => say("Chart view displayed"),
    }
}

/// A tool call's result from the outcome of its round trip: the round
/// trip's own failure, the server's error message verbatim, or what the
/// tool's success carries.
pub fn tool_result(call: &ToolCall, outcome: Result<IpcResponse, String>) -> (r: Result<ToolOutput, String>)
    ensures
        output_meets(r, tool_expected(*call, outcome_model(outcome))),
{
    match outcome {
        Err(e) => Err(e),
        Ok(IpcResponse::Error { message }) => Err(message),
        Ok(IpcResponse::Success(data)) => success_output(call, data),
    }
}

} // verus!
