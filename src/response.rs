//! Responses sent from the viewer back to the gateway, and their wire form
//! `{"status": "Ok" | "Error", "data": ...}`.
use vstd::prelude::*;
use crate::json::{
    Json, has_members, field, text_is, opt_text_is, opt_num_is, count_is, opt_pair_is, numbers_is, Number, lookup, opt_text, str_at, opt_str_at, num_at, opt_num_at, bool_at, count_at,
    opt_pair_at, numbers_of, numbers_at, get_member, get_str, get_opt_str, get_num, get_opt_num,
    get_bool, get_count, get_opt_pair, get_numbers, str_eq, text, write_opt_pair, write_opt_num,
    write_opt_str, write_numbers, member, string,
};

verus! {

/// A log file that the viewer has loaded.
#[derive(Debug)]
pub struct FileInfo {
    /// Identifier of the file within the viewer.
    pub id: String,
    pub path: String,
    /// File name, for display.
    pub name: String,
    /// The kind of engine control unit that wrote the log.
    pub ecu_type: String,
    pub channel_count: usize,
    pub record_count: usize,
    /// Length of the log in seconds.
    pub duration: Number,
    /// Records per second.
    pub sample_rate: Number,
}

/// The mathematical value of a `FileInfo`.
pub struct FileInfoModel {
    pub id: Seq<char>,
    pub path: Seq<char>,
    pub name: Seq<char>,
    pub ecu_type: Seq<char>,
    pub channel_count: usize,
    pub record_count: usize,
    pub duration: Number,
    pub sample_rate: Number,
}

impl View for FileInfo {
    type V = FileInfoModel;

    open spec fn view(&self) -> FileInfoModel {
        FileInfoModel {
            id: self.id@,
            path: self.path@,
            name: self.name@,
            ecu_type: self.ecu_type@,
            channel_count: self.channel_count,
            record_count: self.record_count,
            duration: self.duration,
            sample_rate: self.sample_rate,
        }
    }
}

/// The `FileInfo` that a JSON object denotes, if any.
pub open spec fn file_info_of(j: Json) -> Option<FileInfoModel> {
    match j {
        Json::Object(ms) => {
            let p = ms@;
            if str_at(p, "id"@) is Some && str_at(p, "path"@) is Some && str_at(p, "name"@) is Some && str_at(p, "ecu_type"@) is Some && count_at(p, "channel_count"@) is Some && count_at(p, "record_count"@) is Some && num_at(p, "duration"@) is Some && num_at(p, "sample_rate"@) is Some {
                Some(FileInfoModel {
                    id: str_at(p, "id"@).unwrap(),
                    path: str_at(p, "path"@).unwrap(),
                    name: str_at(p, "name"@).unwrap(),
                    ecu_type: str_at(p, "ecu_type"@).unwrap(),
                    channel_count: count_at(p, "channel_count"@).unwrap(),
                    record_count: count_at(p, "record_count"@).unwrap(),
                    duration: num_at(p, "duration"@).unwrap(),
                    sample_rate: num_at(p, "sample_rate"@).unwrap(),
                })
            } else {
                None
            }
        },
        _ => None,
    }
}

/// The list of `FileInfo` values that a JSON array denotes, if any.
pub open spec fn file_info_list_of(j: Json) -> Option<Seq<FileInfoModel>> {
    match j {
        Json::Array(items) => if forall|i: int| 0 <= i < items@.len() ==> (#[trigger] file_info_of(items@[i])) is Some {
            Some(items@.map_values(|v: Json| file_info_of(v).unwrap()))
        } else {
            None
        },
        _ => None,
    }
}

/// Member `key` read as a list of `FileInfo` values.
pub open spec fn file_info_list_at(ms: Seq<(String, Json)>, key: Seq<char>) -> Option<Seq<FileInfoModel>> {
    match lookup(ms, key) {
        Some(v) => file_info_list_of(v),
        None => None,
    }
}

/// Whether `j` is the record of `x`: an object with exactly the members
/// `id`, `path`, `name`, `ecu_type`, `channel_count`, `record_count`, `duration`, `sample_rate`, in that order.
pub open spec fn file_info_is(j: Json, x: FileInfoModel) -> bool {
    &&& has_members(j, seq!["id"@, "path"@, "name"@, "ecu_type"@, "channel_count"@, "record_count"@, "duration"@, "sample_rate"@])
    &&& text_is(field(j, 0), x.id)
    &&& text_is(field(j, 1), x.path)
    &&& text_is(field(j, 2), x.name)
    &&& text_is(field(j, 3), x.ecu_type)
    &&& count_is(field(j, 4), x.channel_count)
    &&& count_is(field(j, 5), x.record_count)
    &&& field(j, 6) == Json::Num(x.duration)
    &&& field(j, 7) == Json::Num(x.sample_rate)
}

/// Whether `j` is the array of the records of `xs`, in order.
pub open spec fn file_info_list_is(j: Json, xs: Seq<FileInfoModel>) -> bool {
    j matches Json::Array(items) && items@.len() == xs.len() && forall|i: int|
        0 <= i < xs.len() ==> file_info_is(#[trigger] items@[i], xs[i])
}

/// Reads a JSON object as a `FileInfo`.
pub fn read_file_info(j: &Json) -> (r: Option<FileInfo>)
    ensures
        match r {
            Some(x) => file_info_of(*j) == Some(x@),
            None => file_info_of(*j) is None,
        },
{
    let p = match j {
        Json::Object(p) => p,
        _ => return None,
    };
    match (get_str(p, "id"), get_str(p, "path"), get_str(p, "name"), get_str(p, "ecu_type"), get_count(p, "channel_count"), get_count(p, "record_count"), get_num(p, "duration"), get_num(p, "sample_rate")) {
        (Some(id), Some(path), Some(name), Some(ecu_type), Some(channel_count), Some(record_count), Some(duration), Some(sample_rate)) => Some(FileInfo { id, path, name, ecu_type, channel_count, record_count, duration, sample_rate }),
        _ => None,
    }
}

/// Writes a `FileInfo` as a JSON object that reads back as the same value.
pub fn write_file_info(x: &FileInfo) -> (j: Json)
    ensures
        file_info_of(j) == Some(x@),
        file_info_is(j, x@),
{
    proof {
        lemma_response_words();
        reveal_with_fuel(lookup, 9);
    }
    Json::Object(vec![
        member("id", string(&x.id)),
        member("path", string(&x.path)),
        member("name", string(&x.name)),
        member("ecu_type", string(&x.ecu_type)),
        member("channel_count", Json::Num(Number::PosInt(x.channel_count as u64))),
        member("record_count", Json::Num(Number::PosInt(x.record_count as u64))),
        member("duration", Json::Num(x.duration)),
        member("sample_rate", Json::Num(x.sample_rate)),
    ])
}

/// Reads a JSON array as a list of `FileInfo` values.
pub fn read_file_info_list(v: &Json) -> (r: Option<Vec<FileInfo>>)
    ensures
        match r {
            Some(xs) => file_info_list_of(*v) == Some(xs@.map_values(|x: FileInfo| x@)),
            None => file_info_list_of(*v) is None,
        },
{
    match v {
        Json::Array(items) => {
            let mut out: Vec<FileInfo> = Vec::new();
            let mut i: usize = 0;
            while i < items.len()
                invariant
                    *v == Json::Array(*items),
                    i <= items@.len(),
                    out@.len() == i,
                    forall|k: int| 0 <= k < i ==> (#[trigger] file_info_of(items@[k])) == Some(out@[k]@),
                decreases items.len() - i,
            {
                match read_file_info(&items[i]) {
                    Some(x) => out.push(x),
                    None => {
                        assert(!(forall|k: int| 0 <= k < items@.len() ==> (#[trigger] file_info_of(items@[k])) is Some));
                        return None;
                    },
                }
                i = i + 1;
            }
            let xs = out;
            assert(xs@.map_values(|x: FileInfo| x@) =~= items@.map_values(|v: Json| file_info_of(v).unwrap()));
            Some(xs)
        },
        _ => None,
    }
}

/// Reads member `key` as a list of `FileInfo` values.
pub fn get_file_info_list(ms: &Vec<(String, Json)>, key: &str) -> (r: Option<Vec<FileInfo>>)
    ensures
        match r {
            Some(xs) => file_info_list_at(ms@, key@) == Some(xs@.map_values(|x: FileInfo| x@)),
            None => file_info_list_at(ms@, key@) is None,
        },
{
    match get_member(ms, key) {
        Some(v) => read_file_info_list(v),
        None => None,
    }
}

/// Writes a list of `FileInfo` values as a JSON array that reads back as the
/// same list.
pub fn write_file_info_list(xs: &Vec<FileInfo>) -> (j: Json)
    ensures
        file_info_list_of(j) == Some(xs@.map_values(|x: FileInfo| x@)),
        file_info_list_is(j, xs@.map_values(|x: FileInfo| x@)),
{
    let mut out: Vec<Json> = Vec::new();
    let mut i: usize = 0;
    while i < xs.len()
        invariant
            i <= xs@.len(),
            out@.len() == i,
            forall|k: int| 0 <= k < i ==> (#[trigger] file_info_of(out@[k])) == Some(xs@[k]@),
            forall|k: int| 0 <= k < i ==> file_info_is(#[trigger] out@[k], xs@[k]@),
        decreases xs.len() - i,
    {
        let item = write_file_info(&xs[i]);
        out.push(item);
        i = i + 1;
    }
    assert(forall|k: int| 0 <= k < out@.len() ==> (#[trigger] file_info_of(out@[k])) is Some);
    assert(out@.map_values(|v: Json| file_info_of(v).unwrap()) =~= xs@.map_values(|x: FileInfo| x@));
    Json::Array(out)
}

/// A telemetry channel of a loaded file.
#[derive(Debug)]
pub struct ChannelInfo {
    pub name: String,
    pub unit: String,
    pub channel_type: String,
    pub is_computed: bool,
    pub min_value: Option<Number>,
    pub max_value: Option<Number>,
}

/// The mathematical value of a `ChannelInfo`.
pub struct ChannelInfoModel {
    pub name: Seq<char>,
    pub unit: Seq<char>,
    pub channel_type: Seq<char>,
    pub is_computed: bool,
    pub min_value: Option<Number>,
    pub max_value: Option<Number>,
}

impl View for ChannelInfo {
    type V = ChannelInfoModel;

    open spec fn view(&self) -> ChannelInfoModel {
        ChannelInfoModel {
            name: self.name@,
            unit: self.unit@,
            channel_type: self.channel_type@,
            is_computed: self.is_computed,
            min_value: self.min_value,
            max_value: self.max_value,
        }
    }
}

/// The `ChannelInfo` that a JSON object denotes, if any.
pub open spec fn channel_info_of(j: Json) -> Option<ChannelInfoModel> {
    match j {
        Json::Object(ms) => {
            let p = ms@;
            if str_at(p, "name"@) is Some && str_at(p, "unit"@) is Some && str_at(p, "channel_type"@) is Some && bool_at(p, "is_computed"@) is Some && opt_num_at(p, "min_value"@) is Some && opt_num_at(p, "max_value"@) is Some {
                Some(ChannelInfoModel {
                    name: str_at(p, "name"@).unwrap(),
                    unit: str_at(p, "unit"@).unwrap(),
                    channel_type: str_at(p, "channel_type"@).unwrap(),
                    is_computed: bool_at(p, "is_computed"@).unwrap(),
                    min_value: opt_num_at(p, "min_value"@).unwrap(),
                    max_value: opt_num_at(p, "max_value"@).unwrap(),
                })
            } else {
                None
            }
        },
        _ => None,
    }
}

/// The list of `ChannelInfo` values that a JSON array denotes, if any.
pub open spec fn channel_info_list_of(j: Json) -> Option<Seq<ChannelInfoModel>> {
    match j {
        Json::Array(items) => if forall|i: int| 0 <= i < items@.len() ==> (#[trigger] channel_info_of(items@[i])) is Some {
            Some(items@.map_values(|v: Json| channel_info_of(v).unwrap()))
        } else {
            None
        },
        _ => None,
    }
}

/// Whether `j` is the record of `x`: an object with exactly the members
/// `name`, `unit`, `channel_type`, `is_computed`, `min_value`, `max_value`, in that order.
pub open spec fn channel_info_is(j: Json, x: ChannelInfoModel) -> bool {
    &&& has_members(j, seq!["name"@, "unit"@, "channel_type"@, "is_computed"@, "min_value"@, "max_value"@])
    &&& text_is(field(j, 0), x.name)
    &&& text_is(field(j, 1), x.unit)
    &&& text_is(field(j, 2), x.channel_type)
    &&& field(j, 3) == Json::Bool(x.is_computed)
    &&& opt_num_is(field(j, 4), x.min_value)
    &&& opt_num_is(field(j, 5), x.max_value)
}

/// Whether `j` is the array of the records of `xs`, in order.
pub open spec fn channel_info_list_is(j: Json, xs: Seq<ChannelInfoModel>) -> bool {
    j matches Json::Array(items) && items@.len() == xs.len() && forall|i: int|
        0 <= i < xs.len() ==> channel_info_is(#[trigger] items@[i], xs[i])
}

/// Reads a JSON object as a `ChannelInfo`.
pub fn read_channel_info(j: &Json) -> (r: Option<ChannelInfo>)
    ensures
        match r {
            Some(x) => channel_info_of(*j) == Some(x@),
            None => channel_info_of(*j) is None,
        },
{
    let p = match j {
        Json::Object(p) => p,
        _ => return None,
    };
    match (get_str(p, "name"), get_str(p, "unit"), get_str(p, "channel_type"), get_bool(p, "is_computed"), get_opt_num(p, "min_value"), get_opt_num(p, "max_value")) {
        (Some(name), Some(unit), Some(channel_type), Some(is_computed), Some(min_value), Some(max_value)) => Some(ChannelInfo { name, unit, channel_type, is_computed, min_value, max_value }),
        _ => None,
    }
}

/// Writes a `ChannelInfo` as a JSON object that reads back as the same value.
pub fn write_channel_info(x: &ChannelInfo) -> (j: Json)
    ensures
        channel_info_of(j) == Some(x@),
        channel_info_is(j, x@),
{
    proof {
        lemma_response_words();
        reveal_with_fuel(lookup, 7);
    }
    Json::Object(vec![
        member("name", string(&x.name)),
        member("unit", string(&x.unit)),
        member("channel_type", string(&x.channel_type)),
        member("is_computed", Json::Bool(x.is_computed)),
        member("min_value", write_opt_num(x.min_value)),
        member("max_value", write_opt_num(x.max_value)),
    ])
}

/// Reads a JSON array as a list of `ChannelInfo` values.
pub fn read_channel_info_list(v: &Json) -> (r: Option<Vec<ChannelInfo>>)
    ensures
        match r {
            Some(xs) => channel_info_list_of(*v) == Some(xs@.map_values(|x: ChannelInfo| x@)),
            None => channel_info_list_of(*v) is None,
        },
{
    match v {
        Json::Array(items) => {
            let mut out: Vec<ChannelInfo> = Vec::new();
            let mut i: usize = 0;
            while i < items.len()
                invariant
                    *v == Json::Array(*items),
                    i <= items@.len(),
                    out@.len() == i,
                    forall|k: int| 0 <= k < i ==> (#[trigger] channel_info_of(items@[k])) == Some(out@[k]@),
                decreases items.len() - i,
            {
                match read_channel_info(&items[i]) {
                    Some(x) => out.push(x),
                    None => {
                        assert(!(forall|k: int| 0 <= k < items@.len() ==> (#[trigger] channel_info_of(items@[k])) is Some));
                        return None;
                    },
                }
                i = i + 1;
            }
            let xs = out;
            assert(xs@.map_values(|x: ChannelInfo| x@) =~= items@.map_values(|v: Json| channel_info_of(v).unwrap()));
            Some(xs)
        },
        _ => None,
    }
}

/// Writes a list of `ChannelInfo` values as a JSON array that reads back as the
/// same list.
pub fn write_channel_info_list(xs: &Vec<ChannelInfo>) -> (j: Json)
    ensures
        channel_info_list_of(j) == Some(xs@.map_values(|x: ChannelInfo| x@)),
        channel_info_list_is(j, xs@.map_values(|x: ChannelInfo| x@)),
{
    let mut out: Vec<Json> = Vec::new();
    let mut i: usize = 0;
    while i < xs.len()
        invariant
            i <= xs@.len(),
            out@.len() == i,
            forall|k: int| 0 <= k < i ==> (#[trigger] channel_info_of(out@[k])) == Some(xs@[k]@),
            forall|k: int| 0 <= k < i ==> channel_info_is(#[trigger] out@[k], xs@[k]@),
        decreases xs.len() - i,
    {
        let item = write_channel_info(&xs[i]);
        out.push(item);
        i = i + 1;
    }
    assert(forall|k: int| 0 <= k < out@.len() ==> (#[trigger] channel_info_of(out@[k])) is Some);
    assert(out@.map_values(|v: Json| channel_info_of(v).unwrap()) =~= xs@.map_values(|x: ChannelInfo| x@));
    Json::Array(out)
}

/// A channel shown on the chart.
#[derive(Debug)]
pub struct SelectedChannelInfo {
    pub file_id: String,
    pub channel_name: String,
    /// Display color, as a hex string.
    pub color: String,
}

/// The mathematical value of a `SelectedChannelInfo`.
pub struct SelectedChannelInfoModel {
    pub file_id: Seq<char>,
    pub channel_name: Seq<char>,
    pub color: Seq<char>,
}

impl View for SelectedChannelInfo {
    type V = SelectedChannelInfoModel;

    open spec fn view(&self) -> SelectedChannelInfoModel {
        SelectedChannelInfoModel {
            file_id: self.file_id@,
            channel_name: self.channel_name@,
            color: self.color@,
        }
    }
}

/// The `SelectedChannelInfo` that a JSON object denotes, if any.
pub open spec fn selected_channel_info_of(j: Json) -> Option<SelectedChannelInfoModel> {
    match j {
        Json::Object(ms) => {
            let p = ms@;
            if str_at(p, "file_id"@) is Some && str_at(p, "channel_name"@) is Some && str_at(p, "color"@) is Some {
                Some(SelectedChannelInfoModel {
                    file_id: str_at(p, "file_id"@).unwrap(),
                    channel_name: str_at(p, "channel_name"@).unwrap(),
                    color: str_at(p, "color"@).unwrap(),
                })
            } else {
                None
            }
        },
        _ => None,
    }
}

/// The list of `SelectedChannelInfo` values that a JSON array denotes, if any.
pub open spec fn selected_channel_info_list_of(j: Json) -> Option<Seq<SelectedChannelInfoModel>> {
    match j {
        Json::Array(items) => if forall|i: int| 0 <= i < items@.len() ==> (#[trigger] selected_channel_info_of(items@[i])) is Some {
            Some(items@.map_values(|v: Json| selected_channel_info_of(v).unwrap()))
        } else {
            None
        },
        _ => None,
    }
}

/// Member `key` read as a list of `SelectedChannelInfo` values.
pub open spec fn selected_channel_info_list_at(ms: Seq<(String, Json)>, key: Seq<char>) -> Option<Seq<SelectedChannelInfoModel>> {
    match lookup(ms, key) {
        Some(v) => selected_channel_info_list_of(v),
        None => None,
    }
}

/// Whether `j` is the record of `x`: an object with exactly the members
/// `file_id`, `channel_name`, `color`, in that order.
pub open spec fn selected_channel_info_is(j: Json, x: SelectedChannelInfoModel) -> bool {
    &&& has_members(j, seq!["file_id"@, "channel_name"@, "color"@])
    &&& text_is(field(j, 0), x.file_id)
    &&& text_is(field(j, 1), x.channel_name)
    &&& text_is(field(j, 2), x.color)
}

/// Whether `j` is the array of the records of `xs`, in order.
pub open spec fn selected_channel_info_list_is(j: Json, xs: Seq<SelectedChannelInfoModel>) -> bool {
    j matches Json::Array(items) && items@.len() == xs.len() && forall|i: int|
        0 <= i < xs.len() ==> selected_channel_info_is(#[trigger] items@[i], xs[i])
}

/// Reads a JSON object as a `SelectedChannelInfo`.
pub fn read_selected_channel_info(j: &Json) -> (r: Option<SelectedChannelInfo>)
    ensures
        match r {
            Some(x) => selected_channel_info_of(*j) == Some(x@),
            None => selected_channel_info_of(*j) is None,
        },
{
    let p = match j {
        Json::Object(p) => p,
        _ => return None,
    };
    match (get_str(p, "file_id"), get_str(p, "channel_name"), get_str(p, "color")) {
        (Some(file_id), Some(channel_name), Some(color)) => Some(SelectedChannelInfo { file_id, channel_name, color }),
        _ => None,
    }
}

/// Writes a `SelectedChannelInfo` as a JSON object that reads back as the same value.
pub fn write_selected_channel_info(x: &SelectedChannelInfo) -> (j: Json)
    ensures
        selected_channel_info_of(j) == Some(x@),
        selected_channel_info_is(j, x@),
{
    proof {
        lemma_response_words();
        reveal_with_fuel(lookup, 4);
    }
    Json::Object(vec![
        member("file_id", string(&x.file_id)),
        member("channel_name", string(&x.channel_name)),
        member("color", string(&x.color)),
    ])
}

/// Reads a JSON array as a list of `SelectedChannelInfo` values.
pub fn read_selected_channel_info_list(v: &Json) -> (r: Option<Vec<SelectedChannelInfo>>)
    ensures
        match r {
            Some(xs) => selected_channel_info_list_of(*v) == Some(xs@.map_values(|x: SelectedChannelInfo| x@)),
            None => selected_channel_info_list_of(*v) is None,
        },
{
    match v {
        Json::Array(items) => {
            let mut out: Vec<SelectedChannelInfo> = Vec::new();
            let mut i: usize = 0;
            while i < items.len()
                invariant
                    *v == Json::Array(*items),
                    i <= items@.len(),
                    out@.len() == i,
                    forall|k: int| 0 <= k < i ==> (#[trigger] selected_channel_info_of(items@[k])) == Some(out@[k]@),
                decreases items.len() - i,
            {
                match read_selected_channel_info(&items[i]) {
                    Some(x) => out.push(x),
                    None => {
                        assert(!(forall|k: int| 0 <= k < items@.len() ==> (#[trigger] selected_channel_info_of(items@[k])) is Some));
                        return None;
                    },
                }
                i = i + 1;
            }
            let xs = out;
            assert(xs@.map_values(|x: SelectedChannelInfo| x@) =~= items@.map_values(|v: Json| selected_channel_info_of(v).unwrap()));
            Some(xs)
        },
        _ => None,
    }
}

/// Reads member `key` as a list of `SelectedChannelInfo` values.
pub fn get_selected_channel_info_list(ms: &Vec<(String, Json)>, key: &str) -> (r: Option<Vec<SelectedChannelInfo>>)
    ensures
        match r {
            Some(xs) => selected_channel_info_list_at(ms@, key@) == Some(xs@.map_values(|x: SelectedChannelInfo| x@)),
            None => selected_channel_info_list_at(ms@, key@) is None,
        },
{
    match get_member(ms, key) {
        Some(v) => read_selected_channel_info_list(v),
        None => None,
    }
}

/// Writes a list of `SelectedChannelInfo` values as a JSON array that reads back as the
/// same list.
pub fn write_selected_channel_info_list(xs: &Vec<SelectedChannelInfo>) -> (j: Json)
    ensures
        selected_channel_info_list_of(j) == Some(xs@.map_values(|x: SelectedChannelInfo| x@)),
        selected_channel_info_list_is(j, xs@.map_values(|x: SelectedChannelInfo| x@)),
{
    let mut out: Vec<Json> = Vec::new();
    let mut i: usize = 0;
    while i < xs.len()
        invariant
            i <= xs@.len(),
            out@.len() == i,
            forall|k: int| 0 <= k < i ==> (#[trigger] selected_channel_info_of(out@[k])) == Some(xs@[k]@),
            forall|k: int| 0 <= k < i ==> selected_channel_info_is(#[trigger] out@[k], xs@[k]@),
        decreases xs.len() - i,
    {
        let item = write_selected_channel_info(&xs[i]);
        out.push(item);
        i = i + 1;
    }
    assert(forall|k: int| 0 <= k < out@.len() ==> (#[trigger] selected_channel_info_of(out@[k])) is Some);
    assert(out@.map_values(|v: Json| selected_channel_info_of(v).unwrap()) =~= xs@.map_values(|x: SelectedChannelInfo| x@));
    Json::Array(out)
}

/// Summary statistics of a channel.
#[derive(Clone, Copy, Debug, PartialEq, Eq, Structural)]
pub struct ChannelStats {
    pub min: Number,
    pub max: Number,
    pub mean: Number,
    pub std_dev: Number,
    pub median: Number,
    /// Number of samples.
    pub count: usize,
    /// Time of the minimum.
    pub min_time: Number,
    /// Time of the maximum.
    pub max_time: Number,
}

/// The `ChannelStats` that a JSON object denotes, if any.
pub open spec fn channel_stats_of(j: Json) -> Option<ChannelStats> {
    match j {
        Json::Object(ms) => {
            let p = ms@;
            if num_at(p, "min"@) is Some && num_at(p, "max"@) is Some && num_at(p, "mean"@) is Some && num_at(p, "std_dev"@) is Some && num_at(p, "median"@) is Some && count_at(p, "count"@) is Some && num_at(p, "min_time"@) is Some && num_at(p, "max_time"@) is Some {
                Some(ChannelStats {
                    min: num_at(p, "min"@).unwrap(),
                    max: num_at(p, "max"@).unwrap(),
                    mean: num_at(p, "mean"@).unwrap(),
                    std_dev: num_at(p, "std_dev"@).unwrap(),
                    median: num_at(p, "median"@).unwrap(),
                    count: count_at(p, "count"@).unwrap(),
                    min_time: num_at(p, "min_time"@).unwrap(),
                    max_time: num_at(p, "max_time"@).unwrap(),
                })
            } else {
                None
            }
        },
        _ => None,
    }
}

/// Whether `j` is the record of `x`: an object with exactly the members
/// `min`, `max`, `mean`, `std_dev`, `median`, `count`, `min_time`, `max_time`, in that order.
pub open spec fn channel_stats_is(j: Json, x: ChannelStats) -> bool {
    &&& has_members(j, seq!["min"@, "max"@, "mean"@, "std_dev"@, "median"@, "count"@, "min_time"@, "max_time"@])
    &&& field(j, 0) == Json::Num(x.min)
    &&& field(j, 1) == Json::Num(x.max)
    &&& field(j, 2) == Json::Num(x.mean)
    &&& field(j, 3) == Json::Num(x.std_dev)
    &&& field(j, 4) == Json::Num(x.median)
    &&& count_is(field(j, 5), x.count)
    &&& field(j, 6) == Json::Num(x.min_time)
    &&& field(j, 7) == Json::Num(x.max_time)
}

/// Whether `j` is the array of the records of `xs`, in order.
pub open spec fn channel_stats_list_is(j: Json, xs: Seq<ChannelStats>) -> bool {
    j matches Json::Array(items) && items@.len() == xs.len() && forall|i: int|
        0 <= i < xs.len() ==> channel_stats_is(#[trigger] items@[i], xs[i])
}

/// Reads a JSON object as a `ChannelStats`.
pub fn read_channel_stats(j: &Json) -> (r: Option<ChannelStats>)
    ensures
        match r {
            Some(x) => channel_stats_of(*j) == Some(x),
            None => channel_stats_of(*j) is None,
        },
{
    let p = match j {
        Json::Object(p) => p,
        _ => return None,
    };
    match (get_num(p, "min"), get_num(p, "max"), get_num(p, "mean"), get_num(p, "std_dev"), get_num(p, "median"), get_count(p, "count"), get_num(p, "min_time"), get_num(p, "max_time")) {
        (Some(min), Some(max), Some(mean), Some(std_dev), Some(median), Some(count), Some(min_time), Some(max_time)) => Some(ChannelStats { min, max, mean, std_dev, median, count, min_time, max_time }),
        _ => None,
    }
}

/// Writes a `ChannelStats` as a JSON object that reads back as the same value.
pub fn write_channel_stats(x: &ChannelStats) -> (j: Json)
    ensures
        channel_stats_of(j) == Some(*x),
        channel_stats_is(j, *x),
{
    proof {
        lemma_response_words();
        reveal_with_fuel(lookup, 9);
    }
    Json::Object(vec![
        member("min", Json::Num(x.min)),
        member("max", Json::Num(x.max)),
        member("mean", Json::Num(x.mean)),
        member("std_dev", Json::Num(x.std_dev)),
        member("median", Json::Num(x.median)),
        member("count", Json::Num(Number::PosInt(x.count as u64))),
        member("min_time", Json::Num(x.min_time)),
        member("max_time", Json::Num(x.max_time)),
    ])
}

/// The value of a channel at the cursor.
#[derive(Debug)]
pub struct CursorValue {
    pub channel_name: String,
    pub value: Number,
    pub unit: String,
}

/// The mathematical value of a `CursorValue`.
pub struct CursorValueModel {
    pub channel_name: Seq<char>,
    pub value: Number,
    pub unit: Seq<char>,
}

impl View for CursorValue {
    type V = CursorValueModel;

    open spec fn view(&self) -> CursorValueModel {
        CursorValueModel {
            channel_name: self.channel_name@,
            value: self.value,
            unit: self.unit@,
        }
    }
}

/// The `CursorValue` that a JSON object denotes, if any.
pub open spec fn cursor_value_of(j: Json) -> Option<CursorValueModel> {
    match j {
        Json::Object(ms) => {
            let p = ms@;
            if str_at(p, "channel_name"@) is Some && num_at(p, "value"@) is Some && str_at(p, "unit"@) is Some {
                Some(CursorValueModel {
                    channel_name: str_at(p, "channel_name"@).unwrap(),
                    value: num_at(p, "value"@).unwrap(),
                    unit: str_at(p, "unit"@).unwrap(),
                })
            } else {
                None
            }
        },
        _ => None,
    }
}

/// The list of `CursorValue` values that a JSON array denotes, if any.
pub open spec fn cursor_value_list_of(j: Json) -> Option<Seq<CursorValueModel>> {
    match j {
        Json::Array(items) => if forall|i: int| 0 <= i < items@.len() ==> (#[trigger] cursor_value_of(items@[i])) is Some {
            Some(items@.map_values(|v: Json| cursor_value_of(v).unwrap()))
        } else {
            None
        },
        _ => None,
    }
}

/// Whether `j` is the record of `x`: an object with exactly the members
/// `channel_name`, `value`, `unit`, in that order.
pub open spec fn cursor_value_is(j: Json, x: CursorValueModel) -> bool {
    &&& has_members(j, seq!["channel_name"@, "value"@, "unit"@])
    &&& text_is(field(j, 0), x.channel_name)
    &&& field(j, 1) == Json::Num(x.value)
    &&& text_is(field(j, 2), x.unit)
}

/// Whether `j` is the array of the records of `xs`, in order.
pub open spec fn cursor_value_list_is(j: Json, xs: Seq<CursorValueModel>) -> bool {
    j matches Json::Array(items) && items@.len() == xs.len() && forall|i: int|
        0 <= i < xs.len() ==> cursor_value_is(#[trigger] items@[i], xs[i])
}

/// Reads a JSON object as a `CursorValue`.
pub fn read_cursor_value(j: &Json) -> (r: Option<CursorValue>)
    ensures
        match r {
            Some(x) => cursor_value_of(*j) == Some(x@),
            None => cursor_value_of(*j) is None,
        },
{
    let p = match j {
        Json::Object(p) => p,
        _ => return None,
    };
    match (get_str(p, "channel_name"), get_num(p, "value"), get_str(p, "unit")) {
        (Some(channel_name), Some(value), Some(unit)) => Some(CursorValue { channel_name, value, unit }),
        _ => None,
    }
}

/// Writes a `CursorValue` as a JSON object that reads back as the same value.
pub fn write_cursor_value(x: &CursorValue) -> (j: Json)
    ensures
        cursor_value_of(j) == Some(x@),
        cursor_value_is(j, x@),
{
    proof {
        lemma_response_words();
        reveal_with_fuel(lookup, 4);
    }
    Json::Object(vec![
        member("channel_name", string(&x.channel_name)),
        member("value", Json::Num(x.value)),
        member("unit", string(&x.unit)),
    ])
}

/// Reads a JSON array as a list of `CursorValue` values.
pub fn read_cursor_value_list(v: &Json) -> (r: Option<Vec<CursorValue>>)
    ensures
        match r {
            Some(xs) => cursor_value_list_of(*v) == Some(xs@.map_values(|x: CursorValue| x@)),
            None => cursor_value_list_of(*v) is None,
        },
{
    match v {
        Json::Array(items) => {
            let mut out: Vec<CursorValue> = Vec::new();
            let mut i: usize = 0;
            while i < items.len()
                invariant
                    *v == Json::Array(*items),
                    i <= items@.len(),
                    out@.len() == i,
                    forall|k: int| 0 <= k < i ==> (#[trigger] cursor_value_of(items@[k])) == Some(out@[k]@),
                decreases items.len() - i,
            {
                match read_cursor_value(&items[i]) {
                    Some(x) => out.push(x),
                    None => {
                        assert(!(forall|k: int| 0 <= k < items@.len() ==> (#[trigger] cursor_value_of(items@[k])) is Some));
                        return None;
                    },
                }
                i = i + 1;
            }
            let xs = out;
            assert(xs@.map_values(|x: CursorValue| x@) =~= items@.map_values(|v: Json| cursor_value_of(v).unwrap()));
            Some(xs)
        },
        _ => None,
    }
}

/// Writes a list of `CursorValue` values as a JSON array that reads back as the
/// same list.
pub fn write_cursor_value_list(xs: &Vec<CursorValue>) -> (j: Json)
    ensures
        cursor_value_list_of(j) == Some(xs@.map_values(|x: CursorValue| x@)),
        cursor_value_list_is(j, xs@.map_values(|x: CursorValue| x@)),
{
    let mut out: Vec<Json> = Vec::new();
    let mut i: usize = 0;
    while i < xs.len()
        invariant
            i <= xs@.len(),
            out@.len() == i,
            forall|k: int| 0 <= k < i ==> (#[trigger] cursor_value_of(out@[k])) == Some(xs@[k]@),
            forall|k: int| 0 <= k < i ==> cursor_value_is(#[trigger] out@[k], xs@[k]@),
        decreases xs.len() - i,
    {
        let item = write_cursor_value(&xs[i]);
        out.push(item);
        i = i + 1;
    }
    assert(forall|k: int| 0 <= k < out@.len() ==> (#[trigger] cursor_value_of(out@[k])) is Some);
    assert(out@.map_values(|v: Json| cursor_value_of(v).unwrap()) =~= xs@.map_values(|x: CursorValue| x@));
    Json::Array(out)
}

/// A saved computed-channel template.
#[derive(Debug)]
pub struct ComputedChannelInfo {
    pub id: String,
    pub name: String,
    pub formula: String,
    pub unit: String,
    pub description: String,
}

/// The mathematical value of a `ComputedChannelInfo`.
pub struct ComputedChannelInfoModel {
    pub id: Seq<char>,
    pub name: Seq<char>,
    pub formula: Seq<char>,
    pub unit: Seq<char>,
    pub description: Seq<char>,
}

impl View for ComputedChannelInfo {
    type V = ComputedChannelInfoModel;

    open spec fn view(&self) -> ComputedChannelInfoModel {
        ComputedChannelInfoModel {
            id: self.id@,
            name: self.name@,
            formula: self.formula@,
            unit: self.unit@,
            description: self.description@,
        }
    }
}

/// The `ComputedChannelInfo` that a JSON object denotes, if any.
pub open spec fn computed_channel_info_of(j: Json) -> Option<ComputedChannelInfoModel> {
    match j {
        Json::Object(ms) => {
            let p = ms@;
            if str_at(p, "id"@) is Some && str_at(p, "name"@) is Some && str_at(p, "formula"@) is Some && str_at(p, "unit"@) is Some && str_at(p, "description"@) is Some {
                Some(ComputedChannelInfoModel {
                    id: str_at(p, "id"@).unwrap(),
                    name: str_at(p, "name"@).unwrap(),
                    formula: str_at(p, "formula"@).unwrap(),
                    unit: str_at(p, "unit"@).unwrap(),
                    description: str_at(p, "description"@).unwrap(),
                })
            } else {
                None
            }
        },
        _ => None,
    }
}

/// The list of `ComputedChannelInfo` values that a JSON array denotes, if any.
pub open spec fn computed_channel_info_list_of(j: Json) -> Option<Seq<ComputedChannelInfoModel>> {
    match j {
        Json::Array(items) => if forall|i: int| 0 <= i < items@.len() ==> (#[trigger] computed_channel_info_of(items@[i])) is Some {
            Some(items@.map_values(|v: Json| computed_channel_info_of(v).unwrap()))
        } else {
            None
        },
        _ => None,
    }
}

/// Whether `j` is the record of `x`: an object with exactly the members
/// `id`, `name`, `formula`, `unit`, `description`, in that order.
pub open spec fn computed_channel_info_is(j: Json, x: ComputedChannelInfoModel) -> bool {
    &&& has_members(j, seq!["id"@, "name"@, "formula"@, "unit"@, "description"@])
    &&& text_is(field(j, 0), x.id)
    &&& text_is(field(j, 1), x.name)
    &&& text_is(field(j, 2), x.formula)
    &&& text_is(field(j, 3), x.unit)
    &&& text_is(field(j, 4), x.description)
}

/// Whether `j` is the array of the records of `xs`, in order.
pub open spec fn computed_channel_info_list_is(j: Json, xs: Seq<ComputedChannelInfoModel>) -> bool {
    j matches Json::Array(items) && items@.len() == xs.len() && forall|i: int|
        0 <= i < xs.len() ==> computed_channel_info_is(#[trigger] items@[i], xs[i])
}

/// Reads a JSON object as a `ComputedChannelInfo`.
pub fn read_computed_channel_info(j: &Json) -> (r: Option<ComputedChannelInfo>)
    ensures
        match r {
            Some(x) => computed_channel_info_of(*j) == Some(x@),
            None => computed_channel_info_of(*j) is None,
        },
{
    let p = match j {
        Json::Object(p) => p,
        _ => return None,
    };
    match (get_str(p, "id"), get_str(p, "name"), get_str(p, "formula"), get_str(p, "unit"), get_str(p, "description")) {
        (Some(id), Some(name), Some(formula), Some(unit), Some(description)) => Some(ComputedChannelInfo { id, name, formula, unit, description }),
        _ => None,
    }
}

/// Writes a `ComputedChannelInfo` as a JSON object that reads back as the same value.
pub fn write_computed_channel_info(x: &ComputedChannelInfo) -> (j: Json)
    ensures
        computed_channel_info_of(j) == Some(x@),
        computed_channel_info_is(j, x@),
{
    proof {
        lemma_response_words();
        reveal_with_fuel(lookup, 6);
    }
    Json::Object(vec![
        member("id", string(&x.id)),
        member("name", string(&x.name)),
        member("formula", string(&x.formula)),
        member("unit", string(&x.unit)),
        member("description", string(&x.description)),
    ])
}

/// Reads a JSON array as a list of `ComputedChannelInfo` values.
pub fn read_computed_channel_info_list(v: &Json) -> (r: Option<Vec<ComputedChannelInfo>>)
    ensures
        match r {
            Some(xs) => computed_channel_info_list_of(*v) == Some(xs@.map_values(|x: ComputedChannelInfo| x@)),
            None => computed_channel_info_list_of(*v) is None,
        },
{
    match v {
        Json::Array(items) => {
            let mut out: Vec<ComputedChannelInfo> = Vec::new();
            let mut i: usize = 0;
            while i < items.len()
                invariant
                    *v == Json::Array(*items),
                    i <= items@.len(),
                    out@.len() == i,
                    forall|k: int| 0 <= k < i ==> (#[trigger] computed_channel_info_of(items@[k])) == Some(out@[k]@),
                decreases items.len() - i,
            {
                match read_computed_channel_info(&items[i]) {
                    Some(x) => out.push(x),
                    None => {
                        assert(!(forall|k: int| 0 <= k < items@.len() ==> (#[trigger] computed_channel_info_of(items@[k])) is Some));
                        return None;
                    },
                }
                i = i + 1;
            }
            let xs = out;
            assert(xs@.map_values(|x: ComputedChannelInfo| x@) =~= items@.map_values(|v: Json| computed_channel_info_of(v).unwrap()));
            Some(xs)
        },
        _ => None,
    }
}

/// Writes a list of `ComputedChannelInfo` values as a JSON array that reads back as the
/// same list.
pub fn write_computed_channel_info_list(xs: &Vec<ComputedChannelInfo>) -> (j: Json)
    ensures
        computed_channel_info_list_of(j) == Some(xs@.map_values(|x: ComputedChannelInfo| x@)),
        computed_channel_info_list_is(j, xs@.map_values(|x: ComputedChannelInfo| x@)),
{
    let mut out: Vec<Json> = Vec::new();
    let mut i: usize = 0;
    while i < xs.len()
        invariant
            i <= xs@.len(),
            out@.len() == i,
            forall|k: int| 0 <= k < i ==> (#[trigger] computed_channel_info_of(out@[k])) == Some(xs@[k]@),
            forall|k: int| 0 <= k < i ==> computed_channel_info_is(#[trigger] out@[k], xs@[k]@),
        decreases xs.len() - i,
    {
        let item = write_computed_channel_info(&xs[i]);
        out.push(item);
        i = i + 1;
    }
    assert(forall|k: int| 0 <= k < out@.len() ==> (#[trigger] computed_channel_info_of(out@[k])) is Some);
    assert(out@.map_values(|v: Json| computed_channel_info_of(v).unwrap()) =~= xs@.map_values(|x: ComputedChannelInfo| x@));
    Json::Array(out)
}

/// A detected peak in a channel.
#[derive(Clone, Copy, Debug, PartialEq, Eq, Structural)]
pub struct Peak {
    pub time: Number,
    pub value: Number,
    pub prominence: Number,
}

/// The `Peak` that a JSON object denotes, if any.
pub open spec fn peak_of(j: Json) -> Option<Peak> {
    match j {
        Json::Object(ms) => {
            let p = ms@;
            if num_at(p, "time"@) is Some && num_at(p, "value"@) is Some && num_at(p, "prominence"@) is Some {
                Some(Peak {
                    time: num_at(p, "time"@).unwrap(),
                    value: num_at(p, "value"@).unwrap(),
                    prominence: num_at(p, "prominence"@).unwrap(),
                })
            } else {
                None
            }
        },
        _ => None,
    }
}

/// The list of `Peak` values that a JSON array denotes, if any.
pub open spec fn peak_list_of(j: Json) -> Option<Seq<Peak>> {
    match j {
        Json::Array(items) => if forall|i: int| 0 <= i < items@.len() ==> (#[trigger] peak_of(items@[i])) is Some {
            Some(items@.map_values(|v: Json| peak_of(v).unwrap()))
        } else {
            None
        },
        _ => None,
    }
}

/// Whether `j` is the record of `x`: an object with exactly the members
/// `time`, `value`, `prominence`, in that order.
pub open spec fn peak_is(j: Json, x: Peak) -> bool {
    &&& has_members(j, seq!["time"@, "value"@, "prominence"@])
    &&& field(j, 0) == Json::Num(x.time)
    &&& field(j, 1) == Json::Num(x.value)
    &&& field(j, 2) == Json::Num(x.prominence)
}

/// Whether `j` is the array of the records of `xs`, in order.
pub open spec fn peak_list_is(j: Json, xs: Seq<Peak>) -> bool {
    j matches Json::Array(items) && items@.len() == xs.len() && forall|i: int|
        0 <= i < xs.len() ==> peak_is(#[trigger] items@[i], xs[i])
}

/// Reads a JSON object as a `Peak`.
pub fn read_peak(j: &Json) -> (r: Option<Peak>)
    ensures
        match r {
            Some(x) => peak_of(*j) == Some(x),
            None => peak_of(*j) is None,
        },
{
    let p = match j {
        Json::Object(p) => p,
        _ => return None,
    };
    match (get_num(p, "time"), get_num(p, "value"), get_num(p, "prominence")) {
        (Some(time), Some(value), Some(prominence)) => Some(Peak { time, value, prominence }),
        _ => None,
    }
}

/// Writes a `Peak` as a JSON object that reads back as the same value.
pub fn write_peak(x: &Peak) -> (j: Json)
    ensures
        peak_of(j) == Some(*x),
        peak_is(j, *x),
{
    proof {
        lemma_response_words();
        reveal_with_fuel(lookup, 4);
    }
    Json::Object(vec![
        member("time", Json::Num(x.time)),
        member("value", Json::Num(x.value)),
        member("prominence", Json::Num(x.prominence)),
    ])
}

/// Reads a JSON array as a list of `Peak` values.
pub fn read_peak_list(v: &Json) -> (r: Option<Vec<Peak>>)
    ensures
        match r {
            Some(xs) => peak_list_of(*v) == Some(xs@),
            None => peak_list_of(*v) is None,
        },
{
    match v {
        Json::Array(items) => {
            let mut out: Vec<Peak> = Vec::new();
            let mut i: usize = 0;
            while i < items.len()
                invariant
                    *v == Json::Array(*items),
                    i <= items@.len(),
                    out@.len() == i,
                    forall|k: int| 0 <= k < i ==> (#[trigger] peak_of(items@[k])) == Some(out@[k]),
                decreases items.len() - i,
            {
                match read_peak(&items[i]) {
                    Some(x) => out.push(x),
                    None => {
                        assert(!(forall|k: int| 0 <= k < items@.len() ==> (#[trigger] peak_of(items@[k])) is Some));
                        return None;
                    },
                }
                i = i + 1;
            }
            let xs = out;
            assert(xs@ =~= items@.map_values(|v: Json| peak_of(v).unwrap()));
            Some(xs)
        },
        _ => None,
    }
}

/// Writes a list of `Peak` values as a JSON array that reads back as the
/// same list.
pub fn write_peak_list(xs: &Vec<Peak>) -> (j: Json)
    ensures
        peak_list_of(j) == Some(xs@),
        peak_list_is(j, xs@),
{
    let mut out: Vec<Json> = Vec::new();
    let mut i: usize = 0;
    while i < xs.len()
        invariant
            i <= xs@.len(),
            out@.len() == i,
            forall|k: int| 0 <= k < i ==> (#[trigger] peak_of(out@[k])) == Some(xs@[k]),
            forall|k: int| 0 <= k < i ==> peak_is(#[trigger] out@[k], xs@[k]),
        decreases xs.len() - i,
    {
        let item = write_peak(&xs[i]);
        out.push(item);
        i = i + 1;
    }
    assert(forall|k: int| 0 <= k < out@.len() ==> (#[trigger] peak_of(out@[k])) is Some);
    assert(out@.map_values(|v: Json| peak_of(v).unwrap()) =~= xs@);
    Json::Array(out)
}

/// A snapshot of the viewer.
#[derive(Debug)]
pub struct AppState {
    /// Loaded files.
    pub files: Vec<FileInfo>,
    /// Identifier of the active file.
    pub active_file: Option<String>,
    pub selected_channels: Vec<SelectedChannelInfo>,
    pub cursor_time: Option<Number>,
    /// Visible time range, in seconds.
    pub visible_time_range: Option<(Number, Number)>,
    pub is_playing: bool,
    pub view_mode: String,
}

/// The mathematical value of a `AppState`.
pub struct AppStateModel {
    pub files: Seq<FileInfoModel>,
    pub active_file: Option<Seq<char>>,
    pub selected_channels: Seq<SelectedChannelInfoModel>,
    pub cursor_time: Option<Number>,
    pub visible_time_range: Option<(Number, Number)>,
    pub is_playing: bool,
    pub view_mode: Seq<char>,
}

impl View for AppState {
    type V = AppStateModel;

    open spec fn view(&self) -> AppStateModel {
        AppStateModel {
            files: self.files@.map_values(|x: FileInfo| x@),
            active_file: opt_text(self.active_file),
            selected_channels: self.selected_channels@.map_values(|x: SelectedChannelInfo| x@),
            cursor_time: self.cursor_time,
            visible_time_range: self.visible_time_range,
            is_playing: self.is_playing,
            view_mode: self.view_mode@,
        }
    }
}

/// The `AppState` that a JSON object denotes, if any.
pub open spec fn app_state_of(j: Json) -> Option<AppStateModel> {
    match j {
        Json::Object(ms) => {
            let p = ms@;
            if file_info_list_at(p, "files"@) is Some && opt_str_at(p, "active_file"@) is Some && selected_channel_info_list_at(p, "selected_channels"@) is Some && opt_num_at(p, "cursor_time"@) is Some && opt_pair_at(p, "visible_time_range"@) is Some && bool_at(p, "is_playing"@) is Some && str_at(p, "view_mode"@) is Some {
                Some(AppStateModel {
                    files: file_info_list_at(p, "files"@).unwrap(),
                    active_file: opt_str_at(p, "active_file"@).unwrap(),
                    selected_channels: selected_channel_info_list_at(p, "selected_channels"@).unwrap(),
                    cursor_time: opt_num_at(p, "cursor_time"@).unwrap(),
                    visible_time_range: opt_pair_at(p, "visible_time_range"@).unwrap(),
                    is_playing: bool_at(p, "is_playing"@).unwrap(),
                    view_mode: str_at(p, "view_mode"@).unwrap(),
                })
            } else {
                None
            }
        },
        _ => None,
    }
}

/// Whether `j` is the record of `x`: an object with exactly the members
/// `files`, `active_file`, `selected_channels`, `cursor_time`, `visible_time_range`, `is_playing`, `view_mode`, in that order.
pub open spec fn app_state_is(j: Json, x: AppStateModel) -> bool {
    &&& has_members(j, seq!["files"@, "active_file"@, "selected_channels"@, "cursor_time"@, "visible_time_range"@, "is_playing"@, "view_mode"@])
    &&& file_info_list_is(field(j, 0), x.files)
    &&& opt_text_is(field(j, 1), x.active_file)
    &&& selected_channel_info_list_is(field(j, 2), x.selected_channels)
    &&& opt_num_is(field(j, 3), x.cursor_time)
    &&& opt_pair_is(field(j, 4), x.visible_time_range)
    &&& field(j, 5) == Json::Bool(x.is_playing)
    &&& text_is(field(j, 6), x.view_mode)
}

/// Whether `j` is the array of the records of `xs`, in order.
pub open spec fn app_state_list_is(j: Json, xs: Seq<AppStateModel>) -> bool {
    j matches Json::Array(items) && items@.len() == xs.len() && forall|i: int|
        0 <= i < xs.len() ==> app_state_is(#[trigger] items@[i], xs[i])
}

/// Reads a JSON object as a `AppState`.
pub fn read_app_state(j: &Json) -> (r: Option<AppState>)
    ensures
        match r {
            Some(x) => app_state_of(*j) == Some(x@),
            None => app_state_of(*j) is None,
        },
{
    let p = match j {
        Json::Object(p) => p,
        _ => return None,
    };
    match (get_file_info_list(p, "files"), get_opt_str(p, "active_file"), get_selected_channel_info_list(p, "selected_channels"), get_opt_num(p, "cursor_time"), get_opt_pair(p, "visible_time_range"), get_bool(p, "is_playing"), get_str(p, "view_mode")) {
        (Some(files), Some(active_file), Some(selected_channels), Some(cursor_time), Some(visible_time_range), Some(is_playing), Some(view_mode)) => Some(AppState { files, active_file, selected_channels, cursor_time, visible_time_range, is_playing, view_mode }),
        _ => None,
    }
}

/// Writes a `AppState` as a JSON object that reads back as the same value.
pub fn write_app_state(x: &AppState) -> (j: Json)
    ensures
        app_state_of(j) == Some(x@),
        app_state_is(j, x@),
{
    proof {
        lemma_response_words();
        reveal_with_fuel(lookup, 8);
    }
    Json::Object(vec![
        member("files", write_file_info_list(&x.files)),
        member("active_file", write_opt_str(&x.active_file)),
        member("selected_channels", write_selected_channel_info_list(&x.selected_channels)),
        member("cursor_time", write_opt_num(x.cursor_time)),
        member("visible_time_range", write_opt_pair(x.visible_time_range)),
        member("is_playing", Json::Bool(x.is_playing)),
        member("view_mode", string(&x.view_mode)),
    ])
}

/// The characters of the names used in response records.
proof fn lemma_response_words()
    ensures
        "status"@.len() == 6,
        "status"@[0] == 's',
        "status"@[1] == 't',
        "status"@[2] == 'a',
        "status"@[3] == 't',
        "status"@[4] == 'u',
        "status"@[5] == 's',
        "data"@.len() == 4,
        "data"@[0] == 'd',
        "data"@[1] == 'a',
        "data"@[2] == 't',
        "data"@[3] == 'a',
        "type"@.len() == 4,
        "type"@[0] == 't',
        "type"@[1] == 'y',
        "type"@[2] == 'p',
        "type"@[3] == 'e',
        "value"@.len() == 5,
        "value"@[0] == 'v',
        "value"@[1] == 'a',
        "value"@[2] == 'l',
        "value"@[3] == 'u',
        "value"@[4] == 'e',
        "message"@.len() == 7,
        "message"@[0] == 'm',
        "message"@[1] == 'e',
        "message"@[2] == 's',
        "message"@[3] == 's',
        "message"@[4] == 'a',
        "message"@[5] == 'g',
        "message"@[6] == 'e',
        "Ok"@.len() == 2,
        "Ok"@[0] == 'O',
        "Ok"@[1] == 'k',
        "Error"@.len() == 5,
        "Error"@[0] == 'E',
        "Error"@[1] == 'r',
        "Error"@[2] == 'r',
        "Error"@[3] == 'o',
        "Error"@[4] == 'r',
        "Ack"@.len() == 3,
        "Ack"@[0] == 'A',
        "Ack"@[1] == 'c',
        "Ack"@[2] == 'k',
        "Pong"@.len() == 4,
        "Pong"@[0] == 'P',
        "Pong"@[1] == 'o',
        "Pong"@[2] == 'n',
        "Pong"@[3] == 'g',
        "State"@.len() == 5,
        "State"@[0] == 'S',
        "State"@[1] == 't',
        "State"@[2] == 'a',
        "State"@[3] == 't',
        "State"@[4] == 'e',
        "FileLoaded"@.len() == 10,
        "FileLoaded"@[0] == 'F',
        "FileLoaded"@[1] == 'i',
        "FileLoaded"@[2] == 'l',
        "FileLoaded"@[3] == 'e',
        "FileLoaded"@[4] == 'L',
        "FileLoaded"@[5] == 'o',
        "FileLoaded"@[6] == 'a',
        "FileLoaded"@[7] == 'd',
        "FileLoaded"@[8] == 'e',
        "FileLoaded"@[9] == 'd',
        "Channels"@.len() == 8,
        "Channels"@[0] == 'C',
        "Channels"@[1] == 'h',
        "Channels"@[2] == 'a',
        "Channels"@[3] == 'n',
        "Channels"@[4] == 'n',
        "Channels"@[5] == 'e',
        "Channels"@[6] == 'l',
        "Channels"@[7] == 's',
        "ChannelData"@.len() == 11,
        "ChannelData"@[0] == 'C',
        "ChannelData"@[1] == 'h',
        "ChannelData"@[2] == 'a',
        "ChannelData"@[3] == 'n',
        "ChannelData"@[4] == 'n',
        "ChannelData"@[5] == 'e',
        "ChannelData"@[6] == 'l',
        "ChannelData"@[7] == 'D',
        "ChannelData"@[8] == 'a',
        "ChannelData"@[9] == 't',
        "ChannelData"@[10] == 'a',
        "Stats"@.len() == 5,
        "Stats"@[0] == 'S',
        "Stats"@[1] == 't',
        "Stats"@[2] == 'a',
        "Stats"@[3] == 't',
        "Stats"@[4] == 's',
        "FormulaResult"@.len() == 13,
        "FormulaResult"@[0] == 'F',
        "FormulaResult"@[1] == 'o',
        "FormulaResult"@[2] == 'r',
        "FormulaResult"@[3] == 'm',
        "FormulaResult"@[4] == 'u',
        "FormulaResult"@[5] == 'l',
        "FormulaResult"@[6] == 'a',
        "FormulaResult"@[7] == 'R',
        "FormulaResult"@[8] == 'e',
        "FormulaResult"@[9] == 's',
        "FormulaResult"@[10] == 'u',
        "FormulaResult"@[11] == 'l',
        "FormulaResult"@[12] == 't',
        "CursorValues"@.len() == 12,
        "CursorValues"@[0] == 'C',
        "CursorValues"@[1] == 'u',
        "CursorValues"@[2] == 'r',
        "CursorValues"@[3] == 's',
        "CursorValues"@[4] == 'o',
        "CursorValues"@[5] == 'r',
        "CursorValues"@[6] == 'V',
        "CursorValues"@[7] == 'a',
        "CursorValues"@[8] == 'l',
        "CursorValues"@[9] == 'u',
        "CursorValues"@[10] == 'e',
        "CursorValues"@[11] == 's',
        "ComputedChannels"@.len() == 16,
        "ComputedChannels"@[0] == 'C',
        "ComputedChannels"@[1] == 'o',
        "ComputedChannels"@[2] == 'm',
        "ComputedChannels"@[3] == 'p',
        "ComputedChannels"@[4] == 'u',
        "ComputedChannels"@[5] == 't',
        "ComputedChannels"@[6] == 'e',
        "ComputedChannels"@[7] == 'd',
        "ComputedChannels"@[8] == 'C',
        "ComputedChannels"@[9] == 'h',
        "ComputedChannels"@[10] == 'a',
        "ComputedChannels"@[11] == 'n',
        "ComputedChannels"@[12] == 'n',
        "ComputedChannels"@[13] == 'e',
        "ComputedChannels"@[14] == 'l',
        "ComputedChannels"@[15] == 's',
        "Peaks"@.len() == 5,
        "Peaks"@[0] == 'P',
        "Peaks"@[1] == 'e',
        "Peaks"@[2] == 'a',
        "Peaks"@[3] == 'k',
        "Peaks"@[4] == 's',
        "Correlation"@.len() == 11,
        "Correlation"@[0] == 'C',
        "Correlation"@[1] == 'o',
        "Correlation"@[2] == 'r',
        "Correlation"@[3] == 'r',
        "Correlation"@[4] == 'e',
        "Correlation"@[5] == 'l',
        "Correlation"@[6] == 'a',
        "Correlation"@[7] == 't',
        "Correlation"@[8] == 'i',
        "Correlation"@[9] == 'o',
        "Correlation"@[10] == 'n',
        "times"@.len() == 5,
        "times"@[0] == 't',
        "times"@[1] == 'i',
        "times"@[2] == 'm',
        "times"@[3] == 'e',
        "times"@[4] == 's',
        "values"@.len() == 6,
        "values"@[0] == 'v',
        "values"@[1] == 'a',
        "values"@[2] == 'l',
        "values"@[3] == 'u',
        "values"@[4] == 'e',
        "values"@[5] == 's',
        "stats"@.len() == 5,
        "stats"@[0] == 's',
        "stats"@[1] == 't',
        "stats"@[2] == 'a',
        "stats"@[3] == 't',
        "stats"@[4] == 's',
        "coefficient"@.len() == 11,
        "coefficient"@[0] == 'c',
        "coefficient"@[1] == 'o',
        "coefficient"@[2] == 'e',
        "coefficient"@[3] == 'f',
        "coefficient"@[4] == 'f',
        "coefficient"@[5] == 'i',
        "coefficient"@[6] == 'c',
        "coefficient"@[7] == 'i',
        "coefficient"@[8] == 'e',
        "coefficient"@[9] == 'n',
        "coefficient"@[10] == 't',
        "interpretation"@.len() == 14,
        "interpretation"@[0] == 'i',
        "interpretation"@[1] == 'n',
        "interpretation"@[2] == 't',
        "interpretation"@[3] == 'e',
        "interpretation"@[4] == 'r',
        "interpretation"@[5] == 'p',
        "interpretation"@[6] == 'r',
        "interpretation"@[7] == 'e',
        "interpretation"@[8] == 't',
        "interpretation"@[9] == 'a',
        "interpretation"@[10] == 't',
        "interpretation"@[11] == 'i',
        "interpretation"@[12] == 'o',
        "interpretation"@[13] == 'n',
        "active_file"@.len() == 11,
        "active_file"@[0] == 'a',
        "active_file"@[1] == 'c',
        "active_file"@[2] == 't',
        "active_file"@[3] == 'i',
        "active_file"@[4] == 'v',
        "active_file"@[5] == 'e',
        "active_file"@[6] == '_',
        "active_file"@[7] == 'f',
        "active_file"@[8] == 'i',
        "active_file"@[9] == 'l',
        "active_file"@[10] == 'e',
        "channel_count"@.len() == 13,
        "channel_count"@[0] == 'c',
        "channel_count"@[1] == 'h',
        "channel_count"@[2] == 'a',
        "channel_count"@[3] == 'n',
        "channel_count"@[4] == 'n',
        "channel_count"@[5] == 'e',
        "channel_count"@[6] == 'l',
        "channel_count"@[7] == '_',
        "channel_count"@[8] == 'c',
        "channel_count"@[9] == 'o',
        "channel_count"@[10] == 'u',
        "channel_count"@[11] == 'n',
        "channel_count"@[12] == 't',
        "channel_name"@.len() == 12,
        "channel_name"@[0] == 'c',
        "channel_name"@[1] == 'h',
        "channel_name"@[2] == 'a',
        "channel_name"@[3] == 'n',
        "channel_name"@[4] == 'n',
        "channel_name"@[5] == 'e',
        "channel_name"@[6] == 'l',
        "channel_name"@[7] == '_',
        "channel_name"@[8] == 'n',
        "channel_name"@[9] == 'a',
        "channel_name"@[10] == 'm',
        "channel_name"@[11] == 'e',
        "channel_type"@.len() == 12,
        "channel_type"@[0] == 'c',
        "channel_type"@[1] == 'h',
        "channel_type"@[2] == 'a',
        "channel_type"@[3] == 'n',
        "channel_type"@[4] == 'n',
        "channel_type"@[5] == 'e',
        "channel_type"@[6] == 'l',
        "channel_type"@[7] == '_',
        "channel_type"@[8] == 't',
        "channel_type"@[9] == 'y',
        "channel_type"@[10] == 'p',
        "channel_type"@[11] == 'e',
        "color"@.len() == 5,
        "color"@[0] == 'c',
        "color"@[1] == 'o',
        "color"@[2] == 'l',
        "color"@[3] == 'o',
        "color"@[4] == 'r',
        "count"@.len() == 5,
        "count"@[0] == 'c',
        "count"@[1] == 'o',
        "count"@[2] == 'u',
        "count"@[3] == 'n',
        "count"@[4] == 't',
        "cursor_time"@.len() == 11,
        "cursor_time"@[0] == 'c',
        "cursor_time"@[1] == 'u',
        "cursor_time"@[2] == 'r',
        "cursor_time"@[3] == 's',
        "cursor_time"@[4] == 'o',
        "cursor_time"@[5] == 'r',
        "cursor_time"@[6] == '_',
        "cursor_time"@[7] == 't',
        "cursor_time"@[8] == 'i',
        "cursor_time"@[9] == 'm',
        "cursor_time"@[10] == 'e',
        "description"@.len() == 11,
        "description"@[0] == 'd',
        "description"@[1] == 'e',
        "description"@[2] == 's',
        "description"@[3] == 'c',
        "description"@[4] == 'r',
        "description"@[5] == 'i',
        "description"@[6] == 'p',
        "description"@[7] == 't',
        "description"@[8] == 'i',
        "description"@[9] == 'o',
        "description"@[10] == 'n',
        "duration"@.len() == 8,
        "duration"@[0] == 'd',
        "duration"@[1] == 'u',
        "duration"@[2] == 'r',
        "duration"@[3] == 'a',
        "duration"@[4] == 't',
        "duration"@[5] == 'i',
        "duration"@[6] == 'o',
        "duration"@[7] == 'n',
        "ecu_type"@.len() == 8,
        "ecu_type"@[0] == 'e',
        "ecu_type"@[1] == 'c',
        "ecu_type"@[2] == 'u',
        "ecu_type"@[3] == '_',
        "ecu_type"@[4] == 't',
        "ecu_type"@[5] == 'y',
        "ecu_type"@[6] == 'p',
        "ecu_type"@[7] == 'e',
        "file_id"@.len() == 7,
        "file_id"@[0] == 'f',
        "file_id"@[1] == 'i',
        "file_id"@[2] == 'l',
        "file_id"@[3] == 'e',
        "file_id"@[4] == '_',
        "file_id"@[5] == 'i',
        "file_id"@[6] == 'd',
        "files"@.len() == 5,
        "files"@[0] == 'f',
        "files"@[1] == 'i',
        "files"@[2] == 'l',
        "files"@[3] == 'e',
        "files"@[4] == 's',
        "formula"@.len() == 7,
        "formula"@[0] == 'f',
        "formula"@[1] == 'o',
        "formula"@[2] == 'r',
        "formula"@[3] == 'm',
        "formula"@[4] == 'u',
        "formula"@[5] == 'l',
        "formula"@[6] == 'a',
        "id"@.len() == 2,
        "id"@[0] == 'i',
        "id"@[1] == 'd',
        "is_computed"@.len() == 11,
        "is_computed"@[0] == 'i',
        "is_computed"@[1] == 's',
        "is_computed"@[2] == '_',
        "is_computed"@[3] == 'c',
        "is_computed"@[4] == 'o',
        "is_computed"@[5] == 'm',
        "is_computed"@[6] == 'p',
        "is_computed"@[7] == 'u',
        "is_computed"@[8] == 't',
        "is_computed"@[9] == 'e',
        "is_computed"@[10] == 'd',
        "is_playing"@.len() == 10,
        "is_playing"@[0] == 'i',
        "is_playing"@[1] == 's',
        "is_playing"@[2] == '_',
        "is_playing"@[3] == 'p',
        "is_playing"@[4] == 'l',
        "is_playing"@[5] == 'a',
        "is_playing"@[6] == 'y',
        "is_playing"@[7] == 'i',
        "is_playing"@[8] == 'n',
        "is_playing"@[9] == 'g',
        "max"@.len() == 3,
        "max"@[0] == 'm',
        "max"@[1] == 'a',
        "max"@[2] == 'x',
        "max_time"@.len() == 8,
        "max_time"@[0] == 'm',
        "max_time"@[1] == 'a',
        "max_time"@[2] == 'x',
        "max_time"@[3] == '_',
        "max_time"@[4] == 't',
        "max_time"@[5] == 'i',
        "max_time"@[6] == 'm',
        "max_time"@[7] == 'e',
        "max_value"@.len() == 9,
        "max_value"@[0] == 'm',
        "max_value"@[1] == 'a',
        "max_value"@[2] == 'x',
        "max_value"@[3] == '_',
        "max_value"@[4] == 'v',
        "max_value"@[5] == 'a',
        "max_value"@[6] == 'l',
        "max_value"@[7] == 'u',
        "max_value"@[8] == 'e',
        "mean"@.len() == 4,
        "mean"@[0] == 'm',
        "mean"@[1] == 'e',
        "mean"@[2] == 'a',
        "mean"@[3] == 'n',
        "median"@.len() == 6,
        "median"@[0] == 'm',
        "median"@[1] == 'e',
        "median"@[2] == 'd',
        "median"@[3] == 'i',
        "median"@[4] == 'a',
        "median"@[5] == 'n',
        "min"@.len() == 3,
        "min"@[0] == 'm',
        "min"@[1] == 'i',
        "min"@[2] == 'n',
        "min_time"@.len() == 8,
        "min_time"@[0] == 'm',
        "min_time"@[1] == 'i',
        "min_time"@[2] == 'n',
        "min_time"@[3] == '_',
        "min_time"@[4] == 't',
        "min_time"@[5] == 'i',
        "min_time"@[6] == 'm',
        "min_time"@[7] == 'e',
        "min_value"@.len() == 9,
        "min_value"@[0] == 'm',
        "min_value"@[1] == 'i',
        "min_value"@[2] == 'n',
        "min_value"@[3] == '_',
        "min_value"@[4] == 'v',
        "min_value"@[5] == 'a',
        "min_value"@[6] == 'l',
        "min_value"@[7] == 'u',
        "min_value"@[8] == 'e',
        "name"@.len() == 4,
        "name"@[0] == 'n',
        "name"@[1] == 'a',
        "name"@[2] == 'm',
        "name"@[3] == 'e',
        "path"@.len() == 4,
        "path"@[0] == 'p',
        "path"@[1] == 'a',
        "path"@[2] == 't',
        "path"@[3] == 'h',
        "prominence"@.len() == 10,
        "prominence"@[0] == 'p',
        "prominence"@[1] == 'r',
        "prominence"@[2] == 'o',
        "prominence"@[3] == 'm',
        "prominence"@[4] == 'i',
        "prominence"@[5] == 'n',
        "prominence"@[6] == 'e',
        "prominence"@[7] == 'n',
        "prominence"@[8] == 'c',
        "prominence"@[9] == 'e',
        "record_count"@.len() == 12,
        "record_count"@[0] == 'r',
        "record_count"@[1] == 'e',
        "record_count"@[2] == 'c',
        "record_count"@[3] == 'o',
        "record_count"@[4] == 'r',
        "record_count"@[5] == 'd',
        "record_count"@[6] == '_',
        "record_count"@[7] == 'c',
        "record_count"@[8] == 'o',
        "record_count"@[9] == 'u',
        "record_count"@[10] == 'n',
        "record_count"@[11] == 't',
        "sample_rate"@.len() == 11,
        "sample_rate"@[0] == 's',
        "sample_rate"@[1] == 'a',
        "sample_rate"@[2] == 'm',
        "sample_rate"@[3] == 'p',
        "sample_rate"@[4] == 'l',
        "sample_rate"@[5] == 'e',
        "sample_rate"@[6] == '_',
        "sample_rate"@[7] == 'r',
        "sample_rate"@[8] == 'a',
        "sample_rate"@[9] == 't',
        "sample_rate"@[10] == 'e',
        "selected_channels"@.len() == 17,
        "selected_channels"@[0] == 's',
        "selected_channels"@[1] == 'e',
        "selected_channels"@[2] == 'l',
        "selected_channels"@[3] == 'e',
        "selected_channels"@[4] == 'c',
        "selected_channels"@[5] == 't',
        "selected_channels"@[6] == 'e',
        "selected_channels"@[7] == 'd',
        "selected_channels"@[8] == '_',
        "selected_channels"@[9] == 'c',
        "selected_channels"@[10] == 'h',
        "selected_channels"@[11] == 'a',
        "selected_channels"@[12] == 'n',
        "selected_channels"@[13] == 'n',
        "selected_channels"@[14] == 'e',
        "selected_channels"@[15] == 'l',
        "selected_channels"@[16] == 's',
        "std_dev"@.len() == 7,
        "std_dev"@[0] == 's',
        "std_dev"@[1] == 't',
        "std_dev"@[2] == 'd',
        "std_dev"@[3] == '_',
        "std_dev"@[4] == 'd',
        "std_dev"@[5] == 'e',
        "std_dev"@[6] == 'v',
        "time"@.len() == 4,
        "time"@[0] == 't',
        "time"@[1] == 'i',
        "time"@[2] == 'm',
        "time"@[3] == 'e',
        "unit"@.len() == 4,
        "unit"@[0] == 'u',
        "unit"@[1] == 'n',
        "unit"@[2] == 'i',
        "unit"@[3] == 't',
        "view_mode"@.len() == 9,
        "view_mode"@[0] == 'v',
        "view_mode"@[1] == 'i',
        "view_mode"@[2] == 'e',
        "view_mode"@[3] == 'w',
        "view_mode"@[4] == '_',
        "view_mode"@[5] == 'm',
        "view_mode"@[6] == 'o',
        "view_mode"@[7] == 'd',
        "view_mode"@[8] == 'e',
        "visible_time_range"@.len() == 18,
        "visible_time_range"@[0] == 'v',
        "visible_time_range"@[1] == 'i',
        "visible_time_range"@[2] == 's',
        "visible_time_range"@[3] == 'i',
        "visible_time_range"@[4] == 'b',
        "visible_time_range"@[5] == 'l',
        "visible_time_range"@[6] == 'e',
        "visible_time_range"@[7] == '_',
        "visible_time_range"@[8] == 't',
        "visible_time_range"@[9] == 'i',
        "visible_time_range"@[10] == 'm',
        "visible_time_range"@[11] == 'e',
        "visible_time_range"@[12] == '_',
        "visible_time_range"@[13] == 'r',
        "visible_time_range"@[14] == 'a',
        "visible_time_range"@[15] == 'n',
        "visible_time_range"@[16] == 'g',
        "visible_time_range"@[17] == 'e',
{
    reveal_strlit("status");
    reveal_strlit("data");
    reveal_strlit("type");
    reveal_strlit("value");
    reveal_strlit("message");
    reveal_strlit("Ok");
    reveal_strlit("Error");
    reveal_strlit("Ack");
    reveal_strlit("Pong");
    reveal_strlit("State");
    reveal_strlit("FileLoaded");
    reveal_strlit("Channels");
    reveal_strlit("ChannelData");
    reveal_strlit("Stats");
    reveal_strlit("FormulaResult");
    reveal_strlit("CursorValues");
    reveal_strlit("ComputedChannels");
    reveal_strlit("Peaks");
    reveal_strlit("Correlation");
    reveal_strlit("times");
    reveal_strlit("values");
    reveal_strlit("stats");
    reveal_strlit("coefficient");
    reveal_strlit("interpretation");
    reveal_strlit("active_file");
    reveal_strlit("channel_count");
    reveal_strlit("channel_name");
    reveal_strlit("channel_type");
    reveal_strlit("color");
    reveal_strlit("count");
    reveal_strlit("cursor_time");
    reveal_strlit("description");
    reveal_strlit("duration");
    reveal_strlit("ecu_type");
    reveal_strlit("file_id");
    reveal_strlit("files");
    reveal_strlit("formula");
    reveal_strlit("id");
    reveal_strlit("is_computed");
    reveal_strlit("is_playing");
    reveal_strlit("max");
    reveal_strlit("max_time");
    reveal_strlit("max_value");
    reveal_strlit("mean");
    reveal_strlit("median");
    reveal_strlit("min");
    reveal_strlit("min_time");
    reveal_strlit("min_value");
    reveal_strlit("name");
    reveal_strlit("path");
    reveal_strlit("prominence");
    reveal_strlit("record_count");
    reveal_strlit("sample_rate");
    reveal_strlit("selected_channels");
    reveal_strlit("std_dev");
    reveal_strlit("time");
    reveal_strlit("unit");
    reveal_strlit("view_mode");
    reveal_strlit("visible_time_range");
}


/// The payload of a successful response.
#[derive(Debug)]
pub enum ResponseData {
    /// A bare acknowledgment.
    Ack,
    /// The answer to a ping.
    Pong,
    State(AppState),
    FileLoaded(FileInfo),
    Channels(Vec<ChannelInfo>),
    /// A channel's samples: `values[i]` was recorded at `times[i]`.
    ChannelData { times: Vec<Number>, values: Vec<Number> },
    Stats(ChannelStats),
    /// The samples of an evaluated formula, with their statistics.
    FormulaResult { times: Vec<Number>, values: Vec<Number>, stats: ChannelStats },
    CursorValues(Vec<CursorValue>),
    ComputedChannels(Vec<ComputedChannelInfo>),
    Peaks(Vec<Peak>),
    /// A correlation coefficient and its reading in words.
    Correlation { coefficient: Number, interpretation: String },
}

/// The mathematical value of a `ResponseData`.
pub enum ResponseDataModel {
    Ack,
    Pong,
    State(AppStateModel),
    FileLoaded(FileInfoModel),
    Channels(Seq<ChannelInfoModel>),
    ChannelData { times: Seq<Number>, values: Seq<Number> },
    Stats(ChannelStats),
    FormulaResult { times: Seq<Number>, values: Seq<Number>, stats: ChannelStats },
    CursorValues(Seq<CursorValueModel>),
    ComputedChannels(Seq<ComputedChannelInfoModel>),
    Peaks(Seq<Peak>),
    Correlation { coefficient: Number, interpretation: Seq<char> },
}

impl View for ResponseData {
    type V = ResponseDataModel;

    open spec fn view(&self) -> ResponseDataModel {
        match self {
            ResponseData::Ack => ResponseDataModel::Ack,
            ResponseData::Pong => ResponseDataModel::Pong,
            ResponseData::State(s) => ResponseDataModel::State(s@),
            ResponseData::FileLoaded(f) => ResponseDataModel::FileLoaded(f@),
            ResponseData::Channels(cs) => ResponseDataModel::Channels(cs@.map_values(|x: ChannelInfo| x@)),
            ResponseData::ChannelData { times, values } =>
                ResponseDataModel::ChannelData { times: times@, values: values@ },
            ResponseData::Stats(s) => ResponseDataModel::Stats(*s),
            ResponseData::FormulaResult { times, values, stats } =>
                ResponseDataModel::FormulaResult { times: times@, values: values@, stats: *stats },
            ResponseData::CursorValues(vs) => ResponseDataModel::CursorValues(vs@.map_values(|x: CursorValue| x@)),
            ResponseData::ComputedChannels(cs) =>
                ResponseDataModel::ComputedChannels(cs@.map_values(|x: ComputedChannelInfo| x@)),
            ResponseData::Peaks(ps) => ResponseDataModel::Peaks(ps@),
            ResponseData::Correlation { coefficient, interpretation } =>
                ResponseDataModel::Correlation { coefficient: *coefficient, interpretation: interpretation@ },
        }
    }
}

/// The single reply to a command.
#[derive(Debug)]
pub enum IpcResponse {
    Success(Option<ResponseData>),
    Error { message: String },
}

/// The mathematical value of an `IpcResponse`.
pub enum ResponseModel {
    Success(Option<ResponseDataModel>),
    Error { message: Seq<char> },
}

impl View for IpcResponse {
    type V = ResponseModel;

    open spec fn view(&self) -> ResponseModel {
        match self {
            IpcResponse::Success(None) => ResponseModel::Success(None),
            IpcResponse::Success(Some(d)) => ResponseModel::Success(Some(d@)),
            IpcResponse::Error { message } => ResponseModel::Error { message: message@ },
        }
    }
}

/// The payload that a wire record `{"type": <name>, "value": ...}` denotes.
pub open spec fn response_data_of(j: Json) -> Option<ResponseDataModel> {
    match j {
        Json::Object(ms) => match lookup(ms@, "type"@) {
            Some(Json::Str(t)) => response_data_from(t@, lookup(ms@, "value"@)),
            _ => None,
        },
        _ => None,
    }
}

/// The payload named `tag`, read from `value`.
pub open spec fn response_data_from(tag: Seq<char>, value: Option<Json>) -> Option<ResponseDataModel> {
    if tag == "Ack"@ {
        Some(ResponseDataModel::Ack)
    } else if tag == "Pong"@ {
        Some(ResponseDataModel::Pong)
    } else {
        match value {
            None => None,
            Some(v) => if tag == "State"@ {
                match app_state_of(v) {
                    Some(s) => Some(ResponseDataModel::State(s)),
                    None => None,
                }
            } else if tag == "FileLoaded"@ {
                match file_info_of(v) {
                    Some(f) => Some(ResponseDataModel::FileLoaded(f)),
                    None => None,
                }
            } else if tag == "Channels"@ {
                match channel_info_list_of(v) {
                    Some(cs) => Some(ResponseDataModel::Channels(cs)),
                    None => None,
                }
            } else if tag == "ChannelData"@ {
                match v {
                    Json::Object(ms) => if numbers_at(ms@, "times"@) is Some && numbers_at(ms@, "values"@) is Some {
                        Some(ResponseDataModel::ChannelData {
                            times: numbers_at(ms@, "times"@).unwrap(),
                            values: numbers_at(ms@, "values"@).unwrap(),
                        })
                    } else {
                        None
                    },
                    _ => None,
                }
            } else if tag == "Stats"@ {
                match channel_stats_of(v) {
                    Some(s) => Some(ResponseDataModel::Stats(s)),
                    None => None,
                }
            } else if tag == "FormulaResult"@ {
                match v {
                    Json::Object(ms) => if numbers_at(ms@, "times"@) is Some && numbers_at(ms@, "values"@) is Some
                        && stats_at(ms@) is Some {
                        Some(ResponseDataModel::FormulaResult {
                            times: numbers_at(ms@, "times"@).unwrap(),
                            values: numbers_at(ms@, "values"@).unwrap(),
                            stats: stats_at(ms@).unwrap(),
                        })
                    } else {
                        None
                    },
                    _ => None,
                }
            } else if tag == "CursorValues"@ {
                match cursor_value_list_of(v) {
                    Some(vs) => Some(ResponseDataModel::CursorValues(vs)),
                    None => None,
                }
            } else if tag == "ComputedChannels"@ {
                match computed_channel_info_list_of(v) {
                    Some(cs) => Some(ResponseDataModel::ComputedChannels(cs)),
                    None => None,
                }
            } else if tag == "Peaks"@ {
                match peak_list_of(v) {
                    Some(ps) => Some(ResponseDataModel::Peaks(ps)),
                    None => None,
                }
            } else if tag == "Correlation"@ {
                match v {
                    Json::Object(ms) => if num_at(ms@, "coefficient"@) is Some && str_at(ms@, "interpretation"@) is Some {
                        Some(ResponseDataModel::Correlation {
                            coefficient: num_at(ms@, "coefficient"@).unwrap(),
                            interpretation: str_at(ms@, "interpretation"@).unwrap(),
                        })
                    } else {
                        None
                    },
                    _ => None,
                }
            } else {
                None
            },
        }
    }
}

/// Whether `j` is an object with exactly the members `type`, naming `tag`,
/// and `value`.
pub open spec fn tagged(j: Json, tag: Seq<char>) -> bool {
    has_members(j, seq!["type"@, "value"@]) && text_is(field(j, 0), tag)
}

/// Whether `j` is the record of payload `d`: `{"type": <name>}` for an
/// acknowledgment or a pong, `{"type": <name>, "value": <value>}` otherwise.
pub open spec fn response_data_is(j: Json, d: ResponseDataModel) -> bool {
    match d {
        ResponseDataModel::Ack => has_members(j, seq!["type"@]) && text_is(field(j, 0), "Ack"@),
        ResponseDataModel::Pong => has_members(j, seq!["type"@]) && text_is(field(j, 0), "Pong"@),
        ResponseDataModel::State(s) => tagged(j, "State"@) && app_state_is(field(j, 1), s),
        ResponseDataModel::FileLoaded(f) => tagged(j, "FileLoaded"@) && file_info_is(field(j, 1), f),
        ResponseDataModel::Channels(cs) => tagged(j, "Channels"@) && channel_info_list_is(field(j, 1), cs),
        ResponseDataModel::ChannelData { times, values } => {
            &&& tagged(j, "ChannelData"@)
            &&& has_members(field(j, 1), seq!["times"@, "values"@])
            &&& numbers_is(field(field(j, 1), 0), times)
            &&& numbers_is(field(field(j, 1), 1), values)
        },
        ResponseDataModel::Stats(s) => tagged(j, "Stats"@) && channel_stats_is(field(j, 1), s),
        ResponseDataModel::FormulaResult { times, values, stats } => {
            &&& tagged(j, "FormulaResult"@)
            &&& has_members(field(j, 1), seq!["times"@, "values"@, "stats"@])
            &&& numbers_is(field(field(j, 1), 0), times)
            &&& numbers_is(field(field(j, 1), 1), values)
            &&& channel_stats_is(field(field(j, 1), 2), stats)
        },
        ResponseDataModel::CursorValues(vs) => tagged(j, "CursorValues"@) && cursor_value_list_is(field(j, 1), vs),
        ResponseDataModel::ComputedChannels(cs) => tagged(j, "ComputedChannels"@)
            && computed_channel_info_list_is(field(j, 1), cs),
        ResponseDataModel::Peaks(ps) => tagged(j, "Peaks"@) && peak_list_is(field(j, 1), ps),
        ResponseDataModel::Correlation { coefficient, interpretation } => {
            &&& tagged(j, "Correlation"@)
            &&& has_members(field(j, 1), seq!["coefficient"@, "interpretation"@])
            &&& field(field(j, 1), 0) == Json::Num(coefficient)
            &&& text_is(field(field(j, 1), 1), interpretation)
        },
    }
}

/// Whether `j` is the record of response `r`: `{"status": "Ok", "data":
/// <payload or null>}`, or `{"status": "Error", "data": {"message": <text>}}`.
pub open spec fn response_is(j: Json, r: ResponseModel) -> bool {
    &&& has_members(j, seq!["status"@, "data"@])
    &&& match r {
        ResponseModel::Success(None) => text_is(field(j, 0), "Ok"@) && field(j, 1) is Null,
        ResponseModel::Success(Some(d)) => text_is(field(j, 0), "Ok"@) && response_data_is(field(j, 1), d),
        ResponseModel::Error { message } => {
            &&& text_is(field(j, 0), "Error"@)
            &&& has_members(field(j, 1), seq!["message"@])
            &&& text_is(field(field(j, 1), 0), message)
        },
    }
}

/// Member `stats` read as channel statistics.
pub open spec fn stats_at(ms: Seq<(String, Json)>) -> Option<ChannelStats> {
    match lookup(ms, "stats"@) {
        Some(v) => channel_stats_of(v),
        None => None,
    }
}

/// The response that a wire record denotes: status `Ok` with an absent or
/// null `data` or with a payload, or status `Error` with a `message`.
pub open spec fn response_of(j: Json) -> Option<ResponseModel> {
    match j {
        Json::Object(ms) => match lookup(ms@, "status"@) {
            Some(Json::Str(s)) => response_from(s@, lookup(ms@, "data"@)),
            _ => None,
        },
        _ => None,
    }
}

/// The response with status `status`, read from `data`.
pub open spec fn response_from(status: Seq<char>, data: Option<Json>) -> Option<ResponseModel> {
    if status == "Ok"@ {
        match data {
            None => Some(ResponseModel::Success(None)),
            Some(Json::Null) => Some(ResponseModel::Success(None)),
            Some(d) => match response_data_of(d) {
                Some(x) => Some(ResponseModel::Success(Some(x))),
                None => None,
            },
        }
    } else if status == "Error"@ {
        match data {
            Some(Json::Object(ms)) => match str_at(ms@, "message"@) {
                Some(m) => Some(ResponseModel::Error { message: m }),
                None => None,
            },
            _ => None,
        }
    } else {
        None
    }
}

/// Reads a wire record as a response payload.
pub fn decode_response_data(j: &Json) -> (r: Option<ResponseData>)
    ensures
        match r {
            Some(d) => response_data_of(*j) == Some(d@),
            None => response_data_of(*j) is None,
        },
{
    let ms = match j {
        Json::Object(ms) => ms,
        _ => return None,
    };
    let tag = match get_member(ms, "type") {
        Some(Json::Str(t)) => t.as_str(),
        _ => return None,
    };
    if str_eq(tag, "Ack") {
        return Some(ResponseData::Ack);
    } else if str_eq(tag, "Pong") {
        return Some(ResponseData::Pong);
    }
    let v = match get_member(ms, "value") {
        Some(v) => v,
        None => return None,
    };
    if str_eq(tag, "State") {
        match read_app_state(v) {
            Some(s) => Some(ResponseData::State(s)),
            None => None,
        }
    } else if str_eq(tag, "FileLoaded") {
        match read_file_info(v) {
            Some(f) => Some(ResponseData::FileLoaded(f)),
            None => None,
        }
    } else if str_eq(tag, "Channels") {
        match read_channel_info_list(v) {
            Some(cs) => Some(ResponseData::Channels(cs)),
            None => None,
        }
    } else if str_eq(tag, "ChannelData") {
        match v {
            Json::Object(p) => match (get_numbers(p, "times"), get_numbers(p, "values")) {
                (Some(times), Some(values)) => Some(ResponseData::ChannelData { times, values }),
                _ => None,
            },
            _ => None,
        }
    } else if str_eq(tag, "Stats") {
        match read_channel_stats(v) {
            Some(s) => Some(ResponseData::Stats(s)),
            None => None,
        }
    } else if str_eq(tag, "FormulaResult") {
        match v {
            Json::Object(p) => {
                let stats = match get_member(p, "stats") {
                    Some(s) => read_channel_stats(s),
                    None => None,
                };
                match (get_numbers(p, "times"), get_numbers(p, "values"), stats) {
                    (Some(times), Some(values), Some(stats)) =>
                        Some(ResponseData::FormulaResult { times, values, stats }),
                    _ => None,
                }
            },
            _ => None,
        }
    } else if str_eq(tag, "CursorValues") {
        match read_cursor_value_list(v) {
            Some(vs) => Some(ResponseData::CursorValues(vs)),
            None => None,
        }
    } else if str_eq(tag, "ComputedChannels") {
        match read_computed_channel_info_list(v) {
            Some(cs) => Some(ResponseData::ComputedChannels(cs)),
            None => None,
        }
    } else if str_eq(tag, "Peaks") {
        match read_peak_list(v) {
            Some(ps) => Some(ResponseData::Peaks(ps)),
            None => None,
        }
    } else if str_eq(tag, "Correlation") {
        match v {
            Json::Object(p) => match (get_num(p, "coefficient"), get_str(p, "interpretation")) {
                (Some(coefficient), Some(interpretation)) =>
                    Some(ResponseData::Correlation { coefficient, interpretation }),
                _ => None,
            },
            _ => None,
        }
    } else {
        None
    }
}

/// Reads a wire record as a response; `None` when the record denotes none.
pub fn decode_response(j: &Json) -> (r: Option<IpcResponse>)
    ensures
        match r {
            Some(x) => response_of(*j) == Some(x@),
            None => response_of(*j) is None,
        },
{
    let ms = match j {
        Json::Object(ms) => ms,
        _ => return None,
    };
    let status = match get_member(ms, "status") {
        Some(Json::Str(s)) => s.as_str(),
        _ => return None,
    };
    let data = get_member(ms, "data");
    if str_eq(status, "Ok") {
        match data {
            None => Some(IpcResponse::Success(None)),
            Some(Json::Null) => Some(IpcResponse::Success(None)),
            Some(d) => match decode_response_data(d) {
                Some(x) => Some(IpcResponse::Success(Some(x))),
                None => None,
            },
        }
    } else if str_eq(status, "Error") {
        match data {
            Some(Json::Object(p)) => match get_str(p, "message") {
                Some(message) => Some(IpcResponse::Error { message }),
                None => None,
            },
            _ => None,
        }
    } else {
        None
    }
}

/// Writes a response payload as a wire record that reads back as the same
/// payload.
#[verifier::rlimit(50)]
pub fn encode_response_data(d: &ResponseData) -> (j: Json)
    ensures
        response_data_of(j) == Some(d@),
        response_data_is(j, d@),
{
    proof {
        lemma_response_words();
        reveal_with_fuel(lookup, 4);
    }
    let (tag, value): (&str, Option<Json>) = match d {
        ResponseData::Ack => ("Ack", None),
        ResponseData::Pong => ("Pong", None),
        ResponseData::State(s) => ("State", Some(write_app_state(s))),
        ResponseData::FileLoaded(f) => ("FileLoaded", Some(write_file_info(f))),
        ResponseData::Channels(cs) => ("Channels", Some(write_channel_info_list(cs))),
        ResponseData::ChannelData { times, values } => (
            "ChannelData",
            Some(Json::Object(vec![member("times", write_numbers(times)), member("values", write_numbers(values))])),
        ),
        ResponseData::Stats(s) => ("Stats", Some(write_channel_stats(s))),
        ResponseData::FormulaResult { times, values, stats } => (
            "FormulaResult",
            Some(Json::Object(vec![
                member("times", write_numbers(times)),
                member("values", write_numbers(values)),
                member("stats", write_channel_stats(stats)),
            ])),
        ),
        ResponseData::CursorValues(vs) => ("CursorValues", Some(write_cursor_value_list(vs))),
        ResponseData::ComputedChannels(cs) => ("ComputedChannels", Some(write_computed_channel_info_list(cs))),
        ResponseData::Peaks(ps) => ("Peaks", Some(write_peak_list(ps))),
        ResponseData::Correlation { coefficient, interpretation } => (
            "Correlation",
            Some(Json::Object(vec![
                member("coefficient", Json::Num(*coefficient)),
                member("interpretation", string(interpretation)),
            ])),
        ),
    };
    let mut ms: Vec<(String, Json)> = vec![member("type", Json::Str(text(tag)))];
    match value {
        Some(v) => ms.push(member("value", v)),
        None => {},
    }
    Json::Object(ms)
}

/// Writes a response as a wire record that reads back as the same response.
pub fn encode_response(r: &IpcResponse) -> (j: Json)
    ensures
        response_of(j) == Some(r@),
        response_is(j, r@),
{
    proof {
        lemma_response_words();
        reveal_with_fuel(lookup, 3);
    }
    match r {
        IpcResponse::Success(None) => Json::Object(vec![member("status", Json::Str(text("Ok"))), member("data", Json::Null)]),
        IpcResponse::Success(Some(d)) => {
            let dj = encode_response_data(d);
            assert(!(dj is Null));
            Json::Object(vec![member("status", Json::Str(text("Ok"))), member("data", dj)])
        },
        IpcResponse::Error { message } => Json::Object(vec![
            member("status", Json::Str(text("Error"))),
            member("data", Json::Object(vec![member("message", string(message))])),
        ]),
    }
}

impl IpcResponse {
    /// A success that carries a bare acknowledgment.
    pub fn ok() -> (r: Self)
        ensures
            r@ == ResponseModel::Success(Some(ResponseDataModel::Ack)),
    {
        IpcResponse::Success(Some(ResponseData::Ack))
    }

    /// A success that carries `data`.
    pub fn ok_with_data(data: ResponseData) -> (r: Self)
        ensures
            r@ == ResponseModel::Success(Some(data@)),
    {
        IpcResponse::Success(Some(data))
    }

    /// A failure that carries `message`.
    pub fn error(message: &str) -> (r: Self)
        ensures
            r@ == (ResponseModel::Error { message: message@ }),
    {
        IpcResponse::Error { message: text(message) }
    }
}

} // verus!
