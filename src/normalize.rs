//! Channel-name normalization: maps the many names that engine control
//! units give one quantity to a single standard name.
use vstd::prelude::*;
use crate::json::{str_eq, text, opt_text};

verus! {

/// The lower-case form of a text, as Unicode defines it.
pub uninterp spec fn lower_of(s: Seq<char>) -> Seq<char>;

/// Relies on `str::to_lowercase`: the lower-case form of a text, which
/// depends on its characters alone.
#[verifier::external_body]
fn lowercase(s: &str) -> (r: String)
    ensures
        r@ == lower_of(s@),
{
    s.to_lowercase()
}

/// The built-in mappings: each standard name with the source names that
/// stand for it. A source name matches whatever its case.
pub open spec fn builtin_table() -> Seq<(Seq<char>, Seq<Seq<char>>)> {
    seq![
        ("AFR"@, seq!["Act_AFR"@, "R_EGO"@, "Aft"@, "Act AFR"@, "AFR"@, "AFR1"@, "WB2 AFR 1"@, "Air Fuel Ratio"@, "AFR_R_BANK"@]),
        ("AFR Target"@, seq!["AFR Targ"@, "Target AFR"@, "afrtgt"@, "R_AFR_TARGET"@, "AFR_Target"@]),
        ("AFR 1"@, seq!["AFR_1"@, "AFR 1"@]),
        ("AFR 1 Error"@, seq!["AFR_Error"@, "AFR_1_Error"@, "AFR 1 Error"@, "KO2_AFR_CORR"@, "AFR_1_Error"@]),
        ("AFR 2"@, seq!["Aft2"@, "AFR 2"@, "AFR_2"@, "afr_2"@]),
        ("Battery V"@, seq!["VBat"@, "Vbat"@, "Bat V"@, "Batt"@, "Volts"@, "Voltage"@, "Bat Volts ECU"@, "Battery Voltage"@, "ECU Battery Voltage"@, "Ecu power"@, "BATTERY_VOLTAGE"@, "Bat_V"@]),
        ("Coolant"@, seq!["Coolant"@, "CLT"@, "Temp_Coolant"@, "Temp Engine"@, "Engine Temperature"@, "Coolant Temperature"@, "CoolantTemp"@, "coolantTemp"@]),
        ("Duty Cycle"@, seq!["DutyCycle1"@, "DutyCycle"@, "Duty Cycle"@, "PCS Fuel Duty Cyl 1"@, "DUTY CYCLE AVE"@, "Duty_Cycle"@]),
        ("EGO Cor 1"@, seq!["EGO Correction"@, "ID2 Cor"@, "EGO_Cor_1"@, "EGO Cor 1"@]),
        ("EGO Cor 2"@, seq!["L_O2_Cor"@, "ID2_Cor"@, "O2_COR_L_BANK"@, "EGO_cor_2"@, "EGO Cor 2"@]),
        ("IAT"@, seq!["IAT"@, "iat"@, "IAT - Inlet Air Temp"@, "IAT Intake Air Temp"@, "Intake Air Temp"@]),
        ("Lambda 1"@, seq!["Lambda Right"@, "LambdaR"@, "lambdaR"@, "Lambda 1"@, "Exhaust Lambda"@, "LAMBDA"@, "LAM8"@, "LAMBDA_R_BANK"@, "Lambda1"@]),
        ("MAF"@, seq!["Mass Air Flow"@, "Mass Air Flow Rate"@, "MAF"@, "maf"@]),
        ("MAP"@, seq!["MAP"@, "Map"@, "map"@, "Manifold Pressure"@, "Inlet Manifold Pressure"@]),
        ("MAT"@, seq!["Air Temp Int"@, "Inlet Manifold Temperature"@, "TAIR"@, "MAT"@, "mat"@]),
        ("O2"@, seq!["O2"@, "O2 Sensor"@, "o2"@]),
        ("Pulse Width"@, seq!["pulsewidth1"@, "Injector PW Rear"@, "injector"@, "Fuel Actual PW"@, "PW1"@, "NJ_GPW_AVE"@, "PW"@, "pw"@]),
        ("RPM"@, seq!["RPM"@, "rpm"@, "Speed"@, "PCS RPM4"@, "Engine RPM4"@, "RPM_INC_RPM"@, "engine/rpm"@]),
        ("TPS"@, seq!["TPS_Pct"@, "Tps"@, "Throttle Pos"@, "TP"@, "Throttle Position"@, "PedalPos"@, "PCS TPS"@, "TPS"@, "tps"@, "tps1"@]),
        ("Time"@, seq!["Time_s"@, "Device Time"@, "Timestamp"@, "TIME"@, "Time"@, "Offset"@, "time"@]),
        ("Ignition Adv"@, seq!["Ignition Advance"@, "Timing"@, "Spark Advance"@, "IgnAdv"@, "ignition/angle"@]),
        ("Knock"@, seq!["Knock"@, "Knock Retard"@, "KnockRetard"@, "Knock Count"@]),
        ("Boost"@, seq!["Boost"@, "Boost Pressure"@, "BoostPressure"@, "boost"@]),
        ("Oil Pressure"@, seq!["Oil Pressure"@, "OilPressure"@, "Oil Press"@, "oilPressure"@]),
        ("Oil Temp"@, seq!["Oil Temp"@, "OilTemp"@, "Oil Temperature"@, "oilTemp"@]),
        ("Fuel Pressure"@, seq!["Fuel Pressure"@, "FuelPressure"@, "Fuel Press"@, "fuelPressure"@]),
        ("EGT"@, seq!["EGT"@, "Exhaust Gas Temp"@, "Exhaust Temperature"@, "egt"@]),
        ("Vehicle Speed"@, seq!["Vehicle Speed"@, "VSS"@, "Speed"@, "vss"@, "vehicleSpeed"@]),
        ("Gear"@, seq!["Gear"@, "Current Gear"@, "GearPosition"@, "gear"@]),    ]
}

/// The mathematical value of a table of mappings.
pub open spec fn table_model(t: Seq<(&str, Vec<&str>)>) -> Seq<(Seq<char>, Seq<Seq<char>>)> {
    t.map_values(|e: (&str, Vec<&str>)| (e.0@, e.1@.map_values(|s: &str| s@)))
}

/// All built-in mappings, as pairs of a standard name and its source names.
pub fn get_builtin_mappings() -> (r: Vec<(&'static str, Vec<&'static str>)>)
    ensures
        table_model(r@) == builtin_table(),
{
    let r = vec![
        ("AFR", vec!["Act_AFR", "R_EGO", "Aft", "Act AFR", "AFR", "AFR1", "WB2 AFR 1", "Air Fuel Ratio", "AFR_R_BANK"]),
        ("AFR Target", vec!["AFR Targ", "Target AFR", "afrtgt", "R_AFR_TARGET", "AFR_Target"]),
        ("AFR 1", vec!["AFR_1", "AFR 1"]),
        ("AFR 1 Error", vec!["AFR_Error", "AFR_1_Error", "AFR 1 Error", "KO2_AFR_CORR", "AFR_1_Error"]),
        ("AFR 2", vec!["Aft2", "AFR 2", "AFR_2", "afr_2"]),
        ("Battery V", vec!["VBat", "Vbat", "Bat V", "Batt", "Volts", "Voltage", "Bat Volts ECU", "Battery Voltage", "ECU Battery Voltage", "Ecu power", "BATTERY_VOLTAGE", "Bat_V"]),
        ("Coolant", vec!["Coolant", "CLT", "Temp_Coolant", "Temp Engine", "Engine Temperature", "Coolant Temperature", "CoolantTemp", "coolantTemp"]),
        ("Duty Cycle", vec!["DutyCycle1", "DutyCycle", "Duty Cycle", "PCS Fuel Duty Cyl 1", "DUTY CYCLE AVE", "Duty_Cycle"]),
        ("EGO Cor 1", vec!["EGO Correction", "ID2 Cor", "EGO_Cor_1", "EGO Cor 1"]),
        ("EGO Cor 2", vec!["L_O2_Cor", "ID2_Cor", "O2_COR_L_BANK", "EGO_cor_2", "EGO Cor 2"]),
        ("IAT", vec!["IAT", "iat", "IAT - Inlet Air Temp", "IAT Intake Air Temp", "Intake Air Temp"]),
        ("Lambda 1", vec!["Lambda Right", "LambdaR", "lambdaR", "Lambda 1", "Exhaust Lambda", "LAMBDA", "LAM8", "LAMBDA_R_BANK", "Lambda1"]),
        ("MAF", vec!["Mass Air Flow", "Mass Air Flow Rate", "MAF", "maf"]),
        ("MAP", vec!["MAP", "Map", "map", "Manifold Pressure", "Inlet Manifold Pressure"]),
        ("MAT", vec!["Air Temp Int", "Inlet Manifold Temperature", "TAIR", "MAT", "mat"]),
        ("O2", vec!["O2", "O2 Sensor", "o2"]),
        ("Pulse Width", vec!["pulsewidth1", "Injector PW Rear", "injector", "Fuel Actual PW", "PW1", "NJ_GPW_AVE", "PW", "pw"]),
        ("RPM", vec!["RPM", "rpm", "Speed", "PCS RPM4", "Engine RPM4", "RPM_INC_RPM", "engine/rpm"]),
        ("TPS", vec!["TPS_Pct", "Tps", "Throttle Pos", "TP", "Throttle Position", "PedalPos", "PCS TPS", "TPS", "tps", "tps1"]),
        ("Time", vec!["Time_s", "Device Time", "Timestamp", "TIME", "Time", "Offset", "time"]),
        ("Ignition Adv", vec!["Ignition Advance", "Timing", "Spark Advance", "IgnAdv", "ignition/angle"]),
        ("Knock", vec!["Knock", "Knock Retard", "KnockRetard", "Knock Count"]),
        ("Boost", vec!["Boost", "Boost Pressure", "BoostPressure", "boost"]),
        ("Oil Pressure", vec!["Oil Pressure", "OilPressure", "Oil Press", "oilPressure"]),
        ("Oil Temp", vec!["Oil Temp", "OilTemp", "Oil Temperature", "oilTemp"]),
        ("Fuel Pressure", vec!["Fuel Pressure", "FuelPressure", "Fuel Press", "fuelPressure"]),
        ("EGT", vec!["EGT", "Exhaust Gas Temp", "Exhaust Temperature", "egt"]),
        ("Vehicle Speed", vec!["Vehicle Speed", "VSS", "Speed", "vss", "vehicleSpeed"]),
        ("Gear", vec!["Gear", "Current Gear", "GearPosition", "gear"]),    ];
    assert(table_model(r@) =~~= builtin_table());
    r
}


/// Whether one of `sources` has the lower-case form `key`.
pub open spec fn group_has(sources: Seq<Seq<char>>, key: Seq<char>) -> bool {
    exists|j: int| 0 <= j < sources.len() && lower_of(#[trigger] sources[j]) == key
}

/// The standard name of the first entry of `t` with a source whose
/// lower-case form is `key`.
pub open spec fn table_lookup(t: Seq<(Seq<char>, Seq<Seq<char>>)>, key: Seq<char>) -> Option<Seq<char>>
    decreases t.len(),
{
    if t.len() == 0 {
        None
    } else if group_has(t[0].1, key) {
        Some(t[0].0)
    } else {
        table_lookup(t.drop_first(), key)
    }
}

/// The normalized form of the first custom pair whose source is `key`.
pub open spec fn custom_lookup(m: Seq<(String, String)>, key: Seq<char>) -> Option<Seq<char>>
    decreases m.len(),
{
    if m.len() == 0 {
        None
    } else if m[0].0@ == key {
        Some(m[0].1@)
    } else {
        custom_lookup(m.drop_first(), key)
    }
}

/// Where the part of `s` after its last `/` before position `i` starts.
pub open spec fn segment_start(s: Seq<char>, i: int) -> int
    decreases i,
{
    if i <= 0 {
        0
    } else if s[i - 1] == '/' {
        i
    } else {
        segment_start(s, i - 1)
    }
}

/// The part of `s` after its last `/`; all of `s` when it has none.
pub open spec fn last_segment(s: Seq<char>) -> Seq<char> {
    s.subrange(segment_start(s, s.len() as int), s.len() as int)
}

/// The custom pairs, when there are any.
pub open spec fn custom_model(custom: Option<&Vec<(String, String)>>) -> Option<Seq<(String, String)>> {
    match custom {
        Some(m) => Some(m@),
        None => None,
    }
}

/// The custom mapping for `key`, if there are custom pairs and one matches.
pub open spec fn custom_hit(custom: Option<Seq<(String, String)>>, key: Seq<char>) -> Option<Seq<char>> {
    match custom {
        Some(m) => custom_lookup(m, key),
        None => None,
    }
}

/// The normalized form of `name`, given its lower-case form and that of its
/// last path segment. Custom pairs come first: by the lower-case name, by the
/// name as given, then by the lower-case last segment. The built-in
/// mappings follow: by the lower-case name, then by the lower-case last
/// segment. A name that nothing maps stays as it is.
pub open spec fn normalized_from(
    name: Seq<char>,
    name_lower: Seq<char>,
    segment_lower: Seq<char>,
    custom: Option<Seq<(String, String)>>,
) -> Seq<char> {
    if custom_hit(custom, name_lower) is Some {
        custom_hit(custom, name_lower).unwrap()
    } else if custom_hit(custom, name) is Some {
        custom_hit(custom, name).unwrap()
    } else if custom_hit(custom, segment_lower) is Some {
        custom_hit(custom, segment_lower).unwrap()
    } else if table_lookup(builtin_table(), name_lower) is Some {
        table_lookup(builtin_table(), name_lower).unwrap()
    } else if table_lookup(builtin_table(), segment_lower) is Some {
        table_lookup(builtin_table(), segment_lower).unwrap()
    } else {
        name
    }
}

/// The normalized form of `name`.
pub open spec fn normalized(name: Seq<char>, custom: Option<Seq<(String, String)>>) -> Seq<char> {
    normalized_from(name, lower_of(name), lower_of(last_segment(name)), custom)
}

/// The standard name that `table` gives the lower-case name `key`.
pub fn lookup_table(table: &Vec<(&'static str, Vec<&'static str>)>, key: &str) -> (r: Option<&'static str>)
    ensures
        match r {
            Some(n) => table_lookup(table_model(table@), key@) == Some(n@),
            None => table_lookup(table_model(table@), key@) is None,
        },
{
    let ghost t = table_model(table@);
    let mut i: usize = 0;
    proof {
        assert(t.subrange(0, t.len() as int) =~= t);
    }
    while i < table.len()
        invariant
            t == table_model(table@),
            i <= table@.len(),
            table_lookup(t, key@) == table_lookup(t.subrange(i as int, t.len() as int), key@),
        decreases table.len() - i,
    {
        let sources = &table[i].1;
        let mut j: usize = 0;
        while j < sources.len()
            invariant
                t == table_model(table@),
                i < table@.len(),
                *sources == table@[i as int].1,
                table_lookup(t, key@) == table_lookup(t.subrange(i as int, t.len() as int), key@),
                j <= sources@.len(),
                forall|k: int| 0 <= k < j ==> lower_of(#[trigger] t[i as int].1[k]) != key@,
            decreases sources.len() - j,
        {
            let low = lowercase(sources[j]);
            if str_eq(low.as_str(), key) {
                proof {
                    let rest = t.subrange(i as int, t.len() as int);
                    assert(rest[0] == t[i as int]);
                    assert(t[i as int].1[j as int] == sources@[j as int]@);
                    assert(group_has(rest[0].1, key@));
                    assert(table_lookup(rest, key@) == Some(rest[0].0));
                    assert(rest[0].0 == table@[i as int].0@);
                }
                return Some(table[i].0);
            }
            proof {
                assert(t[i as int].1[j as int] == sources@[j as int]@);
            }
            j = j + 1;
        }
        proof {
            let rest = t.subrange(i as int, t.len() as int);
            assert(rest[0] == t[i as int]);
            assert(!group_has(rest[0].1, key@));
            assert(rest.drop_first() =~= t.subrange(i as int + 1, t.len() as int));
        }
        i = i + 1;
    }
    None
}

/// The normalized form of the first custom pair whose source is `key`.
pub fn lookup_custom(m: &Vec<(String, String)>, key: &str) -> (r: Option<String>)
    ensures
        opt_text(r) == custom_lookup(m@, key@),
{
    let mut i: usize = 0;
    proof {
        assert(m@.subrange(0, m@.len() as int) =~= m@);
    }
    while i < m.len()
        invariant
            i <= m@.len(),
            custom_lookup(m@, key@) == custom_lookup(m@.subrange(i as int, m@.len() as int), key@),
        decreases m.len() - i,
    {
        let rest = Ghost(m@.subrange(i as int, m@.len() as int));
        assert(rest@[0] == m@[i as int]);
        if str_eq(m[i].0.as_str(), key) {
            return Some(m[i].1.clone());
        }
        assert(rest@.drop_first() =~= m@.subrange(i as int + 1, m@.len() as int));
        i = i + 1;
    }
    None
}

/// The part of `s` after its last `/`.
pub fn last_segment_of(s: &str) -> (r: &str)
    ensures
        r@ == last_segment(s@),
{
    let n = s.unicode_len();
    let mut i: usize = n;
    while i > 0 && s.get_char(i - 1) != '/'
        invariant
            n == s@.len(),
            i <= n,
            segment_start(s@, n as int) == segment_start(s@, i as int),
        decreases i,
    {
        i = i - 1;
    }
    s.substring_char(i, n)
}

/// The custom mapping for `key`, if there are custom pairs and one matches.
fn custom_get(custom: Option<&Vec<(String, String)>>, key: &str) -> (r: Option<String>)
    ensures
        opt_text(r) == custom_hit(custom_model(custom), key@),
{
    match custom {
        Some(m) => lookup_custom(m, key),
        None => None,
    }
}

/// The normalized form of `name`, given its lower-case form `name_lower` and
/// the lower-case form `segment_lower` of its last path segment.
pub fn normalize_lowered(
    name: &str,
    name_lower: &str,
    segment_lower: &str,
    custom: Option<&Vec<(String, String)>>,
) -> (r: String)
    ensures
        r@ == normalized_from(name@, name_lower@, segment_lower@, custom_model(custom)),
{
    if let Some(n) = custom_get(custom, name_lower) {
        return n;
    }
    if let Some(n) = custom_get(custom, name) {
        return n;
    }
    if let Some(n) = custom_get(custom, segment_lower) {
        return n;
    }
    let table = get_builtin_mappings();
    if let Some(n) = lookup_table(&table, name_lower) {
        return text(n);
    }
    if let Some(n) = lookup_table(&table, segment_lower) {
        return text(n);
    }
    text(name)
}

/// The standard form of a channel name under the built-in mappings; a name
/// that they do not map stays as it is.
pub fn normalize_channel_name(name: &str) -> (r: String)
    ensures
        r@ == normalized(name@, None),
{
    normalize_channel_name_with_custom(name, None)
}

/// The standard form of a channel name. `custom_mappings` holds pairs of a
/// source name and its normalized form; they take priority over the
/// built-in mappings, and the first pair for a source wins.
pub fn normalize_channel_name_with_custom(name: &str, custom_mappings: Option<&Vec<(String, String)>>) -> (r: String)
    ensures
        r@ == normalized(name@, custom_model(custom_mappings)),
{
    let name_lower = lowercase(name);
    let segment_lower = lowercase(last_segment_of(name));
    normalize_lowered(name, name_lower.as_str(), segment_lower.as_str(), custom_mappings)
}

/// The text shown for a channel: its normalized name, followed by the
/// original name in parentheses when the two differ and `show_original`
/// holds.
pub open spec fn display_name(name: Seq<char>, show_original: bool) -> Seq<char> {
    let n = normalized(name, None);
    if n != name && show_original {
        n + " ("@ + name + ")"@
    } else {
        n
    }
}

/// The text shown for a channel, as `display_name` states it.
pub fn get_display_name(name: &str, show_original: bool) -> (r: String)
    ensures
        r@ == display_name(name@, show_original),
{
    let mut n = normalize_channel_name(name);
    if !str_eq(n.as_str(), name) && show_original {
        n.append(" (");
        n.append(name);
        n.append(")");
        n
    } else {
        n
    }
}

} // verus!
