use ultralog::normalize::{get_display_name, normalize_channel_name, normalize_channel_name_with_custom, get_builtin_mappings};

#[test]
fn test_normalize_afr() {
    assert_eq!(normalize_channel_name("Act_AFR"), "AFR");
    assert_eq!(normalize_channel_name("R_EGO"), "AFR");
    assert_eq!(normalize_channel_name("Air Fuel Ratio"), "AFR");
}

#[test]
fn test_normalize_rpm() {
    assert_eq!(normalize_channel_name("RPM"), "RPM");
    assert_eq!(normalize_channel_name("rpm"), "RPM");
    assert_eq!(normalize_channel_name("Engine RPM4"), "RPM");
}

#[test]
fn test_normalize_tps() {
    assert_eq!(normalize_channel_name("TPS"), "TPS");
    assert_eq!(normalize_channel_name("Throttle Position"), "TPS");
    assert_eq!(normalize_channel_name("PedalPos"), "TPS");
}

#[test]
fn test_normalize_path() {
    assert_eq!(normalize_channel_name("engine/rpm"), "RPM");
}

#[test]
fn test_no_normalization() {
    assert_eq!(normalize_channel_name("CustomChannel"), "CustomChannel");
    assert_eq!(normalize_channel_name("MyUnknownSensor"), "MyUnknownSensor");
}

#[test]
fn test_display_name() {
    assert_eq!(get_display_name("Act_AFR", true), "AFR (Act_AFR)");
    assert_eq!(get_display_name("AFR", true), "AFR");
    assert_eq!(get_display_name("CustomChannel", true), "CustomChannel");
}

#[test]
fn display_name_without_original() {
    assert_eq!(get_display_name("Act_AFR", false), "AFR");
}

#[test]
fn source_names_match_whatever_their_case() {
    assert_eq!(normalize_channel_name("ACT_afr"), "AFR");
    assert_eq!(normalize_channel_name("COOLANTTEMP"), "Coolant");
}

#[test]
fn last_path_segment_is_tried() {
    assert_eq!(normalize_channel_name("ecu/sensors/Boost Pressure"), "Boost");
    assert_eq!(normalize_channel_name("a/b/Unknown"), "a/b/Unknown");
    assert_eq!(normalize_channel_name(""), "");
}

#[test]
fn custom_mappings_come_first() {
    let custom = vec![
        ("rpm_x".to_string(), "Engine Speed".to_string()),
        ("Act_AFR".to_string(), "Lambda".to_string()),
    ];
    // The custom key is lower case: it matches only through the lower-case form.
    assert_eq!(normalize_channel_name_with_custom("RPM_X", Some(&custom)), "Engine Speed");
    assert_eq!(normalize_channel_name_with_custom("Act_AFR", Some(&custom)), "Lambda");
    assert_eq!(normalize_channel_name_with_custom("dash/RPM_X", Some(&custom)), "Engine Speed");
    assert_eq!(normalize_channel_name_with_custom("TPS", Some(&custom)), "TPS");
    assert_eq!(normalize_channel_name_with_custom("RPM_X", None), "RPM_X");
}

#[test]
fn builtin_mappings_are_listed() {
    let table = get_builtin_mappings();
    assert_eq!(table.len(), 29);
    assert_eq!(table[0].0, "AFR");
    assert!(table[0].1.contains(&"Act_AFR"));
    assert!(table.iter().any(|(name, sources)| *name == "Gear" && sources.contains(&"GearPosition")));
}
