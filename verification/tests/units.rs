use osu_format::data::{
    CsvValue, OsuFileColor, OsuFileGamemode, OsuFileOverlayPosition, OsuFileSampleSet,
};
use osu_format::parser::{match_csv, match_kvp};
use osu_format::select::strip_option;

#[test]
fn gamemode_from_u32_codes() {
    assert!(matches!(OsuFileGamemode::from_u32(0), OsuFileGamemode::Osu));
    assert!(matches!(OsuFileGamemode::from_u32(1), OsuFileGamemode::Taiko));
    assert!(matches!(OsuFileGamemode::from_u32(2), OsuFileGamemode::Catch));
    assert!(matches!(OsuFileGamemode::from_u32(3), OsuFileGamemode::Mania));
    assert!(matches!(OsuFileGamemode::from_u32(7), OsuFileGamemode::Unknown));
}

#[test]
fn sample_set_from_u32_codes() {
    assert_eq!(OsuFileSampleSet::from_u32(0), OsuFileSampleSet::Default);
    assert_eq!(OsuFileSampleSet::from_u32(1), OsuFileSampleSet::Normal);
    assert_eq!(OsuFileSampleSet::from_u32(2), OsuFileSampleSet::Soft);
    assert_eq!(OsuFileSampleSet::from_u32(3), OsuFileSampleSet::Drum);
    assert_eq!(OsuFileSampleSet::from_u32(99), OsuFileSampleSet::Default);
}

#[test]
fn sample_set_from_name_is_case_insensitive_and_permissive() {
    assert_eq!(OsuFileSampleSet::from_name("Normal"), OsuFileSampleSet::Normal);
    assert_eq!(OsuFileSampleSet::from_name("SOFT"), OsuFileSampleSet::Soft);
    assert_eq!(OsuFileSampleSet::from_name("drum"), OsuFileSampleSet::Drum);
    assert_eq!(OsuFileSampleSet::from_name("None"), OsuFileSampleSet::Normal);
    assert_eq!(OsuFileSampleSet::from_name("gongs"), OsuFileSampleSet::Default);
}

#[test]
fn overlay_position_from_name_is_strict() {
    assert!(matches!(
        OsuFileOverlayPosition::from_name("NoChange"),
        Some(OsuFileOverlayPosition::NoChange)
    ));
    assert!(matches!(
        OsuFileOverlayPosition::from_name("below"),
        Some(OsuFileOverlayPosition::Below)
    ));
    assert!(matches!(
        OsuFileOverlayPosition::from_name("ABOVE"),
        Some(OsuFileOverlayPosition::Above)
    ));
    assert!(OsuFileOverlayPosition::from_name("sideways").is_none());
}

#[test]
fn color_from_str_parses_a_triple() {
    let c = OsuFileColor::from_str("255,128,0".to_string()).unwrap();
    assert_eq!(c.red, 255);
    assert_eq!(c.green, 128);
    assert_eq!(c.blue, 0);
}

#[test]
fn color_from_str_rejects_wrong_shapes() {
    assert!(OsuFileColor::from_str("1,2".to_string()).is_err());
    assert!(OsuFileColor::from_str("1,2,3,4".to_string()).is_err());
    assert!(OsuFileColor::from_str("not,a,color".to_string()).is_err());
    assert!(OsuFileColor::from_str("256,0,0".to_string()).is_err());
}

#[test]
fn csv_value_conversions() {
    let v = CsvValue { value: "4294967295".to_string() };
    assert_eq!(v.to_u32(), 4294967295);
    let v = CsvValue { value: "255".to_string() };
    assert_eq!(v.to_u8(), 255);
    let v = CsvValue { value: "-2147483648".to_string() };
    assert_eq!(v.to_i32(), -2147483648);
}

#[test]
fn csv_value_to_bool_recognizes_both_spellings() {
    assert!(!CsvValue { value: "0".to_string() }.to_bool());
    assert!(!CsvValue { value: "false".to_string() }.to_bool());
    assert!(CsvValue { value: "1".to_string() }.to_bool());
    assert!(CsvValue { value: "true".to_string() }.to_bool());
    assert!(!CsvValue { value: "yes".to_string() }.to_bool());
}

#[test]
fn match_kvp_splits_on_first_colon_only() {
    let (k, v) = match_kvp("Tags: foo: bar: baz").unwrap();
    assert_eq!(k, "Tags");
    assert_eq!(v, "foo: bar: baz");
}

#[test]
fn match_kvp_trims_key_and_value() {
    let (k, v) = match_kvp("  AudioFilename  :   track.mp3  ").unwrap();
    assert_eq!(k, "AudioFilename");
    assert_eq!(v, "track.mp3");
}

#[test]
fn match_kvp_without_colon_fails() {
    assert!(match_kvp("no separator").is_none());
}

#[test]
fn match_csv_keeps_raw_tokens() {
    let toks = match_csv("10, 20,,x");
    let raw: Vec<&str> = toks.iter().map(|c| c.value.as_str()).collect();
    assert_eq!(raw, vec!["10", " 20", "", "x"]);
}

#[test]
fn strip_option_unwraps_or_defaults() {
    assert_eq!(strip_option(Some("path")), "path");
    assert_eq!(strip_option(None), "");
}
