use osu_format::data::{DiagKind, OsuFile, OsuFileConfig, OsuFileGamemode, OsuFileSampleSet};

fn lines(raw: &[&str]) -> Vec<String> {
    raw.iter().map(|s| s.to_string()).collect()
}

fn parse_default(raw: &[&str]) -> (OsuFile, Vec<osu_format::data::Diagnostic>) {
    let mut doc = OsuFile::new();
    let diags = doc.parse(&lines(raw), &OsuFileConfig::default());
    (doc, diags)
}

#[test]
fn version_line_accepted() {
    let (doc, _) = parse_default(&["osu file format v14"]);
    assert!(doc.is_valid);
    assert_eq!(doc.version, "osu file format v14");
}

#[test]
fn version_line_accepted_after_blank_and_comment_lines() {
    let (doc, _) = parse_default(&["", "  ", "// a comment", "osu file format v7", "[General]"]);
    assert!(doc.is_valid);
    assert_eq!(doc.version, "osu file format v7");
}

#[test]
fn missing_version_marker_rejected() {
    let (doc, _) = parse_default(&[
        "this is not a beatmap",
        "[General]",
        "AudioFilename: a.mp3",
    ]);
    assert!(!doc.is_valid);
    // parsing halted at once: nothing beyond defaults is set
    assert_eq!(doc.version, "");
    assert_eq!(doc.general_section.audio_file_name, "");
}

#[test]
fn audio_file_name_round_trip() {
    let (doc, _) = parse_default(&[
        "osu file format v14",
        "[General]",
        "AudioFilename: track.mp3",
    ]);
    assert!(doc.is_valid);
    assert_eq!(doc.general_section.audio_file_name, "track.mp3");
}

#[test]
fn general_keys_are_case_insensitive() {
    let (doc, _) = parse_default(&[
        "osu file format v14",
        "[General]",
        "audioFILEname: track.mp3",
        "MODE: 3",
    ]);
    assert_eq!(doc.general_section.audio_file_name, "track.mp3");
    assert_eq!(doc.general_section.mode, OsuFileGamemode::Mania);
}

#[test]
fn background_event_stored() {
    let (doc, _) = parse_default(&[
        "osu file format v14",
        "[Events]",
        "0,0,\"bg.jpg\",0,0",
    ]);
    assert!(doc.events_section.background.exists);
    assert_eq!(doc.events_section.background.file_name, "bg.jpg");
    assert_eq!(doc.events_section.background.x_offset, 0);
    assert_eq!(doc.events_section.background.y_offset, 0);
}

#[test]
fn background_event_by_name_with_offsets() {
    let (doc, _) = parse_default(&[
        "osu file format v14",
        "[Events]",
        "Background,0,bg.png,12,-34",
    ]);
    assert!(doc.events_section.background.exists);
    assert_eq!(doc.events_section.background.file_name, "bg.png");
    assert_eq!(doc.events_section.background.x_offset, 12);
    assert_eq!(doc.events_section.background.y_offset, -34);
}

#[test]
fn video_event_stored() {
    let (doc, _) = parse_default(&[
        "osu file format v14",
        "[Events]",
        "Video,5500,\"clip.avi\"",
    ]);
    assert!(doc.events_section.video.exists);
    assert_eq!(doc.events_section.video.start_time, 5500);
    assert_eq!(doc.events_section.video.file_name, "clip.avi");
    assert!(!doc.events_section.background.exists);
}

#[test]
fn unknown_event_kind_ignored() {
    let (doc, diags) = parse_default(&["osu file format v14", "[Events]", "2,100,200"]);
    assert!(doc.is_valid);
    assert!(!doc.events_section.background.exists);
    assert!(!doc.events_section.video.exists);
    assert!(diags.iter().any(|d| d.kind == DiagKind::UnknownEvent));
}

#[test]
fn unknown_key_ignored() {
    let (doc, diags) = parse_default(&[
        "osu file format v14",
        "[General]",
        "AudioFilename: track.mp3",
        "Foo: bar",
    ]);
    assert!(doc.is_valid);
    // previously-set fields stay untouched
    assert_eq!(doc.general_section.audio_file_name, "track.mp3");
    assert!(diags.iter().any(|d| d.kind == DiagKind::UnknownKey));
}

#[test]
fn combo_colours_in_order() {
    let (doc, _) = parse_default(&[
        "osu file format v14",
        "[Colours]",
        "Combo1: 255,0,0",
        "Combo2: 0,255,0",
    ]);
    let combos = &doc.colours_section.combo_colors;
    assert_eq!(combos.len(), 2);
    assert_eq!(combos[0].index, 1);
    assert_eq!(combos[0].color.red, 255);
    assert_eq!(combos[0].color.green, 0);
    assert_eq!(combos[0].color.blue, 0);
    assert_eq!(combos[1].index, 2);
    assert_eq!(combos[1].color.red, 0);
    assert_eq!(combos[1].color.green, 255);
    assert_eq!(combos[1].color.blue, 0);
}

#[test]
fn slider_colours_stored() {
    let (doc, _) = parse_default(&[
        "osu file format v14",
        "[Colours]",
        "SliderBorder: 1,2,3",
        "SliderTrackOverride: 4,5,6",
    ]);
    assert_eq!(doc.colours_section.slider_border.red, 1);
    assert_eq!(doc.colours_section.slider_border.green, 2);
    assert_eq!(doc.colours_section.slider_border.blue, 3);
    assert_eq!(doc.colours_section.slider_track_override.red, 4);
}

#[test]
fn bad_colour_value_is_recoverable() {
    let (doc, diags) = parse_default(&["osu file format v14", "[Colours]", "Combo1: 1,2"]);
    assert!(doc.is_valid);
    assert_eq!(doc.colours_section.combo_colors.len(), 0);
    assert!(diags.iter().any(|d| d.kind == DiagKind::BadColor));
}

#[test]
fn timing_points_skipped_when_disabled() {
    // parse_timing_points defaults to false
    let (doc, diags) = parse_default(&[
        "osu file format v14",
        "[TimingPoints]",
        "10.5,300.7,4,1,0,70,1,0",
        "not,even,numbers",
    ]);
    assert!(doc.is_valid);
    assert!(doc.timing_points_section.timing_points.is_empty());
    assert!(diags.is_empty());
}

#[test]
fn timing_points_parsed_when_enabled() {
    let mut config = OsuFileConfig::default();
    config.parse_timing_points = true;
    let mut doc = OsuFile::new();
    doc.parse(
        &lines(&["osu file format v14", "[TimingPoints]", "10.5,300.7,4,2,0,70,1,8"]),
        &config,
    );
    let tps = &doc.timing_points_section.timing_points;
    assert_eq!(tps.len(), 1);
    assert_eq!(tps[0].time, "10.5");
    assert_eq!(tps[0].beat_length, "300.7");
    assert_eq!(tps[0].meter, 4);
    assert_eq!(tps[0].sample_set, OsuFileSampleSet::Soft);
    assert_eq!(tps[0].sample_index, 0);
    assert_eq!(tps[0].volume, 70);
    assert!(tps[0].uninherited);
    assert_eq!(tps[0].effects, 8);
}

#[test]
fn short_timing_point_row_defaults_missing_fields() {
    let mut config = OsuFileConfig::default();
    config.parse_timing_points = true;
    let mut doc = OsuFile::new();
    doc.parse(&lines(&["osu file format v14", "[TimingPoints]", "10,4"]), &config);
    let tps = &doc.timing_points_section.timing_points;
    assert_eq!(tps.len(), 1);
    assert_eq!(tps[0].time, "10");
    assert_eq!(tps[0].beat_length, "4");
    assert_eq!(tps[0].meter, 0);
    assert!(!tps[0].uninherited);
}

#[test]
fn hit_objects_parsed_when_enabled() {
    let mut config = OsuFileConfig::default();
    config.parse_hit_objects = true;
    let mut doc = OsuFile::new();
    doc.parse(
        &lines(&["osu file format v14", "[HitObjects]", "256,-192,1000,5,0:0:0:0:,extra"]),
        &config,
    );
    let hs = &doc.hit_object_section.hit_objects;
    assert_eq!(hs.len(), 1);
    assert_eq!(hs[0].x, 256);
    assert_eq!(hs[0].y, -192);
    assert_eq!(hs[0].time, 1000);
    assert_eq!(hs[0].hit_sound, 5);
    assert_eq!(hs[0].params, "0:0:0:0:");
    assert_eq!(hs[0].hit_sample, "extra");
}

#[test]
fn tags_keep_colons() {
    let (doc, _) = parse_default(&["osu file format v14", "[Metadata]", "Tags: foo: bar: baz"]);
    assert_eq!(doc.metadata_section.tags, "foo: bar: baz");
}

#[test]
fn metadata_ids_parsed() {
    let (doc, _) = parse_default(&[
        "osu file format v14",
        "[Metadata]",
        "Title: Song",
        "Artist: Someone",
        "BeatmapID: 2809324",
        "BeatmapSetID: -1",
    ]);
    assert_eq!(doc.metadata_section.title, "Song");
    assert_eq!(doc.metadata_section.artist, "Someone");
    assert_eq!(doc.metadata_section.beatmap_id, 2809324);
    assert_eq!(doc.metadata_section.beatmap_set_id, -1);
}

#[test]
fn coercion_failure_leaves_field_default() {
    let (doc, diags) = parse_default(&[
        "osu file format v14",
        "[General]",
        "AudioLeadIn: soon",
        "StackLeniency: high",
    ]);
    assert!(doc.is_valid);
    assert_eq!(doc.general_section.audio_lead_in, 0);
    assert_eq!(doc.general_section.stack_leniency, "");
    assert_eq!(
        diags.iter().filter(|d| d.kind == DiagKind::BadNumber).count(),
        2
    );
}

#[test]
fn decimal_fields_keep_raw_text() {
    let (doc, _) = parse_default(&[
        "osu file format v14",
        "[General]",
        "StackLeniency: 0.7",
        "[Difficulty]",
        "HPDrainRate: 6.5",
        "CircleSize: 4",
        "ApproachRate: -1.25",
    ]);
    assert_eq!(doc.general_section.stack_leniency, "0.7");
    assert_eq!(doc.difficulty_section.hp_drain_rate, "6.5");
    assert_eq!(doc.difficulty_section.circle_size, "4");
    assert_eq!(doc.difficulty_section.approach_rate, "-1.25");
}

#[test]
fn malformed_key_value_line_is_recoverable() {
    let (doc, diags) = parse_default(&["osu file format v14", "[General]", "no colon here"]);
    assert!(doc.is_valid);
    assert!(diags.iter().any(|d| d.kind == DiagKind::MalformedLine));
}

#[test]
fn bad_overlay_position_is_an_error() {
    let (doc, diags) = parse_default(&[
        "osu file format v14",
        "[General]",
        "OverlayPosition: sideways",
        "OverlayPosition: Below",
    ]);
    assert!(diags.iter().any(|d| d.kind == DiagKind::BadEnum));
    assert!(matches!(
        doc.general_section.overlay_position,
        osu_format::data::OsuFileOverlayPosition::Below
    ));
}

#[test]
fn unknown_sample_set_name_falls_back_to_default() {
    let (doc, diags) = parse_default(&[
        "osu file format v14",
        "[General]",
        "SampleSet: Gongs",
    ]);
    // the permissive counterpart of the overlay-position behavior
    assert_eq!(doc.general_section.sample_set, OsuFileSampleSet::Default);
    assert!(!diags.iter().any(|d| d.kind == DiagKind::BadEnum));
}

#[test]
fn unknown_section_lines_are_diagnosed() {
    let (doc, diags) = parse_default(&["osu file format v14", "[Storyboard]", "anything"]);
    assert!(doc.is_valid);
    assert!(diags.iter().any(|d| d.kind == DiagKind::UnknownSection));
}

#[test]
fn stray_preamble_line_is_diagnosed_not_fatal() {
    let (doc, diags) = parse_default(&[
        "osu file format v14",
        "second line before any header",
        "[General]",
        "AudioFilename: a.mp3",
    ]);
    assert!(doc.is_valid);
    assert_eq!(doc.version, "osu file format v14");
    assert_eq!(doc.general_section.audio_file_name, "a.mp3");
    assert!(diags.iter().any(|d| d.kind == DiagKind::StrayLine));
}

#[test]
fn empty_header_keeps_previous_context() {
    let (doc, _) = parse_default(&[
        "osu file format v14",
        "[General]",
        "[]",
        "AudioFilename: still-general.mp3",
    ]);
    assert_eq!(doc.general_section.audio_file_name, "still-general.mp3");
}

#[test]
fn last_occurrence_of_a_key_wins() {
    let (doc, _) = parse_default(&[
        "osu file format v14",
        "[General]",
        "AudioFilename: first.mp3",
        "AudioFilename: second.mp3",
    ]);
    assert_eq!(doc.general_section.audio_file_name, "second.mp3");
}

#[test]
fn general_flags_and_numbers_parsed() {
    let (doc, _) = parse_default(&[
        "osu file format v14",
        "[General]",
        "AudioLeadIn: -20",
        "PreviewTime: 31415",
        "Countdown: 2",
        "LetterboxInBreaks: 1",
        "WidescreenStoryboard: 0",
        "EpilepsyWarning: 1",
        "SkinPreference: MySkin",
    ]);
    assert_eq!(doc.general_section.audio_lead_in, -20);
    assert_eq!(doc.general_section.preview_time, 31415);
    assert_eq!(doc.general_section.countdown, 2);
    assert!(doc.general_section.letterbox_in_breaks);
    assert!(!doc.general_section.widescreen_storyboard);
    assert!(doc.general_section.epilepsy_warning);
    assert_eq!(doc.general_section.skin_preference, "MySkin");
}

#[test]
fn editor_section_parsed() {
    let (doc, _) = parse_default(&[
        "osu file format v14",
        "[Editor]",
        "Bookmarks: 100,200,300",
        "DistanceSpacing: 1.2",
        "GridSize: 8",
        "TimelineZoom: 2.5",
    ]);
    assert_eq!(doc.editor_section.bookmarks, "100,200,300");
    assert_eq!(doc.editor_section.distance_spacing, "1.2");
    assert_eq!(doc.editor_section.grid_size, 8);
    assert_eq!(doc.editor_section.timeline_zoom, "2.5");
}

#[test]
fn diagnostics_carry_line_numbers() {
    let (_, diags) = parse_default(&["osu file format v14", "[General]", "Foo: bar"]);
    assert_eq!(diags.len(), 1);
    assert_eq!(diags[0].line, 2);
    assert_eq!(diags[0].kind, DiagKind::UnknownKey);
}

#[test]
fn media_to_keep_lists_background_and_audio() {
    let (doc, _) = parse_default(&[
        "osu file format v14",
        "[General]",
        "AudioFilename: track.mp3",
        "[Events]",
        "0,0,\"bg.jpg\"",
    ]);
    let keep = doc.media_to_keep();
    assert_eq!(keep, vec!["bg.jpg".to_string(), "track.mp3".to_string()]);
}

#[test]
fn media_to_keep_of_invalid_document_is_empty() {
    let (doc, _) = parse_default(&["junk"]);
    let keep = doc.media_to_keep();
    assert!(keep.is_empty());
}

#[test]
fn video_event_with_one_offset() {
    let (doc, _) = parse_default(&[
        "osu file format v14",
        "[Events]",
        "1,200,clip.mp4,15",
    ]);
    assert!(doc.events_section.video.exists);
    assert_eq!(doc.events_section.video.start_time, 200);
    assert_eq!(doc.events_section.video.x_offset, 15);
    assert_eq!(doc.events_section.video.y_offset, 0);
}

#[test]
fn section_headers_are_case_insensitive() {
    let (doc, _) = parse_default(&[
        "osu file format v14",
        "[GENERAL]",
        "AudioFilename: track.mp3",
    ]);
    assert_eq!(doc.general_section.audio_file_name, "track.mp3");
}

#[test]
fn uninherited_flag_spellings() {
    let mut config = OsuFileConfig::default();
    config.parse_timing_points = true;
    let mut doc = OsuFile::new();
    doc.parse(
        &lines(&[
            "osu file format v14",
            "[TimingPoints]",
            "0,300,4,1,0,70,0,0",
            "0,300,4,1,0,70,true,0",
        ]),
        &config,
    );
    let tps = &doc.timing_points_section.timing_points;
    assert_eq!(tps.len(), 2);
    assert!(!tps[0].uninherited);
    assert!(tps[1].uninherited);
}

#[test]
fn whole_beatmap_parses() {
    let mut config = OsuFileConfig::default();
    config.parse_timing_points = true;
    config.parse_hit_objects = true;
    let mut doc = OsuFile::new();
    let diags = doc.parse(
        &lines(&[
            "osu file format v14",
            "",
            "[General]",
            "AudioFilename: audio.mp3",
            "AudioLeadIn: 0",
            "PreviewTime: 24076",
            "Countdown: 0",
            "SampleSet: Soft",
            "StackLeniency: 0.7",
            "Mode: 0",
            "LetterboxInBreaks: 0",
            "",
            "[Editor]",
            "DistanceSpacing: 0.9",
            "BeatDivisor: 4",
            "GridSize: 32",
            "",
            "[Metadata]",
            "Title:Night of Knights",
            "Artist:COOL&CREATE",
            "Creator:someone",
            "Version:Lunatic",
            "BeatmapID:2809324",
            "",
            "[Difficulty]",
            "HPDrainRate:6",
            "CircleSize:4",
            "OverallDifficulty:8",
            "ApproachRate:9",
            "",
            "[Events]",
            "//Background and Video events",
            "0,0,\"bg.jpg\",0,0",
            "",
            "[TimingPoints]",
            "1020,461.538461538462,4,2,1,70,1,0",
            "",
            "[Colours]",
            "Combo1 : 255,128,64",
            "",
            "[HitObjects]",
            "256,192,1020,1,0,0:0:0:0:",
        ]),
        &config,
    );
    assert!(doc.is_valid, "diags: {:?}", diags);
    assert!(diags.is_empty(), "diags: {:?}", diags);
    assert_eq!(doc.version, "osu file format v14");
    assert_eq!(doc.general_section.audio_file_name, "audio.mp3");
    assert_eq!(doc.general_section.preview_time, 24076);
    assert_eq!(doc.general_section.sample_set, OsuFileSampleSet::Soft);
    assert_eq!(doc.general_section.stack_leniency, "0.7");
    assert_eq!(doc.metadata_section.title, "Night of Knights");
    assert_eq!(doc.metadata_section.artist, "COOL&CREATE");
    assert_eq!(doc.metadata_section.beatmap_id, 2809324);
    assert_eq!(doc.difficulty_section.approach_rate, "9");
    assert!(doc.events_section.background.exists);
    assert_eq!(doc.events_section.background.file_name, "bg.jpg");
    assert_eq!(doc.timing_points_section.timing_points.len(), 1);
    assert_eq!(
        doc.timing_points_section.timing_points[0].beat_length,
        "461.538461538462"
    );
    assert_eq!(doc.colours_section.combo_colors.len(), 1);
    assert_eq!(doc.colours_section.combo_colors[0].index, 1);
    assert_eq!(doc.hit_object_section.hit_objects.len(), 1);
    assert_eq!(doc.hit_object_section.hit_objects[0].x, 256);
}
