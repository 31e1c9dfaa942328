//! The functional model of the parser.
//!
//! Every line of input maps the parse state — document, active section
//! context, version bookkeeping and accumulated diagnostics — to a new
//! state via [`line_step`]; a whole input folds through [`run_lines`].
//! The executable parser in [`crate::parser`] is proved to compute exactly
//! this model.

use vstd::prelude::*;

use crate::data::{
    bool_tok, gamemode_from_u32, overlay_from_name, sample_set_from_name, sample_set_from_u32,
    spec_color, doc_default, BackgroundV, ColorsV, DiagKind, DiagV, DifficultyV, EditorV, EventsV,
    GeneralV, HitObjectV, HitObjectsV, MetadataV, OsuFileCombo, OsuFileConfig, OsuFileSampleSet,
    OsuFileV, SectionId, TimingPointV, TimingPointsV, VideoV,
};
use crate::numbers::{dec_val, int_val, is_decimal_seq, is_digit_seq, is_int_seq};
use crate::text::{contains_seq, lower, remove_quotes_seq, spec_split, spec_trim};

verus! {

/// The position of the first occurrence of `c` in `s`, or `s.len()` when
/// `c` does not occur.
pub open spec fn first_index_of(s: Seq<char>, c: char) -> int
    decreases s.len(),
{
    if s.len() == 0 {
        0
    } else if s[0] == c {
        0
    } else {
        1 + first_index_of(s.drop_first(), c)
    }
}

pub proof fn lemma_first_index_of(s: Seq<char>, c: char)
    ensures
        0 <= first_index_of(s, c) <= s.len(),
        first_index_of(s, c) < s.len() ==> s[first_index_of(s, c)] == c,
        forall|k: int| 0 <= k < first_index_of(s, c) ==> s[k] != c,
    decreases s.len(),
{
    if s.len() > 0 && s[0] != c {
        lemma_first_index_of(s.drop_first(), c);
        assert forall|k: int| 0 <= k < first_index_of(s, c) implies s[k] != c by {
            if k > 0 {
                assert(s.drop_first()[k - 1] != c);
            }
        }
    }
}

/// The key/value split of a line: the text before the first colon and the
/// text after it, both trimmed.  Colons beyond the first stay inside the
/// value.  A line without a colon has no split.
pub open spec fn spec_kvp(line: Seq<char>) -> Option<(Seq<char>, Seq<char>)> {
    let j = first_index_of(line, ':');
    if j == line.len() {
        None
    } else {
        Some((spec_trim(line.take(j)), spec_trim(line.skip(j + 1))))
    }
}

/// Whether an `i32` can hold the numeral `t`.
pub open spec fn i32_ok(t: Seq<char>) -> bool {
    is_int_seq(t) && i32::MIN <= int_val(t) <= i32::MAX
}

/// Whether a `u32` can hold the numeral `t`.
pub open spec fn u32_ok(t: Seq<char>) -> bool {
    is_digit_seq(t) && dec_val(t) <= u32::MAX
}

/// Whether an `i64` can hold the numeral `t`.
pub open spec fn i64_ok(t: Seq<char>) -> bool {
    is_int_seq(t) && i64::MIN <= int_val(t) <= i64::MAX
}

/// The `[General]` table: how one key-value line updates the record, and
/// the diagnostics it raises.
pub open spec fn general_step(g: GeneralV, line: Seq<char>) -> (GeneralV, Seq<DiagKind>) {
    match spec_kvp(line) {
        None => (g, seq![DiagKind::MalformedLine]),
        Some((key, v)) => general_kv_step(g, lower(key), v),
    }
}

/// The first half of the `[General]` key table, keyed by the case-folded
/// key.
pub open spec fn general_kv_step(g: GeneralV, k: Seq<char>, v: Seq<char>) -> (GeneralV, Seq<
    DiagKind,
>) {
    if k == "audiofilename"@ {
        (GeneralV { audio_file_name: v, ..g }, seq![])
    } else if k == "audioleadin"@ {
        if i32_ok(v) {
            (GeneralV { audio_lead_in: int_val(v), ..g }, seq![])
        } else {
            (g, seq![DiagKind::BadNumber])
        }
    } else if k == "previewtime"@ {
        if i32_ok(v) {
            (GeneralV { preview_time: int_val(v), ..g }, seq![])
        } else {
            (g, seq![DiagKind::BadNumber])
        }
    } else if k == "countdown"@ {
        if u32_ok(v) {
            (GeneralV { countdown: dec_val(v), ..g }, seq![])
        } else {
            (g, seq![DiagKind::BadNumber])
        }
    } else if k == "sampleset"@ {
        (GeneralV { sample_set: sample_set_from_name(v), ..g }, seq![])
    } else if k == "stackleniency"@ {
        if is_decimal_seq(v) {
            (GeneralV { stack_leniency: v, ..g }, seq![])
        } else {
            (g, seq![DiagKind::BadNumber])
        }
    } else if k == "mode"@ {
        if u32_ok(v) {
            (GeneralV { mode: gamemode_from_u32(dec_val(v) as u32), ..g }, seq![])
        } else {
            (g, seq![DiagKind::BadNumber])
        }
    } else if k == "letterboxinbreaks"@ {
        (GeneralV { letterbox_in_breaks: v == "1"@, ..g }, seq![])
    } else {
        general_kv_step_rest(g, k, v)
    }
}

/// The second half of the `[General]` key table.
pub open spec fn general_kv_step_rest(g: GeneralV, k: Seq<char>, v: Seq<char>) -> (GeneralV, Seq<
    DiagKind,
>) {
    if k == "useskinsprites"@ {
        (GeneralV { use_skin_sprites: v == "1"@, ..g }, seq![])
    } else if k == "overlayposition"@ {
        match overlay_from_name(v) {
            Some(o) => (GeneralV { overlay_position: o, ..g }, seq![]),
            None => (g, seq![DiagKind::BadEnum]),
        }
    } else if k == "skinpreference"@ {
        (GeneralV { skin_preference: v, ..g }, seq![])
    } else if k == "epilepsywarning"@ {
        (GeneralV { epilepsy_warning: v == "1"@, ..g }, seq![])
    } else if k == "countdownoffset"@ {
        if u32_ok(v) {
            (GeneralV { countdown_offset: dec_val(v), ..g }, seq![])
        } else {
            (g, seq![DiagKind::BadNumber])
        }
    } else if k == "specialstyle"@ {
        (GeneralV { special_style: v == "1"@, ..g }, seq![])
    } else if k == "widescreenstoryboard"@ {
        (GeneralV { widescreen_storyboard: v == "1"@, ..g }, seq![])
    } else if k == "samplesmatchplaybackrate"@ {
        (GeneralV { samples_match_playback_rate: v == "1"@, ..g }, seq![])
    } else {
        (g, seq![DiagKind::UnknownKey])
    }
}

/// The `[Editor]` table.
pub open spec fn editor_step(e: EditorV, line: Seq<char>) -> (EditorV, Seq<DiagKind>) {
    match spec_kvp(line) {
        None => (e, seq![DiagKind::MalformedLine]),
        Some((key, v)) => {
            let k = lower(key);
            if k == "bookmarks"@ {
                (EditorV { bookmarks: v, ..e }, seq![])
            } else if k == "distancespacing"@ {
                if is_decimal_seq(v) {
                    (EditorV { distance_spacing: v, ..e }, seq![])
                } else {
                    (e, seq![DiagKind::BadNumber])
                }
            } else if k == "beatdivisor"@ {
                if is_decimal_seq(v) {
                    (EditorV { beat_divisor: v, ..e }, seq![])
                } else {
                    (e, seq![DiagKind::BadNumber])
                }
            } else if k == "gridsize"@ {
                if u32_ok(v) {
                    (EditorV { grid_size: dec_val(v), ..e }, seq![])
                } else {
                    (e, seq![DiagKind::BadNumber])
                }
            } else if k == "timelinezoom"@ {
                if is_decimal_seq(v) {
                    (EditorV { timeline_zoom: v, ..e }, seq![])
                } else {
                    (e, seq![DiagKind::BadNumber])
                }
            } else {
                (e, seq![DiagKind::UnknownKey])
            }
        },
    }
}

/// The `[Metadata]` table.
pub open spec fn metadata_step(m: MetadataV, line: Seq<char>) -> (MetadataV, Seq<DiagKind>) {
    match spec_kvp(line) {
        None => (m, seq![DiagKind::MalformedLine]),
        Some((key, v)) => {
            let k = lower(key);
            if k == "title"@ {
                (MetadataV { title: v, ..m }, seq![])
            } else if k == "titleunicode"@ {
                (MetadataV { title_unicode: v, ..m }, seq![])
            } else if k == "artist"@ {
                (MetadataV { artist: v, ..m }, seq![])
            } else if k == "artistunicode"@ {
                (MetadataV { artist_unicode: v, ..m }, seq![])
            } else if k == "creator"@ {
                (MetadataV { creator: v, ..m }, seq![])
            } else if k == "version"@ {
                (MetadataV { version: v, ..m }, seq![])
            } else if k == "source"@ {
                (MetadataV { source: v, ..m }, seq![])
            } else if k == "tags"@ {
                (MetadataV { tags: v, ..m }, seq![])
            } else if k == "beatmapid"@ {
                if i64_ok(v) {
                    (MetadataV { beatmap_id: int_val(v), ..m }, seq![])
                } else {
                    (m, seq![DiagKind::BadNumber])
                }
            } else if k == "beatmapsetid"@ {
                if i64_ok(v) {
                    (MetadataV { beatmap_set_id: int_val(v), ..m }, seq![])
                } else {
                    (m, seq![DiagKind::BadNumber])
                }
            } else {
                (m, seq![DiagKind::UnknownKey])
            }
        },
    }
}

/// The `[Difficulty]` table; every field is decimal text.
pub open spec fn difficulty_step(d: DifficultyV, line: Seq<char>) -> (DifficultyV, Seq<DiagKind>) {
    match spec_kvp(line) {
        None => (d, seq![DiagKind::MalformedLine]),
        Some((key, v)) => {
            let k = lower(key);
            if k == "hpdrainrate"@ {
                if is_decimal_seq(v) {
                    (DifficultyV { hp_drain_rate: v, ..d }, seq![])
                } else {
                    (d, seq![DiagKind::BadNumber])
                }
            } else if k == "circlesize"@ {
                if is_decimal_seq(v) {
                    (DifficultyV { circle_size: v, ..d }, seq![])
                } else {
                    (d, seq![DiagKind::BadNumber])
                }
            } else if k == "overalldifficulty"@ {
                if is_decimal_seq(v) {
                    (DifficultyV { overall_difficulty: v, ..d }, seq![])
                } else {
                    (d, seq![DiagKind::BadNumber])
                }
            } else if k == "approachrate"@ {
                if is_decimal_seq(v) {
                    (DifficultyV { approach_rate: v, ..d }, seq![])
                } else {
                    (d, seq![DiagKind::BadNumber])
                }
            } else if k == "slidermultiplier"@ {
                if is_decimal_seq(v) {
                    (DifficultyV { slider_multiplier: v, ..d }, seq![])
                } else {
                    (d, seq![DiagKind::BadNumber])
                }
            } else if k == "slidertickrate"@ {
                if is_decimal_seq(v) {
                    (DifficultyV { slider_tick_rate: v, ..d }, seq![])
                } else {
                    (d, seq![DiagKind::BadNumber])
                }
            } else {
                (d, seq![DiagKind::UnknownKey])
            }
        },
    }
}

/// An `i32` event token: its value, or 0 with a diagnostic when it does
/// not parse.
pub open spec fn i32_tok(t: Seq<char>) -> (int, Seq<DiagKind>) {
    if i32_ok(t) {
        (int_val(t), seq![])
    } else {
        (0, seq![DiagKind::BadNumber])
    }
}

/// The optional offset token at position `i` of an event row; a missing
/// token is 0 without a diagnostic.
pub open spec fn offset_tok(toks: Seq<Seq<char>>, i: int) -> (int, Seq<DiagKind>) {
    if i < toks.len() {
        i32_tok(toks[i])
    } else {
        (0, seq![])
    }
}

/// The `[Events]` table: background and video rows are stored, any other
/// event kind is ignored with a diagnostic.
pub open spec fn events_step(e: EventsV, line: Seq<char>) -> (EventsV, Seq<DiagKind>) {
    let toks = spec_split(line, ',');
    let kind = toks[0];
    if kind == "0"@ || kind == "Background"@ {
        if toks.len() >= 3 {
            let x = offset_tok(toks, 3);
            let y = offset_tok(toks, 4);
            (
                EventsV {
                    background: BackgroundV {
                        exists: true,
                        file_name: remove_quotes_seq(toks[2]),
                        x_offset: x.0,
                        y_offset: y.0,
                    },
                    ..e
                },
                x.1 + y.1,
            )
        } else {
            (e, seq![DiagKind::MalformedLine])
        }
    } else if kind == "1"@ || kind == "Video"@ {
        if toks.len() >= 3 {
            let t = i32_tok(toks[1]);
            let x = offset_tok(toks, 3);
            let y = offset_tok(toks, 4);
            (
                EventsV {
                    video: VideoV {
                        exists: true,
                        start_time: t.0,
                        file_name: remove_quotes_seq(toks[2]),
                        x_offset: x.0,
                        y_offset: y.0,
                    },
                    ..e
                },
                t.1 + x.1 + y.1,
            )
        } else {
            (e, seq![DiagKind::MalformedLine])
        }
    } else {
        (e, seq![DiagKind::UnknownEvent])
    }
}

/// Decimal text at token position `i`, or empty when missing or invalid.
pub open spec fn dec_text_at(toks: Seq<Seq<char>>, i: int) -> Seq<char> {
    if i < toks.len() && is_decimal_seq(toks[i]) {
        toks[i]
    } else {
        Seq::empty()
    }
}

/// The diagnostic of a decimal-text token position.
pub open spec fn dec_diag_at(toks: Seq<Seq<char>>, i: int) -> Seq<DiagKind> {
    if i < toks.len() && !is_decimal_seq(toks[i]) {
        seq![DiagKind::BadNumber]
    } else {
        seq![]
    }
}

/// The `i32` at token position `i`, or 0 when missing or invalid.
pub open spec fn i32_at(toks: Seq<Seq<char>>, i: int) -> int {
    if i < toks.len() && i32_ok(toks[i]) {
        int_val(toks[i])
    } else {
        0
    }
}

/// The diagnostic of an `i32` token position.
pub open spec fn i32_diag_at(toks: Seq<Seq<char>>, i: int) -> Seq<DiagKind> {
    if i < toks.len() && !i32_ok(toks[i]) {
        seq![DiagKind::BadNumber]
    } else {
        seq![]
    }
}

/// The sample set encoded at token position `i`, or the default when
/// missing or invalid.
pub open spec fn sample_set_at(toks: Seq<Seq<char>>, i: int) -> OsuFileSampleSet {
    if i < toks.len() && u32_ok(toks[i]) {
        sample_set_from_u32(dec_val(toks[i]) as u32)
    } else {
        OsuFileSampleSet::Normal
    }
}

/// The diagnostic of a `u32` token position.
pub open spec fn u32_diag_at(toks: Seq<Seq<char>>, i: int) -> Seq<DiagKind> {
    if i < toks.len() && !u32_ok(toks[i]) {
        seq![DiagKind::BadNumber]
    } else {
        seq![]
    }
}

/// The boolean at token position `i`; a missing token is false.
pub open spec fn bool_at(toks: Seq<Seq<char>>, i: int) -> bool {
    i < toks.len() && bool_tok(toks[i])
}

/// The raw text at token position `i`, or empty when missing.
pub open spec fn text_at(toks: Seq<Seq<char>>, i: int) -> Seq<char> {
    if i < toks.len() {
        toks[i]
    } else {
        Seq::empty()
    }
}

/// The timing point a comma-separated row encodes; tokens are assigned
/// positionally and failed or missing tokens leave their field defaulted.
pub open spec fn timing_point_of(toks: Seq<Seq<char>>) -> TimingPointV {
    TimingPointV {
        time: dec_text_at(toks, 0),
        beat_length: dec_text_at(toks, 1),
        meter: i32_at(toks, 2),
        sample_set: sample_set_at(toks, 3),
        sample_index: i32_at(toks, 4),
        volume: i32_at(toks, 5),
        uninherited: bool_at(toks, 6),
        effects: i32_at(toks, 7),
    }
}

/// The diagnostics of a timing point row, in token order.
pub open spec fn timing_point_diags(toks: Seq<Seq<char>>) -> Seq<DiagKind> {
    dec_diag_at(toks, 0) + dec_diag_at(toks, 1) + i32_diag_at(toks, 2) + u32_diag_at(toks, 3)
        + i32_diag_at(toks, 4) + i32_diag_at(toks, 5) + i32_diag_at(toks, 7)
}

/// The `[TimingPoints]` table: every row appends one timing point.
pub open spec fn timing_step(tps: TimingPointsV, line: Seq<char>) -> (TimingPointsV, Seq<
    DiagKind,
>) {
    let toks = spec_split(line, ',');
    (
        TimingPointsV { timing_points: tps.timing_points.push(timing_point_of(toks)) },
        timing_point_diags(toks),
    )
}

/// The hit object a comma-separated row encodes.
pub open spec fn hit_object_of(toks: Seq<Seq<char>>) -> HitObjectV {
    HitObjectV {
        x: i32_at(toks, 0),
        y: i32_at(toks, 1),
        time: i32_at(toks, 2),
        hit_type: 0,
        hit_sound: u8_at(toks, 3),
        params: text_at(toks, 4),
        hit_sample: text_at(toks, 5),
    }
}

/// The `u8` at token position `i`, or 0 when missing or invalid.
pub open spec fn u8_at(toks: Seq<Seq<char>>, i: int) -> int {
    if i < toks.len() && is_digit_seq(toks[i]) && dec_val(toks[i]) <= u8::MAX {
        dec_val(toks[i])
    } else {
        0
    }
}

/// The diagnostic of a `u8` token position.
pub open spec fn u8_diag_at(toks: Seq<Seq<char>>, i: int) -> Seq<DiagKind> {
    if i < toks.len() && !(is_digit_seq(toks[i]) && dec_val(toks[i]) <= u8::MAX) {
        seq![DiagKind::BadNumber]
    } else {
        seq![]
    }
}

/// The diagnostics of a hit object row, in token order.
pub open spec fn hit_object_diags(toks: Seq<Seq<char>>) -> Seq<DiagKind> {
    i32_diag_at(toks, 0) + i32_diag_at(toks, 1) + i32_diag_at(toks, 2) + u8_diag_at(toks, 3)
}

/// The `[HitObjects]` table: every row appends one hit object.
pub open spec fn hit_step(hs: HitObjectsV, line: Seq<char>) -> (HitObjectsV, Seq<DiagKind>) {
    let toks = spec_split(line, ',');
    (
        HitObjectsV { hit_objects: hs.hit_objects.push(hit_object_of(toks)) },
        hit_object_diags(toks),
    )
}

/// The `[Colours]` table: `Combo<N>` keys append a combo colour, the two
/// slider keys overwrite their colour.
pub open spec fn colours_step(c: ColorsV, line: Seq<char>) -> (ColorsV, Seq<DiagKind>) {
    match spec_kvp(line) {
        None => (c, seq![DiagKind::MalformedLine]),
        Some((key, v)) => {
            let k = lower(key);
            if k.len() >= 5 && k.take(5) == "combo"@ {
                let idx = key.skip(5);
                if is_int_seq(idx) && i8::MIN <= int_val(idx) <= i8::MAX {
                    match spec_color(v) {
                        Some(col) => (
                            ColorsV {
                                combo_colors: c.combo_colors.push(
                                    OsuFileCombo { index: int_val(idx) as i8, color: col },
                                ),
                                ..c
                            },
                            seq![],
                        ),
                        None => (c, seq![DiagKind::BadColor]),
                    }
                } else {
                    (c, seq![DiagKind::BadNumber])
                }
            } else if k.len() >= 12 && k.take(12) == "sliderborder"@ {
                match spec_color(v) {
                    Some(col) => (ColorsV { slider_border: col, ..c }, seq![]),
                    None => (c, seq![DiagKind::BadColor]),
                }
            } else if k.len() >= 19 && k.take(19) == "slidertrackoverride"@ {
                match spec_color(v) {
                    Some(col) => (ColorsV { slider_track_override: col, ..c }, seq![]),
                    None => (c, seq![DiagKind::BadColor]),
                }
            } else {
                (c, seq![DiagKind::UnknownKey])
            }
        },
    }
}

/// Whether a line is ignored: blank after trimming, or a comment.
pub open spec fn is_skippable(line: Seq<char>) -> bool {
    spec_trim(line).len() == 0 || (line.len() >= 2 && line.take(2) == "//"@)
}

/// Whether a line is a section header.
pub open spec fn is_header(line: Seq<char>) -> bool {
    line.len() >= 1 && line[0] == '[' && line.last() == ']'
}

/// The text between the opening bracket and the first closing bracket.
pub open spec fn header_name(line: Seq<char>) -> Seq<char> {
    let body = line.skip(1);
    body.take(first_index_of(body, ']'))
}

/// The section a header name selects, case-insensitively.
pub open spec fn section_of(name: Seq<char>) -> SectionId {
    let l = lower(name);
    if l == "general"@ {
        SectionId::General
    } else if l == "editor"@ {
        SectionId::Editor
    } else if l == "metadata"@ {
        SectionId::Metadata
    } else if l == "difficulty"@ {
        SectionId::Difficulty
    } else if l == "events"@ {
        SectionId::Events
    } else if l == "timingpoints"@ {
        SectionId::TimingPoints
    } else if l == "colours"@ {
        SectionId::Colours
    } else if l == "hitobjects"@ {
        SectionId::HitObjects
    } else {
        SectionId::Other
    }
}

/// The whole parse state between two lines.
#[verifier::ext_equal]
pub ghost struct ParseStateV {
    pub doc: OsuFileV,
    pub ctx: SectionId,
    pub seen_version: bool,
    pub line_no: int,
    pub diags: Seq<DiagV>,
}

/// The same state one line later.
pub open spec fn bump(st: ParseStateV) -> ParseStateV {
    ParseStateV { line_no: st.line_no + 1, ..st }
}

/// Diagnostic kinds tagged with the line and section they belong to.
pub open spec fn tag(ds: Seq<DiagKind>, line: int, sec: SectionId) -> Seq<DiagV> {
    ds.map_values(|k: DiagKind| DiagV { line: line, section: sec, kind: k })
}

/// The state after recording a single diagnostic for the current line.
pub open spec fn with_diag(st: ParseStateV, k: DiagKind) -> ParseStateV {
    ParseStateV {
        diags: st.diags.push(DiagV { line: st.line_no, section: st.ctx, kind: k }),
        ..bump(st)
    }
}

/// How one input line transforms the parse state.
///
/// An invalid document absorbs every further line: parsing has halted.
/// Otherwise the line is classified in order: ignorable, section header,
/// or content dispatched to the active section's table — the version
/// handler for the preamble, a no-op for a section the configuration
/// disables.
pub open spec fn line_step(st: ParseStateV, line: Seq<char>, cfg: OsuFileConfig) -> ParseStateV {
    if !st.doc.is_valid {
        st
    } else if is_skippable(line) {
        bump(st)
    } else if is_header(line) {
        let name = header_name(line);
        if name.len() == 0 {
            bump(st)
        } else {
            ParseStateV { ctx: section_of(name), ..bump(st) }
        }
    } else {
        match st.ctx {
            SectionId::Preamble => {
                if !st.seen_version {
                    if contains_seq(line, "osu file format"@) {
                        ParseStateV {
                            doc: OsuFileV { version: spec_trim(line), ..st.doc },
                            seen_version: true,
                            ..bump(st)
                        }
                    } else {
                        ParseStateV { doc: OsuFileV { is_valid: false, ..st.doc }, ..bump(st) }
                    }
                } else {
                    with_diag(st, DiagKind::StrayLine)
                }
            },
            SectionId::General => {
                if cfg.parse_general {
                    let r = general_step(st.doc.general_section, line);
                    ParseStateV {
                        doc: OsuFileV { general_section: r.0, ..st.doc },
                        diags: st.diags + tag(r.1, st.line_no, st.ctx),
                        ..bump(st)
                    }
                } else {
                    bump(st)
                }
            },
            SectionId::Editor => {
                if cfg.parse_editor {
                    let r = editor_step(st.doc.editor_section, line);
                    ParseStateV {
                        doc: OsuFileV { editor_section: r.0, ..st.doc },
                        diags: st.diags + tag(r.1, st.line_no, st.ctx),
                        ..bump(st)
                    }
                } else {
                    bump(st)
                }
            },
            SectionId::Metadata => {
                if cfg.parse_metadata {
                    let r = metadata_step(st.doc.metadata_section, line);
                    ParseStateV {
                        doc: OsuFileV { metadata_section: r.0, ..st.doc },
                        diags: st.diags + tag(r.1, st.line_no, st.ctx),
                        ..bump(st)
                    }
                } else {
                    bump(st)
                }
            },
            SectionId::Difficulty => {
                if cfg.parse_difficulty {
                    let r = difficulty_step(st.doc.difficulty_section, line);
                    ParseStateV {
                        doc: OsuFileV { difficulty_section: r.0, ..st.doc },
                        diags: st.diags + tag(r.1, st.line_no, st.ctx),
                        ..bump(st)
                    }
                } else {
                    bump(st)
                }
            },
            SectionId::Events => {
                if cfg.parse_events {
                    let r = events_step(st.doc.events_section, line);
                    ParseStateV {
                        doc: OsuFileV { events_section: r.0, ..st.doc },
                        diags: st.diags + tag(r.1, st.line_no, st.ctx),
                        ..bump(st)
                    }
                } else {
                    bump(st)
                }
            },
            SectionId::TimingPoints => {
                if cfg.parse_timing_points {
                    let r = timing_step(st.doc.timing_points_section, line);
                    ParseStateV {
                        doc: OsuFileV { timing_points_section: r.0, ..st.doc },
                        diags: st.diags + tag(r.1, st.line_no, st.ctx),
                        ..bump(st)
                    }
                } else {
                    bump(st)
                }
            },
            SectionId::Colours => {
                if cfg.parse_colours {
                    let r = colours_step(st.doc.colours_section, line);
                    ParseStateV {
                        doc: OsuFileV { colours_section: r.0, ..st.doc },
                        diags: st.diags + tag(r.1, st.line_no, st.ctx),
                        ..bump(st)
                    }
                } else {
                    bump(st)
                }
            },
            SectionId::HitObjects => {
                if cfg.parse_hit_objects {
                    let r = hit_step(st.doc.hit_object_section, line);
                    ParseStateV {
                        doc: OsuFileV { hit_object_section: r.0, ..st.doc },
                        diags: st.diags + tag(r.1, st.line_no, st.ctx),
                        ..bump(st)
                    }
                } else {
                    bump(st)
                }
            },
            SectionId::Other => with_diag(st, DiagKind::UnknownSection),
        }
    }
}

/// Folds [`line_step`] over a whole input.
pub open spec fn run_lines(st: ParseStateV, lines: Seq<Seq<char>>, cfg: OsuFileConfig) -> ParseStateV
    decreases lines.len(),
{
    if lines.len() == 0 {
        st
    } else {
        run_lines(line_step(st, lines[0], cfg), lines.drop_first(), cfg)
    }
}

/// The state a parse call starts from: the given document marked valid, the
/// preamble context, no version seen, no diagnostics.
pub open spec fn start_state(doc: OsuFileV) -> ParseStateV {
    ParseStateV {
        doc: OsuFileV { is_valid: true, ..doc },
        ctx: SectionId::Preamble,
        seen_version: false,
        line_no: 0,
        diags: Seq::empty(),
    }
}

/// The full parse of an input from a fresh document.
pub open spec fn spec_parse(lines: Seq<Seq<char>>, cfg: OsuFileConfig) -> ParseStateV {
    run_lines(start_state(doc_default()), lines, cfg)
}

/// A halted state absorbs the rest of the input.
pub proof fn lemma_run_halted(st: ParseStateV, lines: Seq<Seq<char>>, cfg: OsuFileConfig)
    requires
        !st.doc.is_valid,
    ensures
        run_lines(st, lines, cfg) == st,
    decreases lines.len(),
{
    if lines.len() > 0 {
        lemma_run_halted(st, lines.drop_first(), cfg);
    }
}

} // verus!
