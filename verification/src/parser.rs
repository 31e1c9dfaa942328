//! The executable parser, proved equal to the functional model in
//! [`crate::model`].
//!
//! Each section record gets an `apply_line` method implementing that
//! section's table; [`OsuFile::parse`] drives the line state machine over a
//! whole input.

use vstd::prelude::*;

use crate::data::{
    CsvValue, DiagKind, Diagnostic, DiagV, OsuFile, OsuFileBackground, OsuFileColor,
    OsuFileColors, OsuFileCombo, OsuFileConfig, OsuFileDifficulty, OsuFileEditor, OsuFileEvents,
    OsuFileGamemode, OsuFileGeneral, OsuFileHitObject, OsuFileHitObjects, OsuFileMetadata,
    OsuFileOverlayPosition, OsuFileSampleSet, OsuFileTimingPoint, OsuFileTimingPoints,
    OsuFileVideo, SectionId,
};
use crate::model::{
    colours_step, difficulty_step, editor_step, events_step, first_index_of, general_kv_step, general_kv_step_rest, general_step,
    header_name, hit_step, is_header, is_skippable, lemma_first_index_of, lemma_run_halted,
    line_step, metadata_step, run_lines, section_of, spec_kvp, start_state, tag, timing_step,
    ParseStateV,
};
use crate::numbers::{is_decimal_str, parse_i32, parse_i64, parse_i8, parse_u32, parse_u8};
use crate::text::{
    contains_sub, find_char_from, remove_quotes, split_str, spec_split, str_eq, str_eq_lower,
    str_starts_lower, trim, views,
};

verus! {

/// The views of a vector of diagnostics.
pub open spec fn diag_views(ds: Seq<Diagnostic>) -> Seq<DiagV> {
    ds.map_values(|d: Diagnostic| d@)
}

proof fn lemma_diag_views_push(s: Seq<Diagnostic>, d: Diagnostic)
    ensures
        diag_views(s.push(d)) == diag_views(s).push(d@),
{
    assert(diag_views(s.push(d)) =~= diag_views(s).push(d@));
}

proof fn lemma_tag_take_step(ks: Seq<DiagKind>, j: int, line: int, sec: SectionId)
    requires
        0 <= j < ks.len(),
    ensures
        tag(ks.take(j + 1), line, sec) == tag(ks.take(j), line, sec).push(
            DiagV { line: line, section: sec, kind: ks[j] },
        ),
{
    assert(tag(ks.take(j + 1), line, sec) =~= tag(ks.take(j), line, sec).push(
        DiagV { line: line, section: sec, kind: ks[j] },
    ));
}

/// Splits a line at its first colon into a trimmed key and a trimmed
/// value; colons beyond the first stay inside the value.  Mirrors
/// [`spec_kvp`].  The key keeps its case: the section tables match it
/// case-insensitively.
pub fn match_kvp(line: &str) -> (r: Option<(String, String)>)
    ensures
        match r {
            Some(kv) => spec_kvp(line@) == Some((kv.0@, kv.1@)),
            None => spec_kvp(line@) is None,
        },
{
    let n = line.unicode_len();
    match find_char_from(line, 0, ':') {
        None => {
            proof {
                lemma_first_index_of(line@, ':');
                if first_index_of(line@, ':') < line@.len() {
                    assert(false);
                }
            }
            None
        },
        Some(j) => {
            proof {
                lemma_first_index_of(line@, ':');
                let fi = first_index_of(line@, ':');
                if fi < j {
                    assert(line@[fi] != ':');
                    assert(false);
                }
                if fi > j {
                    assert(false);
                }
            }
            let key = trim(line.substring_char(0, j)).to_owned();
            let value = trim(line.substring_char(j + 1, n)).to_owned();
            proof {
                assert(line@.subrange(0, j as int) =~= line@.take(j as int));
                assert(line@.subrange(j + 1, n as int) =~= line@.skip(j + 1));
            }
            Some((key, value))
        },
    }
}

/// Splits a line on commas into raw CSV tokens.
pub fn match_csv(line: &str) -> (r: Vec<CsvValue>)
    ensures
        r@.map_values(|c: CsvValue| c.value@) == spec_split(line@, ','),
{
    let parts = split_str(line, ',');
    let mut out: Vec<CsvValue> = Vec::new();
    let mut i: usize = 0;
    proof {
        assert(out@.map_values(|c: CsvValue| c.value@) =~= views(parts@).take(0));
    }
    while i < parts.len()
        invariant
            0 <= i <= parts.len(),
            views(parts@) == spec_split(line@, ','),
            out@.map_values(|c: CsvValue| c.value@) == views(parts@).take(i as int),
        decreases parts.len() - i,
    {
        let ghost prev = out@;
        let v = parts[i].clone();
        out.push(CsvValue { value: v });
        proof {
            assert(out@ =~= prev.push(out@.last()));
            assert(out@.map_values(|c: CsvValue| c.value@) =~= prev.map_values(
                |c: CsvValue| c.value@,
            ).push(out@.last().value@));
            assert(out@.map_values(|c: CsvValue| c.value@) =~= views(parts@).take(i + 1));
        }
        i = i + 1;
    }
    proof {
        assert(views(parts@).take(parts@.len() as int) =~= views(parts@));
    }
    out
}

impl OsuFileGeneral {
    /// Applies one `[General]` key-value line.
    pub fn apply_line(&mut self, line: &str) -> (ds: Vec<DiagKind>)
        ensures
            final(self)@ == general_step(old(self)@, line@).0,
            ds@ == general_step(old(self)@, line@).1,
    {
        match match_kvp(line) {
            None => {
                let mut ds: Vec<DiagKind> = Vec::new();
                ds.push(DiagKind::MalformedLine);
                proof {
                    assert(ds@ =~= general_step(old(self)@, line@).1);
                }
                ds
            },
            Some((key, value)) => self.apply_kv(key.as_str(), value),
        }
    }

    /// The first half of the `[General]` key table; `key` is matched
    /// case-insensitively.
    fn apply_kv(&mut self, key: &str, value: String) -> (ds: Vec<DiagKind>)
        ensures
            final(self)@ == general_kv_step(old(self)@, crate::text::lower(key@), value@).0,
            ds@ == general_kv_step(old(self)@, crate::text::lower(key@), value@).1,
    {
        let mut ds: Vec<DiagKind> = Vec::new();
        if str_eq_lower(key, "audiofilename") {
            self.audio_file_name = value;
        } else if str_eq_lower(key, "audioleadin") {
            match parse_i32(value.as_str()) {
                Some(n) => {
                    self.audio_lead_in = n;
                },
                None => {
                    ds.push(DiagKind::BadNumber);
                },
            }
        } else if str_eq_lower(key, "previewtime") {
            match parse_i32(value.as_str()) {
                Some(n) => {
                    self.preview_time = n;
                },
                None => {
                    ds.push(DiagKind::BadNumber);
                },
            }
        } else if str_eq_lower(key, "countdown") {
            match parse_u32(value.as_str()) {
                Some(n) => {
                    self.countdown = n;
                },
                None => {
                    ds.push(DiagKind::BadNumber);
                },
            }
        } else if str_eq_lower(key, "sampleset") {
            self.sample_set = OsuFileSampleSet::from_name(value.as_str());
        } else if str_eq_lower(key, "stackleniency") {
            if is_decimal_str(value.as_str()) {
                self.stack_leniency = value;
            } else {
                ds.push(DiagKind::BadNumber);
            }
        } else if str_eq_lower(key, "mode") {
            match parse_u32(value.as_str()) {
                Some(n) => {
                    self.mode = OsuFileGamemode::from_u32(n);
                },
                None => {
                    ds.push(DiagKind::BadNumber);
                },
            }
        } else if str_eq_lower(key, "letterboxinbreaks") {
            self.letterbox_in_breaks = str_eq(value.as_str(), "1");
        } else {
            return self.apply_kv_rest(key, value);
        }
        proof {
            assert(self@ =~= general_kv_step(old(self)@, crate::text::lower(key@), value@).0);
            assert(ds@ =~= general_kv_step(old(self)@, crate::text::lower(key@), value@).1);
        }
        ds
    }

    /// The second half of the `[General]` key table.
    fn apply_kv_rest(&mut self, key: &str, value: String) -> (ds: Vec<DiagKind>)
        requires
            crate::text::lower(key@) != "audiofilename"@,
            crate::text::lower(key@) != "audioleadin"@,
            crate::text::lower(key@) != "previewtime"@,
            crate::text::lower(key@) != "countdown"@,
            crate::text::lower(key@) != "sampleset"@,
            crate::text::lower(key@) != "stackleniency"@,
            crate::text::lower(key@) != "mode"@,
            crate::text::lower(key@) != "letterboxinbreaks"@,
        ensures
            final(self)@ == general_kv_step(old(self)@, crate::text::lower(key@), value@).0,
            ds@ == general_kv_step(old(self)@, crate::text::lower(key@), value@).1,
    {
        let mut ds: Vec<DiagKind> = Vec::new();
        if str_eq_lower(key, "useskinsprites") {
            self.use_skin_sprites = str_eq(value.as_str(), "1");
        } else if str_eq_lower(key, "overlayposition") {
            match OsuFileOverlayPosition::from_name(value.as_str()) {
                Some(o) => {
                    self.overlay_position = o;
                },
                None => {
                    ds.push(DiagKind::BadEnum);
                },
            }
        } else if str_eq_lower(key, "skinpreference") {
            self.skin_preference = value;
        } else if str_eq_lower(key, "epilepsywarning") {
            self.epilepsy_warning = str_eq(value.as_str(), "1");
        } else if str_eq_lower(key, "countdownoffset") {
            match parse_u32(value.as_str()) {
                Some(n) => {
                    self.countdown_offset = n;
                },
                None => {
                    ds.push(DiagKind::BadNumber);
                },
            }
        } else if str_eq_lower(key, "specialstyle") {
            self.special_style = str_eq(value.as_str(), "1");
        } else if str_eq_lower(key, "widescreenstoryboard") {
            self.widescreen_storyboard = str_eq(value.as_str(), "1");
        } else if str_eq_lower(key, "samplesmatchplaybackrate") {
            self.samples_match_playback_rate = str_eq(value.as_str(), "1");
        } else {
            ds.push(DiagKind::UnknownKey);
        }
        proof {
            assert(self@ =~= general_kv_step_rest(
                old(self)@,
                crate::text::lower(key@),
                value@,
            ).0);
            assert(ds@ =~= general_kv_step_rest(
                old(self)@,
                crate::text::lower(key@),
                value@,
            ).1);
        }
        ds
    }
}

impl OsuFileEditor {
    /// Applies one `[Editor]` key-value line.
    pub fn apply_line(&mut self, line: &str) -> (ds: Vec<DiagKind>)
        ensures
            final(self)@ == editor_step(old(self)@, line@).0,
            ds@ == editor_step(old(self)@, line@).1,
    {
        let mut ds: Vec<DiagKind> = Vec::new();
        match match_kvp(line) {
            None => {
                ds.push(DiagKind::MalformedLine);
            },
            Some((key, value)) => {
                let k = key.as_str();
                if str_eq_lower(k, "bookmarks") {
                    self.bookmarks = value;
                } else if str_eq_lower(k, "distancespacing") {
                    if is_decimal_str(value.as_str()) {
                        self.distance_spacing = value;
                    } else {
                        ds.push(DiagKind::BadNumber);
                    }
                } else if str_eq_lower(k, "beatdivisor") {
                    if is_decimal_str(value.as_str()) {
                        self.beat_divisor = value;
                    } else {
                        ds.push(DiagKind::BadNumber);
                    }
                } else if str_eq_lower(k, "gridsize") {
                    match parse_u32(value.as_str()) {
                        Some(n) => {
                            self.grid_size = n;
                        },
                        None => {
                            ds.push(DiagKind::BadNumber);
                        },
                    }
                } else if str_eq_lower(k, "timelinezoom") {
                    if is_decimal_str(value.as_str()) {
                        self.timeline_zoom = value;
                    } else {
                        ds.push(DiagKind::BadNumber);
                    }
                } else {
                    ds.push(DiagKind::UnknownKey);
                }
            },
        }
        proof {
            assert(self@ =~= editor_step(old(self)@, line@).0);
            assert(ds@ =~= editor_step(old(self)@, line@).1);
        }
        ds
    }
}

impl OsuFileMetadata {
    /// Applies one `[Metadata]` key-value line.
    pub fn apply_line(&mut self, line: &str) -> (ds: Vec<DiagKind>)
        ensures
            final(self)@ == metadata_step(old(self)@, line@).0,
            ds@ == metadata_step(old(self)@, line@).1,
    {
        let mut ds: Vec<DiagKind> = Vec::new();
        match match_kvp(line) {
            None => {
                ds.push(DiagKind::MalformedLine);
            },
            Some((key, value)) => {
                let k = key.as_str();
                if str_eq_lower(k, "title") {
                    self.title = value;
                } else if str_eq_lower(k, "titleunicode") {
                    self.title_unicode = value;
                } else if str_eq_lower(k, "artist") {
                    self.artist = value;
                } else if str_eq_lower(k, "artistunicode") {
                    self.artist_unicode = value;
                } else if str_eq_lower(k, "creator") {
                    self.creator = value;
                } else if str_eq_lower(k, "version") {
                    self.version = value;
                } else if str_eq_lower(k, "source") {
                    self.source = value;
                } else if str_eq_lower(k, "tags") {
                    self.tags = value;
                } else if str_eq_lower(k, "beatmapid") {
                    match parse_i64(value.as_str()) {
                        Some(n) => {
                            self.beatmap_id = n;
                        },
                        None => {
                            ds.push(DiagKind::BadNumber);
                        },
                    }
                } else if str_eq_lower(k, "beatmapsetid") {
                    match parse_i64(value.as_str()) {
                        Some(n) => {
                            self.beatmap_set_id = n;
                        },
                        None => {
                            ds.push(DiagKind::BadNumber);
                        },
                    }
                } else {
                    ds.push(DiagKind::UnknownKey);
                }
            },
        }
        proof {
            assert(self@ =~= metadata_step(old(self)@, line@).0);
            assert(ds@ =~= metadata_step(old(self)@, line@).1);
        }
        ds
    }
}

impl OsuFileDifficulty {
    /// Applies one `[Difficulty]` key-value line.
    pub fn apply_line(&mut self, line: &str) -> (ds: Vec<DiagKind>)
        ensures
            final(self)@ == difficulty_step(old(self)@, line@).0,
            ds@ == difficulty_step(old(self)@, line@).1,
    {
        let mut ds: Vec<DiagKind> = Vec::new();
        match match_kvp(line) {
            None => {
                ds.push(DiagKind::MalformedLine);
            },
            Some((key, value)) => {
                let k = key.as_str();
                if str_eq_lower(k, "hpdrainrate") {
                    if is_decimal_str(value.as_str()) {
                        self.hp_drain_rate = value;
                    } else {
                        ds.push(DiagKind::BadNumber);
                    }
                } else if str_eq_lower(k, "circlesize") {
                    if is_decimal_str(value.as_str()) {
                        self.circle_size = value;
                    } else {
                        ds.push(DiagKind::BadNumber);
                    }
                } else if str_eq_lower(k, "overalldifficulty") {
                    if is_decimal_str(value.as_str()) {
                        self.overall_difficulty = value;
                    } else {
                        ds.push(DiagKind::BadNumber);
                    }
                } else if str_eq_lower(k, "approachrate") {
                    if is_decimal_str(value.as_str()) {
                        self.approach_rate = value;
                    } else {
                        ds.push(DiagKind::BadNumber);
                    }
                } else if str_eq_lower(k, "slidermultiplier") {
                    if is_decimal_str(value.as_str()) {
                        self.slider_multiplier = value;
                    } else {
                        ds.push(DiagKind::BadNumber);
                    }
                } else if str_eq_lower(k, "slidertickrate") {
                    if is_decimal_str(value.as_str()) {
                        self.slider_tick_rate = value;
                    } else {
                        ds.push(DiagKind::BadNumber);
                    }
                } else {
                    ds.push(DiagKind::UnknownKey);
                }
            },
        }
        proof {
            assert(self@ =~= difficulty_step(old(self)@, line@).0);
            assert(ds@ =~= difficulty_step(old(self)@, line@).1);
        }
        ds
    }
}

impl OsuFileEvents {
    /// Applies one `[Events]` comma-separated row.
    pub fn apply_line(&mut self, line: &str) -> (ds: Vec<DiagKind>)
        ensures
            final(self)@ == events_step(old(self)@, line@).0,
            ds@ == events_step(old(self)@, line@).1,
    {
        let mut ds: Vec<DiagKind> = Vec::new();
        let toks = split_str(line, ',');
        proof {
            crate::text::lemma_split_len(line@, ',');
            assert(toks@.len() == views(toks@).len());
            assert(views(toks@)[0] == toks@[0]@);
        }
        let kind = toks[0].as_str();
        if str_eq(kind, "0") || str_eq(kind, "Background") {
            if toks.len() >= 3 {
                proof {
                    assert(views(toks@)[2] == toks@[2]@);
                }
                let file = remove_quotes(toks[2].as_str());
                let x: i32 = if toks.len() > 3 {
                    proof {
                        assert(views(toks@)[3] == toks@[3]@);
                    }
                    match parse_i32(toks[3].as_str()) {
                        Some(v) => v,
                        None => {
                            ds.push(DiagKind::BadNumber);
                            0
                        },
                    }
                } else {
                    0
                };
                let y: i32 = if toks.len() > 4 {
                    proof {
                        assert(views(toks@)[4] == toks@[4]@);
                    }
                    match parse_i32(toks[4].as_str()) {
                        Some(v) => v,
                        None => {
                            ds.push(DiagKind::BadNumber);
                            0
                        },
                    }
                } else {
                    0
                };
                self.background = OsuFileBackground {
                    exists: true,
                    file_name: file,
                    x_offset: x,
                    y_offset: y,
                };
            } else {
                ds.push(DiagKind::MalformedLine);
            }
        } else if str_eq(kind, "1") || str_eq(kind, "Video") {
            if toks.len() >= 3 {
                proof {
                    assert(views(toks@)[1] == toks@[1]@);
                    assert(views(toks@)[2] == toks@[2]@);
                }
                let t: i32 = match parse_i32(toks[1].as_str()) {
                    Some(v) => v,
                    None => {
                        ds.push(DiagKind::BadNumber);
                        0
                    },
                };
                let file = remove_quotes(toks[2].as_str());
                let x: i32 = if toks.len() > 3 {
                    proof {
                        assert(views(toks@)[3] == toks@[3]@);
                    }
                    match parse_i32(toks[3].as_str()) {
                        Some(v) => v,
                        None => {
                            ds.push(DiagKind::BadNumber);
                            0
                        },
                    }
                } else {
                    0
                };
                let y: i32 = if toks.len() > 4 {
                    proof {
                        assert(views(toks@)[4] == toks@[4]@);
                    }
                    match parse_i32(toks[4].as_str()) {
                        Some(v) => v,
                        None => {
                            ds.push(DiagKind::BadNumber);
                            0
                        },
                    }
                } else {
                    0
                };
                self.video = OsuFileVideo {
                    exists: true,
                    start_time: t,
                    file_name: file,
                    x_offset: x,
                    y_offset: y,
                };
            } else {
                ds.push(DiagKind::MalformedLine);
            }
        } else {
            ds.push(DiagKind::UnknownEvent);
        }
        proof {
            assert(self@ =~= events_step(old(self)@, line@).0);
            assert(ds@ =~= events_step(old(self)@, line@).1);
        }
        ds
    }
}

impl OsuFileTimingPoints {
    /// Applies one `[TimingPoints]` comma-separated row; every row appends
    /// a timing point, with failed tokens left at their defaults.
    #[verifier::rlimit(80)]
    pub fn apply_line(&mut self, line: &str) -> (ds: Vec<DiagKind>)
        ensures
            final(self)@ == timing_step(old(self)@, line@).0,
            ds@ == timing_step(old(self)@, line@).1,
    {
        let mut ds: Vec<DiagKind> = Vec::new();
        let toks = split_str(line, ',');
        let mut tp = OsuFileTimingPoint::default();
        proof {
            assert(forall|i: int|
                0 <= i < toks@.len() ==> views(toks@)[i] == #[trigger] toks@[i]@);
        }
        if toks.len() > 0 {
            if is_decimal_str(toks[0].as_str()) {
                tp.time = toks[0].clone();
            } else {
                ds.push(DiagKind::BadNumber);
            }
        }
        if toks.len() > 1 {
            if is_decimal_str(toks[1].as_str()) {
                tp.beat_length = toks[1].clone();
            } else {
                ds.push(DiagKind::BadNumber);
            }
        }
        if toks.len() > 2 {
            match parse_i32(toks[2].as_str()) {
                Some(n) => {
                    tp.meter = n;
                },
                None => {
                    ds.push(DiagKind::BadNumber);
                },
            }
        }
        if toks.len() > 3 {
            match parse_u32(toks[3].as_str()) {
                Some(n) => {
                    tp.sample_set = OsuFileSampleSet::from_u32(n);
                },
                None => {
                    ds.push(DiagKind::BadNumber);
                },
            }
        }
        if toks.len() > 4 {
            match parse_i32(toks[4].as_str()) {
                Some(n) => {
                    tp.sample_index = n;
                },
                None => {
                    ds.push(DiagKind::BadNumber);
                },
            }
        }
        if toks.len() > 5 {
            match parse_i32(toks[5].as_str()) {
                Some(n) => {
                    tp.volume = n;
                },
                None => {
                    ds.push(DiagKind::BadNumber);
                },
            }
        }
        if toks.len() > 6 {
            tp.uninherited = str_eq(toks[6].as_str(), "1") || str_eq(toks[6].as_str(), "true");
        }
        if toks.len() > 7 {
            match parse_i32(toks[7].as_str()) {
                Some(n) => {
                    tp.effects = n;
                },
                None => {
                    ds.push(DiagKind::BadNumber);
                },
            }
        }
        proof {
            assert(tp@ =~= crate::model::timing_point_of(spec_split(line@, ',')));
        }
        self.timing_points.push(tp);
        proof {
            assert(self@ =~= timing_step(old(self)@, line@).0);
            assert(ds@ =~= timing_step(old(self)@, line@).1);
        }
        ds
    }
}

impl OsuFileHitObjects {
    /// Applies one `[HitObjects]` comma-separated row; every row appends a
    /// hit object, with failed tokens left at their defaults.
    pub fn apply_line(&mut self, line: &str) -> (ds: Vec<DiagKind>)
        ensures
            final(self)@ == hit_step(old(self)@, line@).0,
            ds@ == hit_step(old(self)@, line@).1,
    {
        let mut ds: Vec<DiagKind> = Vec::new();
        let toks = split_str(line, ',');
        let mut h = OsuFileHitObject::default();
        proof {
            assert(forall|i: int|
                0 <= i < toks@.len() ==> views(toks@)[i] == #[trigger] toks@[i]@);
        }
        if toks.len() > 0 {
            match parse_i32(toks[0].as_str()) {
                Some(n) => {
                    h.x = n;
                },
                None => {
                    ds.push(DiagKind::BadNumber);
                },
            }
        }
        if toks.len() > 1 {
            match parse_i32(toks[1].as_str()) {
                Some(n) => {
                    h.y = n;
                },
                None => {
                    ds.push(DiagKind::BadNumber);
                },
            }
        }
        if toks.len() > 2 {
            match parse_i32(toks[2].as_str()) {
                Some(n) => {
                    h.time = n;
                },
                None => {
                    ds.push(DiagKind::BadNumber);
                },
            }
        }
        if toks.len() > 3 {
            match parse_u8(toks[3].as_str()) {
                Some(n) => {
                    h.hit_sound = n;
                },
                None => {
                    ds.push(DiagKind::BadNumber);
                },
            }
        }
        if toks.len() > 4 {
            h.params = toks[4].clone();
        }
        if toks.len() > 5 {
            h.hit_sample = toks[5].clone();
        }
        proof {
            assert(h@ =~= crate::model::hit_object_of(spec_split(line@, ',')));
        }
        self.hit_objects.push(h);
        proof {
            assert(self@ =~= hit_step(old(self)@, line@).0);
            assert(ds@ =~= hit_step(old(self)@, line@).1);
        }
        ds
    }
}

impl OsuFileColors {
    /// Applies one `[Colours]` key-value line.
    pub fn apply_line(&mut self, line: &str) -> (ds: Vec<DiagKind>)
        ensures
            final(self)@ == colours_step(old(self)@, line@).0,
            ds@ == colours_step(old(self)@, line@).1,
    {
        let mut ds: Vec<DiagKind> = Vec::new();
        match match_kvp(line) {
            None => {
                ds.push(DiagKind::MalformedLine);
            },
            Some((key, value)) => {
                let k = key.as_str();
                proof {
                    reveal_strlit("combo");
                    reveal_strlit("sliderborder");
                    reveal_strlit("slidertrackoverride");
                }
                if str_starts_lower(k, "combo") {
                    let rest = k.substring_char(5, k.unicode_len());
                    proof {
                        assert(rest@ =~= key@.skip(5));
                    }
                    match parse_i8(rest) {
                        Some(idx) => {
                            match OsuFileColor::from_str(value) {
                                Ok(col) => {
                                    self.combo_colors.push(
                                        OsuFileCombo { index: idx, color: col },
                                    );
                                },
                                Err(_) => {
                                    ds.push(DiagKind::BadColor);
                                },
                            }
                        },
                        None => {
                            ds.push(DiagKind::BadNumber);
                        },
                    }
                } else if str_starts_lower(k, "sliderborder") {
                    match OsuFileColor::from_str(value) {
                        Ok(col) => {
                            self.slider_border = col;
                        },
                        Err(_) => {
                            ds.push(DiagKind::BadColor);
                        },
                    }
                } else if str_starts_lower(k, "slidertrackoverride") {
                    match OsuFileColor::from_str(value) {
                        Ok(col) => {
                            self.slider_track_override = col;
                        },
                        Err(_) => {
                            ds.push(DiagKind::BadColor);
                        },
                    }
                } else {
                    ds.push(DiagKind::UnknownKey);
                }
            },
        }
        proof {
            assert(self@ =~= colours_step(old(self)@, line@).0);
            assert(ds@ =~= colours_step(old(self)@, line@).1);
        }
        ds
    }
}

/// Appends every diagnostic kind of one line, tagged with the line index
/// and the section it occurred in.
fn push_tagged(
    diags: &mut Vec<Diagnostic>,
    kinds: &Vec<DiagKind>,
    line: usize,
    section: SectionId,
)
    ensures
        diag_views(final(diags)@) == diag_views(old(diags)@) + tag(
            kinds@,
            line as int,
            section,
        ),
{
    let mut j: usize = 0;
    proof {
        assert(diag_views(diags@) =~= diag_views(old(diags)@) + tag(
            kinds@.take(0),
            line as int,
            section,
        ));
    }
    while j < kinds.len()
        invariant
            0 <= j <= kinds.len(),
            diag_views(diags@) == diag_views(old(diags)@) + tag(
                kinds@.take(j as int),
                line as int,
                section,
            ),
        decreases kinds.len() - j,
    {
        let ghost prev = diags@;
        diags.push(Diagnostic { line, section, kind: kinds[j] });
        proof {
            assert(diags@ =~= prev.push(
                Diagnostic { line: line, section: section, kind: kinds@[j as int] },
            ));
            lemma_diag_views_push(
                prev,
                Diagnostic { line: line, section: section, kind: kinds@[j as int] },
            );
            lemma_tag_take_step(kinds@, j as int, line as int, section);
            assert(diag_views(diags@) =~= diag_views(old(diags)@) + tag(
                kinds@.take(j + 1),
                line as int,
                section,
            ));
        }
        j = j + 1;
    }
    proof {
        assert(kinds@.take(kinds@.len() as int) =~= kinds@);
    }
}

/// Decides which section a header name selects; mirrors [`section_of`].
fn section_id_of(name: &str) -> (r: SectionId)
    ensures
        r == section_of(name@),
{
    if str_eq_lower(name, "general") {
        SectionId::General
    } else if str_eq_lower(name, "editor") {
        SectionId::Editor
    } else if str_eq_lower(name, "metadata") {
        SectionId::Metadata
    } else if str_eq_lower(name, "difficulty") {
        SectionId::Difficulty
    } else if str_eq_lower(name, "events") {
        SectionId::Events
    } else if str_eq_lower(name, "timingpoints") {
        SectionId::TimingPoints
    } else if str_eq_lower(name, "colours") {
        SectionId::Colours
    } else if str_eq_lower(name, "hitobjects") {
        SectionId::HitObjects
    } else {
        SectionId::Other
    }
}

impl OsuFile {
    /// Parses a whole input, one line per element, materializing the
    /// sections `config` selects.
    ///
    /// The result is exactly the functional model: the document equals the
    /// model's document and the returned diagnostics equal the model's
    /// diagnostics, for the run started from this document marked valid.
    /// On a fresh document that is [`crate::model::spec_parse`].
    #[verifier::rlimit(80)]
    pub fn parse(&mut self, lines: &Vec<String>, config: &OsuFileConfig) -> (diags: Vec<
        Diagnostic,
    >)
        ensures
            final(self)@ == run_lines(start_state(old(self)@), views(lines@), *config).doc,
            diag_views(diags@) == run_lines(
                start_state(old(self)@),
                views(lines@),
                *config,
            ).diags,
    {
        let ghost lv = views(lines@);
        let ghost total = run_lines(start_state(old(self)@), lv, *config);
        self.is_valid = true;
        let mut ctx = SectionId::Preamble;
        let mut seen = false;
        let mut diags: Vec<Diagnostic> = Vec::new();
        let mut i: usize = 0;
        proof {
            assert((ParseStateV {
                doc: self@,
                ctx: ctx,
                seen_version: seen,
                line_no: 0,
                diags: diag_views(diags@),
            }) =~= start_state(old(self)@));
            assert(lv.skip(0) =~= lv);
        }
        while i < lines.len() && self.is_valid
            invariant
                0 <= i <= lines.len(),
                lv == views(lines@),
                lv.len() == lines@.len(),
                total == run_lines(start_state(old(self)@), lv, *config),
                run_lines(
                    (ParseStateV {
                        doc: self@,
                        ctx: ctx,
                        seen_version: seen,
                        line_no: i as int,
                        diags: diag_views(diags@),
                    }),
                    lv.skip(i as int),
                    *config,
                ) == total,
            decreases lines.len() - i,
        {
            let ghost st0 = ParseStateV {
                doc: self@,
                ctx: ctx,
                seen_version: seen,
                line_no: i as int,
                diags: diag_views(diags@),
            };
            let ghost l = lv[i as int];
            proof {
                assert(lv[i as int] == lines@[i as int]@);
                assert(lv.skip(i as int)[0] == lv[i as int]);
                assert(lv.skip(i as int).drop_first() =~= lv.skip(i + 1));
            }
            let ghost st1 = line_step(st0, l, *config);
            let line = lines[i].as_str();
            let n = line.unicode_len();
            let tr = trim(line);
            proof {
                reveal_strlit("//");
            }
            let is_comment = n >= 2 && crate::text::matches_at(line, 0, "//");
            proof {
                if is_comment {
                    assert(line@.take(2) =~= line@.subrange(0, "//"@.len() as int));
                }
                if n >= 2 && line@.take(2) == "//"@ {
                    assert(line@.subrange(0, "//"@.len() as int) =~= line@.take(2));
                }
            }
            if tr.unicode_len() == 0 || is_comment {
                proof {
                    assert(is_skippable(l));
                    assert((ParseStateV {
                        doc: self@,
                        ctx: ctx,
                        seen_version: seen,
                        line_no: i + 1,
                        diags: diag_views(diags@),
                    }) =~= st1);
                }
            } else if n >= 1 && line.get_char(0) == '[' && line.get_char(n - 1) == ']' {
                proof {
                    assert(is_header(l));
                }
                match find_char_from(line, 1, ']') {
                    Some(j) => {
                        proof {
                            lemma_first_index_of(line@.skip(1), ']');
                            let body = line@.skip(1);
                            let fi = first_index_of(body, ']');
                            assert(body[j - 1] == ']');
                            if fi < j - 1 {
                                assert(line@[fi + 1] == ']');
                                assert(false);
                            }
                            if fi > j - 1 {
                                assert(body[j - 1] != ']');
                                assert(false);
                            }
                            assert(header_name(l) == body.take(j - 1));
                        }
                        if j > 1 {
                            let name = line.substring_char(1, j);
                            proof {
                                assert(name@ =~= line@.skip(1).take(j - 1));
                            }
                            ctx = section_id_of(name);
                        }
                        proof {
                            assert((ParseStateV {
                                doc: self@,
                                ctx: ctx,
                                seen_version: seen,
                                line_no: i + 1,
                                diags: diag_views(diags@),
                            }) =~= st1);
                        }
                    },
                    None => {
                        proof {
                            assert(line@[n - 1] == ']');
                            assert(false);
                        }
                    },
                }
            } else {
                proof {
                    assert(!is_skippable(l));
                    assert(!is_header(l));
                }
                match ctx {
                    SectionId::Preamble => {
                        if !seen {
                            if contains_sub(line, "osu file format") {
                                self.version = tr.to_owned();
                                seen = true;
                            } else {
                                self.is_valid = false;
                            }
                        } else {
                            diags.push(
                                Diagnostic {
                                    line: i,
                                    section: ctx,
                                    kind: DiagKind::StrayLine,
                                },
                            );
                            proof {
                                assert(diag_views(diags@) =~= st0.diags.push(
                                    DiagV {
                                        line: i as int,
                                        section: ctx,
                                        kind: DiagKind::StrayLine,
                                    },
                                ));
                            }
                        }
                    },
                    SectionId::General => {
                        if config.parse_general {
                            let ds = self.general_section.apply_line(line);
                            push_tagged(&mut diags, &ds, i, ctx);
                        }
                    },
                    SectionId::Editor => {
                        if config.parse_editor {
                            let ds = self.editor_section.apply_line(line);
                            push_tagged(&mut diags, &ds, i, ctx);
                        }
                    },
                    SectionId::Metadata => {
                        if config.parse_metadata {
                            let ds = self.metadata_section.apply_line(line);
                            push_tagged(&mut diags, &ds, i, ctx);
                        }
                    },
                    SectionId::Difficulty => {
                        if config.parse_difficulty {
                            let ds = self.difficulty_section.apply_line(line);
                            push_tagged(&mut diags, &ds, i, ctx);
                        }
                    },
                    SectionId::Events => {
                        if config.parse_events {
                            let ds = self.events_section.apply_line(line);
                            push_tagged(&mut diags, &ds, i, ctx);
                        }
                    },
                    SectionId::TimingPoints => {
                        if config.parse_timing_points {
                            let ds = self.timing_points_section.apply_line(line);
                            push_tagged(&mut diags, &ds, i, ctx);
                        }
                    },
                    SectionId::Colours => {
                        if config.parse_colours {
                            let ds = self.colours_section.apply_line(line);
                            push_tagged(&mut diags, &ds, i, ctx);
                        }
                    },
                    SectionId::HitObjects => {
                        if config.parse_hit_objects {
                            let ds = self.hit_object_section.apply_line(line);
                            push_tagged(&mut diags, &ds, i, ctx);
                        }
                    },
                    SectionId::Other => {
                        diags.push(
                            Diagnostic {
                                line: i,
                                section: ctx,
                                kind: DiagKind::UnknownSection,
                            },
                        );
                        proof {
                            assert(diag_views(diags@) =~= st0.diags.push(
                                DiagV {
                                    line: i as int,
                                    section: ctx,
                                    kind: DiagKind::UnknownSection,
                                },
                            ));
                        }
                    },
                }
                proof {
                    assert((ParseStateV {
                        doc: self@,
                        ctx: ctx,
                        seen_version: seen,
                        line_no: i + 1,
                        diags: diag_views(diags@),
                    }) =~= st1);
                }
            }
            i = i + 1;
        }
        proof {
            let cur = ParseStateV {
                doc: self@,
                ctx: ctx,
                seen_version: seen,
                line_no: i as int,
                diags: diag_views(diags@),
            };
            if i == lines@.len() {
                assert(lv.skip(i as int) =~= Seq::<Seq<char>>::empty());
                assert(run_lines(cur, lv.skip(i as int), *config) == cur);
            } else {
                lemma_run_halted(cur, lv.skip(i as int), *config);
            }
        }
        diags
    }
}

} // verus!
