//! The typed document model: one record per recognized section of the
//! beatmap format, the aggregate [`OsuFile`] document, the parse
//! configuration, and the diagnostic records the parser accumulates.
//!
//! Fields that the format defines as decimal fractions (for example
//! `StackLeniency` or a timing point's beat length) are held as their raw
//! decimal text, validated by [`crate::numbers::is_decimal_seq`]; callers
//! that need a binary floating-point value convert outside the library.

use vstd::prelude::*;

use crate::numbers::{dec_val, digit_val, is_digit_seq};

verus! {

/// The game mode a beatmap targets.
#[derive(Clone, Copy, Debug, PartialEq, Eq, Structural)]
pub enum OsuFileGamemode {
    Unknown,
    Osu,
    Taiko,
    Catch,
    Mania,
}

impl Default for OsuFileGamemode {
    /// The mode a document starts with before a `Mode` key is seen.
    fn default() -> (r: Self)
        ensures
            r == OsuFileGamemode::Osu,
    {
        OsuFileGamemode::Osu
    }
}

/// The game mode selected by a numeric code.
pub open spec fn gamemode_from_u32(code: u32) -> OsuFileGamemode {
    if code == 0 {
        OsuFileGamemode::Osu
    } else if code == 1 {
        OsuFileGamemode::Taiko
    } else if code == 2 {
        OsuFileGamemode::Catch
    } else if code == 3 {
        OsuFileGamemode::Mania
    } else {
        OsuFileGamemode::Unknown
    }
}

impl OsuFileGamemode {
    /// Decodes the numeric mode code; any unlisted code is `Unknown`.
    pub fn from_u32(integer: u32) -> (r: OsuFileGamemode)
        ensures
            r == gamemode_from_u32(integer),
    {
        match integer {
            0 => OsuFileGamemode::Osu,
            1 => OsuFileGamemode::Taiko,
            2 => OsuFileGamemode::Catch,
            3 => OsuFileGamemode::Mania,
            _ => OsuFileGamemode::Unknown,
        }
    }
}

/// The sample set a section of hit sounds draws from.
#[derive(Clone, Copy, Debug, PartialEq, Eq, Structural)]
pub enum OsuFileSampleSet {
    Default,
    Normal,
    Soft,
    Drum,
}

impl Default for OsuFileSampleSet {
    /// The sample set a document starts with before a `SampleSet` key is
    /// seen.
    fn default() -> (r: Self)
        ensures
            r == OsuFileSampleSet::Normal,
    {
        OsuFileSampleSet::Normal
    }
}

/// The sample set selected by a numeric code.
pub open spec fn sample_set_from_u32(code: u32) -> OsuFileSampleSet {
    if code == 1 {
        OsuFileSampleSet::Normal
    } else if code == 2 {
        OsuFileSampleSet::Soft
    } else if code == 3 {
        OsuFileSampleSet::Drum
    } else {
        OsuFileSampleSet::Default
    }
}

/// The sample set selected by a case-folded name.  Unrecognized names fall
/// back to the `Default` sentinel rather than failing: an intentional
/// permissive choice of the format.
pub open spec fn sample_set_from_name(s: Seq<char>) -> OsuFileSampleSet {
    let l = crate::text::lower(s);
    if l == "normal"@ || l == "none"@ {
        OsuFileSampleSet::Normal
    } else if l == "soft"@ {
        OsuFileSampleSet::Soft
    } else if l == "drum"@ {
        OsuFileSampleSet::Drum
    } else {
        OsuFileSampleSet::Default
    }
}

impl OsuFileSampleSet {
    /// Decodes the numeric sample-set code; any unlisted code is `Default`.
    pub fn from_u32(integer: u32) -> (r: OsuFileSampleSet)
        ensures
            r == sample_set_from_u32(integer),
    {
        match integer {
            1 => OsuFileSampleSet::Normal,
            2 => OsuFileSampleSet::Soft,
            3 => OsuFileSampleSet::Drum,
            _ => OsuFileSampleSet::Default,
        }
    }

    /// Decodes a sample-set name, case-insensitively.
    pub fn from_name(input: &str) -> (r: OsuFileSampleSet)
        ensures
            r == sample_set_from_name(input@),
    {
        if crate::text::str_eq_lower(input, "normal") || crate::text::str_eq_lower(input, "none") {
            OsuFileSampleSet::Normal
        } else if crate::text::str_eq_lower(input, "soft") {
            OsuFileSampleSet::Soft
        } else if crate::text::str_eq_lower(input, "drum") {
            OsuFileSampleSet::Drum
        } else {
            OsuFileSampleSet::Default
        }
    }
}

/// Where the hit-circle overlay is drawn relative to hit numbers.
#[derive(Clone, Copy, Debug, PartialEq, Eq, Structural)]
pub enum OsuFileOverlayPosition {
    NoChange,
    Below,
    Above,
}

impl Default for OsuFileOverlayPosition {
    /// The overlay position a document starts with.
    fn default() -> (r: Self)
        ensures
            r == OsuFileOverlayPosition::NoChange,
    {
        OsuFileOverlayPosition::NoChange
    }
}

/// The overlay position selected by a case-folded name; an unrecognized
/// name is a genuine field-level parse error, so there is no fallback.
pub open spec fn overlay_from_name(s: Seq<char>) -> Option<OsuFileOverlayPosition> {
    let l = crate::text::lower(s);
    if l == "nochange"@ {
        Some(OsuFileOverlayPosition::NoChange)
    } else if l == "below"@ {
        Some(OsuFileOverlayPosition::Below)
    } else if l == "above"@ {
        Some(OsuFileOverlayPosition::Above)
    } else {
        None
    }
}

impl OsuFileOverlayPosition {
    /// Decodes an overlay-position name, case-insensitively.
    pub fn from_name(input: &str) -> (r: Option<OsuFileOverlayPosition>)
        ensures
            r == overlay_from_name(input@),
    {
        if crate::text::str_eq_lower(input, "nochange") {
            Some(OsuFileOverlayPosition::NoChange)
        } else if crate::text::str_eq_lower(input, "below") {
            Some(OsuFileOverlayPosition::Below)
        } else if crate::text::str_eq_lower(input, "above") {
            Some(OsuFileOverlayPosition::Above)
        } else {
            None
        }
    }
}

/// The `[General]` section: audio and presentation settings.
#[derive(Clone, Debug)]
pub struct OsuFileGeneral {
    pub audio_file_name: String,
    pub audio_lead_in: i32,
    pub preview_time: i32,
    pub countdown: u32,
    pub sample_set: OsuFileSampleSet,
    /// Raw decimal text of the `StackLeniency` value.
    pub stack_leniency: String,
    pub mode: OsuFileGamemode,
    pub letterbox_in_breaks: bool,
    pub use_skin_sprites: bool,
    pub skin_preference: String,
    pub overlay_position: OsuFileOverlayPosition,
    pub epilepsy_warning: bool,
    pub countdown_offset: u32,
    pub special_style: bool,
    pub widescreen_storyboard: bool,
    pub samples_match_playback_rate: bool,
}

/// Spec-level image of [`OsuFileGeneral`].
#[verifier::ext_equal]
pub ghost struct GeneralV {
    pub audio_file_name: Seq<char>,
    pub audio_lead_in: int,
    pub preview_time: int,
    pub countdown: int,
    pub sample_set: OsuFileSampleSet,
    pub stack_leniency: Seq<char>,
    pub mode: OsuFileGamemode,
    pub letterbox_in_breaks: bool,
    pub use_skin_sprites: bool,
    pub skin_preference: Seq<char>,
    pub overlay_position: OsuFileOverlayPosition,
    pub epilepsy_warning: bool,
    pub countdown_offset: int,
    pub special_style: bool,
    pub widescreen_storyboard: bool,
    pub samples_match_playback_rate: bool,
}

impl View for OsuFileGeneral {
    type V = GeneralV;

    open spec fn view(&self) -> GeneralV {
        GeneralV {
            audio_file_name: self.audio_file_name@,
            audio_lead_in: self.audio_lead_in as int,
            preview_time: self.preview_time as int,
            countdown: self.countdown as int,
            sample_set: self.sample_set,
            stack_leniency: self.stack_leniency@,
            mode: self.mode,
            letterbox_in_breaks: self.letterbox_in_breaks,
            use_skin_sprites: self.use_skin_sprites,
            skin_preference: self.skin_preference@,
            overlay_position: self.overlay_position,
            epilepsy_warning: self.epilepsy_warning,
            countdown_offset: self.countdown_offset as int,
            special_style: self.special_style,
            widescreen_storyboard: self.widescreen_storyboard,
            samples_match_playback_rate: self.samples_match_playback_rate,
        }
    }
}

/// The default `[General]` record.
pub open spec fn general_default() -> GeneralV {
    GeneralV {
        audio_file_name: Seq::empty(),
        audio_lead_in: 0,
        preview_time: 0,
        countdown: 0,
        sample_set: OsuFileSampleSet::Normal,
        stack_leniency: Seq::empty(),
        mode: OsuFileGamemode::Osu,
        letterbox_in_breaks: false,
        use_skin_sprites: false,
        skin_preference: Seq::empty(),
        overlay_position: OsuFileOverlayPosition::NoChange,
        epilepsy_warning: false,
        countdown_offset: 0,
        special_style: false,
        widescreen_storyboard: false,
        samples_match_playback_rate: false,
    }
}

impl Default for OsuFileGeneral {
    fn default() -> (r: Self)
        ensures
            r@ == general_default(),
    {
        let r = OsuFileGeneral {
            audio_file_name: String::new(),
            audio_lead_in: 0,
            preview_time: 0,
            countdown: 0,
            sample_set: OsuFileSampleSet::Normal,
            stack_leniency: String::new(),
            mode: OsuFileGamemode::Osu,
            letterbox_in_breaks: false,
            use_skin_sprites: false,
            skin_preference: String::new(),
            overlay_position: OsuFileOverlayPosition::NoChange,
            epilepsy_warning: false,
            countdown_offset: 0,
            special_style: false,
            widescreen_storyboard: false,
            samples_match_playback_rate: false,
        };
        proof {
            assert(r@ =~= general_default());
        }
        r
    }
}

/// The `[Editor]` section: saved editor state.
#[derive(Clone, Debug)]
pub struct OsuFileEditor {
    /// Raw comma-separated bookmark list.
    pub bookmarks: String,
    /// Raw decimal text.
    pub distance_spacing: String,
    /// Raw decimal text.
    pub beat_divisor: String,
    pub grid_size: u32,
    /// Raw decimal text.
    pub timeline_zoom: String,
}

/// Spec-level image of [`OsuFileEditor`].
#[verifier::ext_equal]
pub ghost struct EditorV {
    pub bookmarks: Seq<char>,
    pub distance_spacing: Seq<char>,
    pub beat_divisor: Seq<char>,
    pub grid_size: int,
    pub timeline_zoom: Seq<char>,
}

impl View for OsuFileEditor {
    type V = EditorV;

    open spec fn view(&self) -> EditorV {
        EditorV {
            bookmarks: self.bookmarks@,
            distance_spacing: self.distance_spacing@,
            beat_divisor: self.beat_divisor@,
            grid_size: self.grid_size as int,
            timeline_zoom: self.timeline_zoom@,
        }
    }
}

/// The default `[Editor]` record.
pub open spec fn editor_default() -> EditorV {
    EditorV {
        bookmarks: Seq::empty(),
        distance_spacing: Seq::empty(),
        beat_divisor: Seq::empty(),
        grid_size: 0,
        timeline_zoom: Seq::empty(),
    }
}

impl Default for OsuFileEditor {
    fn default() -> (r: Self)
        ensures
            r@ == editor_default(),
    {
        let r = OsuFileEditor {
            bookmarks: String::new(),
            distance_spacing: String::new(),
            beat_divisor: String::new(),
            grid_size: 0,
            timeline_zoom: String::new(),
        };
        proof {
            assert(r@ =~= editor_default());
        }
        r
    }
}

/// The `[Metadata]` section: titling and identification.
#[derive(Clone, Debug)]
pub struct OsuFileMetadata {
    pub title: String,
    pub title_unicode: String,
    pub artist: String,
    pub artist_unicode: String,
    pub creator: String,
    pub version: String,
    pub source: String,
    pub tags: String,
    pub beatmap_id: i64,
    pub beatmap_set_id: i64,
}

/// Spec-level image of [`OsuFileMetadata`].
#[verifier::ext_equal]
pub ghost struct MetadataV {
    pub title: Seq<char>,
    pub title_unicode: Seq<char>,
    pub artist: Seq<char>,
    pub artist_unicode: Seq<char>,
    pub creator: Seq<char>,
    pub version: Seq<char>,
    pub source: Seq<char>,
    pub tags: Seq<char>,
    pub beatmap_id: int,
    pub beatmap_set_id: int,
}

impl View for OsuFileMetadata {
    type V = MetadataV;

    open spec fn view(&self) -> MetadataV {
        MetadataV {
            title: self.title@,
            title_unicode: self.title_unicode@,
            artist: self.artist@,
            artist_unicode: self.artist_unicode@,
            creator: self.creator@,
            version: self.version@,
            source: self.source@,
            tags: self.tags@,
            beatmap_id: self.beatmap_id as int,
            beatmap_set_id: self.beatmap_set_id as int,
        }
    }
}

/// The default `[Metadata]` record.
pub open spec fn metadata_default() -> MetadataV {
    MetadataV {
        title: Seq::empty(),
        title_unicode: Seq::empty(),
        artist: Seq::empty(),
        artist_unicode: Seq::empty(),
        creator: Seq::empty(),
        version: Seq::empty(),
        source: Seq::empty(),
        tags: Seq::empty(),
        beatmap_id: 0,
        beatmap_set_id: 0,
    }
}

impl Default for OsuFileMetadata {
    fn default() -> (r: Self)
        ensures
            r@ == metadata_default(),
    {
        let r = OsuFileMetadata {
            title: String::new(),
            title_unicode: String::new(),
            artist: String::new(),
            artist_unicode: String::new(),
            creator: String::new(),
            version: String::new(),
            source: String::new(),
            tags: String::new(),
            beatmap_id: 0,
            beatmap_set_id: 0,
        };
        proof {
            assert(r@ =~= metadata_default());
        }
        r
    }
}

/// The `[Difficulty]` section; each value is the raw decimal text of a
/// 0-to-10 difficulty scale.
#[derive(Clone, Debug)]
pub struct OsuFileDifficulty {
    pub hp_drain_rate: String,
    pub circle_size: String,
    pub overall_difficulty: String,
    pub approach_rate: String,
    pub slider_multiplier: String,
    pub slider_tick_rate: String,
}

/// Spec-level image of [`OsuFileDifficulty`].
#[verifier::ext_equal]
pub ghost struct DifficultyV {
    pub hp_drain_rate: Seq<char>,
    pub circle_size: Seq<char>,
    pub overall_difficulty: Seq<char>,
    pub approach_rate: Seq<char>,
    pub slider_multiplier: Seq<char>,
    pub slider_tick_rate: Seq<char>,
}

impl View for OsuFileDifficulty {
    type V = DifficultyV;

    open spec fn view(&self) -> DifficultyV {
        DifficultyV {
            hp_drain_rate: self.hp_drain_rate@,
            circle_size: self.circle_size@,
            overall_difficulty: self.overall_difficulty@,
            approach_rate: self.approach_rate@,
            slider_multiplier: self.slider_multiplier@,
            slider_tick_rate: self.slider_tick_rate@,
        }
    }
}

/// The default `[Difficulty]` record.
pub open spec fn difficulty_default() -> DifficultyV {
    DifficultyV {
        hp_drain_rate: Seq::empty(),
        circle_size: Seq::empty(),
        overall_difficulty: Seq::empty(),
        approach_rate: Seq::empty(),
        slider_multiplier: Seq::empty(),
        slider_tick_rate: Seq::empty(),
    }
}

impl Default for OsuFileDifficulty {
    fn default() -> (r: Self)
        ensures
            r@ == difficulty_default(),
    {
        let r = OsuFileDifficulty {
            hp_drain_rate: String::new(),
            circle_size: String::new(),
            overall_difficulty: String::new(),
            approach_rate: String::new(),
            slider_multiplier: String::new(),
            slider_tick_rate: String::new(),
        };
        proof {
            assert(r@ =~= difficulty_default());
        }
        r
    }
}

/// A background video reference from the `[Events]` section.
#[derive(Clone, Debug)]
pub struct OsuFileVideo {
    pub exists: bool,
    pub start_time: i32,
    pub file_name: String,
    pub x_offset: i32,
    pub y_offset: i32,
}

/// Spec-level image of [`OsuFileVideo`].
#[verifier::ext_equal]
pub ghost struct VideoV {
    pub exists: bool,
    pub start_time: int,
    pub file_name: Seq<char>,
    pub x_offset: int,
    pub y_offset: int,
}

impl View for OsuFileVideo {
    type V = VideoV;

    open spec fn view(&self) -> VideoV {
        VideoV {
            exists: self.exists,
            start_time: self.start_time as int,
            file_name: self.file_name@,
            x_offset: self.x_offset as int,
            y_offset: self.y_offset as int,
        }
    }
}

/// The default video record: absent.
pub open spec fn video_default() -> VideoV {
    VideoV { exists: false, start_time: 0, file_name: Seq::empty(), x_offset: 0, y_offset: 0 }
}

impl Default for OsuFileVideo {
    fn default() -> (r: Self)
        ensures
            r@ == video_default(),
    {
        let r = OsuFileVideo {
            exists: false,
            start_time: 0,
            file_name: String::new(),
            x_offset: 0,
            y_offset: 0,
        };
        proof {
            assert(r@ =~= video_default());
        }
        r
    }
}

/// A background image reference from the `[Events]` section.
#[derive(Clone, Debug)]
pub struct OsuFileBackground {
    pub exists: bool,
    pub file_name: String,
    pub x_offset: i32,
    pub y_offset: i32,
}

/// Spec-level image of [`OsuFileBackground`].
#[verifier::ext_equal]
pub ghost struct BackgroundV {
    pub exists: bool,
    pub file_name: Seq<char>,
    pub x_offset: int,
    pub y_offset: int,
}

impl View for OsuFileBackground {
    type V = BackgroundV;

    open spec fn view(&self) -> BackgroundV {
        BackgroundV {
            exists: self.exists,
            file_name: self.file_name@,
            x_offset: self.x_offset as int,
            y_offset: self.y_offset as int,
        }
    }
}

/// The default background record: absent.
pub open spec fn background_default() -> BackgroundV {
    BackgroundV { exists: false, file_name: Seq::empty(), x_offset: 0, y_offset: 0 }
}

impl Default for OsuFileBackground {
    fn default() -> (r: Self)
        ensures
            r@ == background_default(),
    {
        let r = OsuFileBackground {
            exists: false,
            file_name: String::new(),
            x_offset: 0,
            y_offset: 0,
        };
        proof {
            assert(r@ =~= background_default());
        }
        r
    }
}

/// A gameplay break between two times.
#[derive(Clone, Copy, Debug, PartialEq, Eq, Structural)]
pub struct OsuFileBreakPeriod {
    pub start: u32,
    pub end: u32,
}

impl Default for OsuFileBreakPeriod {
    fn default() -> (r: Self)
        ensures
            r == (OsuFileBreakPeriod { start: 0, end: 0 }),
    {
        OsuFileBreakPeriod { start: 0, end: 0 }
    }
}

/// The `[Events]` section: the background, the video, and break periods.
#[derive(Clone, Debug)]
pub struct OsuFileEvents {
    pub background: OsuFileBackground,
    pub video: OsuFileVideo,
    pub breaks: Vec<OsuFileBreakPeriod>,
}

/// Spec-level image of [`OsuFileEvents`].
#[verifier::ext_equal]
pub ghost struct EventsV {
    pub background: BackgroundV,
    pub video: VideoV,
    pub breaks: Seq<OsuFileBreakPeriod>,
}

impl View for OsuFileEvents {
    type V = EventsV;

    open spec fn view(&self) -> EventsV {
        EventsV { background: self.background@, video: self.video@, breaks: self.breaks@ }
    }
}

/// The default `[Events]` record.
pub open spec fn events_default() -> EventsV {
    EventsV { background: background_default(), video: video_default(), breaks: Seq::empty() }
}

impl Default for OsuFileEvents {
    fn default() -> (r: Self)
        ensures
            r@ == events_default(),
    {
        let r = OsuFileEvents {
            background: OsuFileBackground::default(),
            video: OsuFileVideo::default(),
            breaks: Vec::new(),
        };
        proof {
            assert(r@ =~= events_default());
        }
        r
    }
}

/// One timing point: when it starts and how beats behave from there on.
#[derive(Clone, Debug)]
pub struct OsuFileTimingPoint {
    /// Raw decimal text of the start time.
    pub time: String,
    /// Raw decimal text of the beat length.
    pub beat_length: String,
    pub meter: i32,
    pub sample_set: OsuFileSampleSet,
    pub sample_index: i32,
    pub volume: i32,
    pub uninherited: bool,
    pub effects: i32,
}

/// Spec-level image of [`OsuFileTimingPoint`].
#[verifier::ext_equal]
pub ghost struct TimingPointV {
    pub time: Seq<char>,
    pub beat_length: Seq<char>,
    pub meter: int,
    pub sample_set: OsuFileSampleSet,
    pub sample_index: int,
    pub volume: int,
    pub uninherited: bool,
    pub effects: int,
}

impl View for OsuFileTimingPoint {
    type V = TimingPointV;

    open spec fn view(&self) -> TimingPointV {
        TimingPointV {
            time: self.time@,
            beat_length: self.beat_length@,
            meter: self.meter as int,
            sample_set: self.sample_set,
            sample_index: self.sample_index as int,
            volume: self.volume as int,
            uninherited: self.uninherited,
            effects: self.effects as int,
        }
    }
}

/// The default timing point, before any token of its row is applied.
pub open spec fn timing_point_default() -> TimingPointV {
    TimingPointV {
        time: Seq::empty(),
        beat_length: Seq::empty(),
        meter: 0,
        sample_set: OsuFileSampleSet::Normal,
        sample_index: 0,
        volume: 0,
        uninherited: false,
        effects: 0,
    }
}

impl Default for OsuFileTimingPoint {
    fn default() -> (r: Self)
        ensures
            r@ == timing_point_default(),
    {
        let r = OsuFileTimingPoint {
            time: String::new(),
            beat_length: String::new(),
            meter: 0,
            sample_set: OsuFileSampleSet::Normal,
            sample_index: 0,
            volume: 0,
            uninherited: false,
            effects: 0,
        };
        proof {
            assert(r@ =~= timing_point_default());
        }
        r
    }
}

/// The `[TimingPoints]` section: every timing point row in file order.
#[derive(Clone, Debug)]
pub struct OsuFileTimingPoints {
    pub timing_points: Vec<OsuFileTimingPoint>,
}

/// Spec-level image of [`OsuFileTimingPoints`].
#[verifier::ext_equal]
pub ghost struct TimingPointsV {
    pub timing_points: Seq<TimingPointV>,
}

impl View for OsuFileTimingPoints {
    type V = TimingPointsV;

    open spec fn view(&self) -> TimingPointsV {
        TimingPointsV {
            timing_points: self.timing_points@.map_values(|tp: OsuFileTimingPoint| tp@),
        }
    }
}

/// The default `[TimingPoints]` record: no rows.
pub open spec fn timing_points_default() -> TimingPointsV {
    TimingPointsV { timing_points: Seq::empty() }
}

impl Default for OsuFileTimingPoints {
    fn default() -> (r: Self)
        ensures
            r@ == timing_points_default(),
    {
        let r = OsuFileTimingPoints { timing_points: Vec::new() };
        proof {
            assert(r@ =~= timing_points_default());
        }
        r
    }
}

/// An RGB colour; components are bytes.
#[derive(Clone, Copy, Debug, PartialEq, Eq, Structural)]
pub struct OsuFileColor {
    pub red: u8,
    pub blue: u8,
    pub green: u8,
}

impl Default for OsuFileColor {
    fn default() -> (r: Self)
        ensures
            r == (OsuFileColor { red: 0, blue: 0, green: 0 }),
    {
        OsuFileColor { red: 0, blue: 0, green: 0 }
    }
}

/// The colour encoded by a comma-separated `R,G,B` byte triple, or `None`
/// where the text is not such a triple.
pub open spec fn spec_color(s: Seq<char>) -> Option<OsuFileColor> {
    let toks = crate::text::spec_split(s, ',');
    if toks.len() == 3 && is_byte_tok(toks[0]) && is_byte_tok(toks[1]) && is_byte_tok(toks[2]) {
        Some(
            OsuFileColor {
                red: dec_val(toks[0]) as u8,
                green: dec_val(toks[1]) as u8,
                blue: dec_val(toks[2]) as u8,
            },
        )
    } else {
        None
    }
}

/// Whether a token is a digit run whose value fits in a byte.
pub open spec fn is_byte_tok(t: Seq<char>) -> bool {
    is_digit_seq(t) && dec_val(t) <= u8::MAX
}

impl OsuFileColor {
    /// Parses a comma-separated `R,G,B` byte triple.
    pub fn from_str(input: String) -> (r: Result<OsuFileColor, String>)
        ensures
            match r {
                Ok(c) => spec_color(input@) == Some(c),
                Err(m) => spec_color(input@) is None && m@
                    == "Given string does not represent a color."@,
            },
    {
        let toks = crate::text::split_str(input.as_str(), ',');
        if toks.len() != 3 {
            return Err(String::from_str("Given string does not represent a color."));
        }
        proof {
            assert(crate::text::views(toks@)[0] == toks@[0]@);
            assert(crate::text::views(toks@)[1] == toks@[1]@);
            assert(crate::text::views(toks@)[2] == toks@[2]@);
        }
        let red = crate::numbers::parse_u8(toks[0].as_str());
        let green = crate::numbers::parse_u8(toks[1].as_str());
        let blue = crate::numbers::parse_u8(toks[2].as_str());
        match (red, green, blue) {
            (Some(red), Some(green), Some(blue)) => Ok(
                OsuFileColor { red, green, blue },
            ),
            _ => Err(String::from_str("Given string does not represent a color.")),
        }
    }
}

/// One combo colour: the combo index taken from the key (`Combo1`,
/// `Combo2`, ...) and its colour.
#[derive(Clone, Copy, Debug, PartialEq, Eq, Structural)]
pub struct OsuFileCombo {
    pub index: i8,
    pub color: OsuFileColor,
}

impl Default for OsuFileCombo {
    fn default() -> (r: Self)
        ensures
            r == (OsuFileCombo { index: 0, color: OsuFileColor { red: 0, blue: 0, green: 0 } }),
    {
        OsuFileCombo { index: 0, color: OsuFileColor { red: 0, blue: 0, green: 0 } }
    }
}

/// The `[Colours]` section: combo colours in file order plus the two
/// slider overrides.
#[derive(Clone, Debug)]
pub struct OsuFileColors {
    pub combo_colors: Vec<OsuFileCombo>,
    pub slider_border: OsuFileColor,
    pub slider_track_override: OsuFileColor,
}

/// Spec-level image of [`OsuFileColors`].
#[verifier::ext_equal]
pub ghost struct ColorsV {
    pub combo_colors: Seq<OsuFileCombo>,
    pub slider_border: OsuFileColor,
    pub slider_track_override: OsuFileColor,
}

impl View for OsuFileColors {
    type V = ColorsV;

    open spec fn view(&self) -> ColorsV {
        ColorsV {
            combo_colors: self.combo_colors@,
            slider_border: self.slider_border,
            slider_track_override: self.slider_track_override,
        }
    }
}

/// The default `[Colours]` record.
pub open spec fn colors_default() -> ColorsV {
    ColorsV {
        combo_colors: Seq::empty(),
        slider_border: OsuFileColor { red: 0, blue: 0, green: 0 },
        slider_track_override: OsuFileColor { red: 0, blue: 0, green: 0 },
    }
}

impl Default for OsuFileColors {
    fn default() -> (r: Self)
        ensures
            r@ == colors_default(),
    {
        let r = OsuFileColors {
            combo_colors: Vec::new(),
            slider_border: OsuFileColor { red: 0, blue: 0, green: 0 },
            slider_track_override: OsuFileColor { red: 0, blue: 0, green: 0 },
        };
        proof {
            assert(r@ =~= colors_default());
        }
        r
    }
}

/// One hit object row; the trailing parameter and sample fields are kept
/// as opaque text.
#[derive(Clone, Debug)]
pub struct OsuFileHitObject {
    pub x: i32,
    pub y: i32,
    pub time: i32,
    pub hit_type: u8,
    pub hit_sound: u8,
    pub params: String,
    pub hit_sample: String,
}

/// Spec-level image of [`OsuFileHitObject`].
#[verifier::ext_equal]
pub ghost struct HitObjectV {
    pub x: int,
    pub y: int,
    pub time: int,
    pub hit_type: int,
    pub hit_sound: int,
    pub params: Seq<char>,
    pub hit_sample: Seq<char>,
}

impl View for OsuFileHitObject {
    type V = HitObjectV;

    open spec fn view(&self) -> HitObjectV {
        HitObjectV {
            x: self.x as int,
            y: self.y as int,
            time: self.time as int,
            hit_type: self.hit_type as int,
            hit_sound: self.hit_sound as int,
            params: self.params@,
            hit_sample: self.hit_sample@,
        }
    }
}

/// The default hit object, before any token of its row is applied.
pub open spec fn hit_object_default() -> HitObjectV {
    HitObjectV {
        x: 0,
        y: 0,
        time: 0,
        hit_type: 0,
        hit_sound: 0,
        params: Seq::empty(),
        hit_sample: Seq::empty(),
    }
}

impl Default for OsuFileHitObject {
    fn default() -> (r: Self)
        ensures
            r@ == hit_object_default(),
    {
        let r = OsuFileHitObject {
            x: 0,
            y: 0,
            time: 0,
            hit_type: 0,
            hit_sound: 0,
            params: String::new(),
            hit_sample: String::new(),
        };
        proof {
            assert(r@ =~= hit_object_default());
        }
        r
    }
}

/// The `[HitObjects]` section: every hit object row in file order.
#[derive(Clone, Debug)]
pub struct OsuFileHitObjects {
    pub hit_objects: Vec<OsuFileHitObject>,
}

/// Spec-level image of [`OsuFileHitObjects`].
#[verifier::ext_equal]
pub ghost struct HitObjectsV {
    pub hit_objects: Seq<HitObjectV>,
}

impl View for OsuFileHitObjects {
    type V = HitObjectsV;

    open spec fn view(&self) -> HitObjectsV {
        HitObjectsV { hit_objects: self.hit_objects@.map_values(|h: OsuFileHitObject| h@) }
    }
}

/// The default `[HitObjects]` record: no rows.
pub open spec fn hit_objects_default() -> HitObjectsV {
    HitObjectsV { hit_objects: Seq::empty() }
}

impl Default for OsuFileHitObjects {
    fn default() -> (r: Self)
        ensures
            r@ == hit_objects_default(),
    {
        let r = OsuFileHitObjects { hit_objects: Vec::new() };
        proof {
            assert(r@ =~= hit_objects_default());
        }
        r
    }
}

/// The whole parsed document.
#[derive(Clone, Debug)]
pub struct OsuFile {
    /// The trimmed version line, e.g. `osu file format v14`.
    pub version: String,
    /// False when the input failed the version check; such a document must
    /// not be used for any decision.
    pub is_valid: bool,
    pub general_section: OsuFileGeneral,
    pub editor_section: OsuFileEditor,
    pub metadata_section: OsuFileMetadata,
    pub difficulty_section: OsuFileDifficulty,
    pub events_section: OsuFileEvents,
    pub timing_points_section: OsuFileTimingPoints,
    pub colours_section: OsuFileColors,
    pub hit_object_section: OsuFileHitObjects,
}

/// Spec-level image of [`OsuFile`].
#[verifier::ext_equal]
pub ghost struct OsuFileV {
    pub version: Seq<char>,
    pub is_valid: bool,
    pub general_section: GeneralV,
    pub editor_section: EditorV,
    pub metadata_section: MetadataV,
    pub difficulty_section: DifficultyV,
    pub events_section: EventsV,
    pub timing_points_section: TimingPointsV,
    pub colours_section: ColorsV,
    pub hit_object_section: HitObjectsV,
}

impl View for OsuFile {
    type V = OsuFileV;

    open spec fn view(&self) -> OsuFileV {
        OsuFileV {
            version: self.version@,
            is_valid: self.is_valid,
            general_section: self.general_section@,
            editor_section: self.editor_section@,
            metadata_section: self.metadata_section@,
            difficulty_section: self.difficulty_section@,
            events_section: self.events_section@,
            timing_points_section: self.timing_points_section@,
            colours_section: self.colours_section@,
            hit_object_section: self.hit_object_section@,
        }
    }
}

/// The default document: empty version, not yet validated, every section
/// at its defaults.
pub open spec fn doc_default() -> OsuFileV {
    OsuFileV {
        version: Seq::empty(),
        is_valid: false,
        general_section: general_default(),
        editor_section: editor_default(),
        metadata_section: metadata_default(),
        difficulty_section: difficulty_default(),
        events_section: events_default(),
        timing_points_section: timing_points_default(),
        colours_section: colors_default(),
        hit_object_section: hit_objects_default(),
    }
}

impl Default for OsuFile {
    fn default() -> (r: Self)
        ensures
            r@ == doc_default(),
    {
        let r = OsuFile {
            version: String::new(),
            is_valid: false,
            general_section: OsuFileGeneral::default(),
            editor_section: OsuFileEditor::default(),
            metadata_section: OsuFileMetadata::default(),
            difficulty_section: OsuFileDifficulty::default(),
            events_section: OsuFileEvents::default(),
            timing_points_section: OsuFileTimingPoints::default(),
            colours_section: OsuFileColors::default(),
            hit_object_section: OsuFileHitObjects::default(),
        };
        proof {
            assert(r@ =~= doc_default());
        }
        r
    }
}

impl OsuFile {
    /// A fresh, unparsed document.
    pub fn new() -> (r: OsuFile)
        ensures
            r@ == doc_default(),
    {
        OsuFile::default()
    }
}

/// Which sections a parse call materializes; disabled sections have their
/// lines consumed without effect.
#[derive(Clone, Copy, Debug)]
pub struct OsuFileConfig {
    pub parse_general: bool,
    pub parse_editor: bool,
    pub parse_metadata: bool,
    pub parse_difficulty: bool,
    pub parse_events: bool,
    pub parse_timing_points: bool,
    pub parse_colours: bool,
    pub parse_hit_objects: bool,
}

impl Default for OsuFileConfig {
    /// The two expensive, rarely needed sections are opt-in; the rest are
    /// parsed by default.
    fn default() -> (r: Self)
        ensures
            r == (OsuFileConfig {
                parse_general: true,
                parse_editor: true,
                parse_metadata: true,
                parse_difficulty: true,
                parse_events: true,
                parse_timing_points: false,
                parse_colours: true,
                parse_hit_objects: false,
            }),
    {
        OsuFileConfig {
            parse_general: true,
            parse_editor: true,
            parse_metadata: true,
            parse_difficulty: true,
            parse_events: true,
            parse_timing_points: false,
            parse_colours: true,
            parse_hit_objects: false,
        }
    }
}

/// One raw comma-separated token.
#[derive(Clone, Debug)]
pub struct CsvValue {
    pub value: String,
}

impl CsvValue {
    /// The token as a `u32`; the token must be a plain digit run in range.
    pub fn to_u32(&self) -> (r: u32)
        requires
            is_digit_seq(self.value@),
            dec_val(self.value@) <= u32::MAX,
        ensures
            r == dec_val(self.value@),
    {
        proof {
            crate::numbers::lemma_dec_val_nonneg(self.value@);
        }
        crate::numbers::parse_u32(self.value.as_str()).unwrap()
    }

    /// The token as a `u8`; the token must be a plain digit run in range.
    pub fn to_u8(&self) -> (r: u8)
        requires
            is_digit_seq(self.value@),
            dec_val(self.value@) <= u8::MAX,
        ensures
            r == dec_val(self.value@),
    {
        proof {
            crate::numbers::lemma_dec_val_nonneg(self.value@);
        }
        crate::numbers::parse_u8(self.value.as_str()).unwrap()
    }

    /// The token as an `i32`; the token must be an optionally negated digit
    /// run in range.
    pub fn to_i32(&self) -> (r: i32)
        requires
            crate::numbers::is_int_seq(self.value@),
            i32::MIN <= crate::numbers::int_val(self.value@) <= i32::MAX,
        ensures
            r == crate::numbers::int_val(self.value@),
    {
        crate::numbers::parse_i32(self.value.as_str()).unwrap()
    }

    /// The token read as a boolean: `"1"` and `"true"` are true, `"0"`,
    /// `"false"` and anything else are false.
    pub fn to_bool(&self) -> (r: bool)
        ensures
            r == bool_tok(self.value@),
    {
        proof {
            reveal_strlit("0");
            reveal_strlit("1");
            reveal_strlit("true");
            reveal_strlit("false");
            assert("0"@[0] == '0' && "1"@[0] == '1');
            assert("0"@.len() == 1 && "1"@.len() == 1 && "true"@.len() == 4 && "false"@.len()
                == 5);
            assert("0"@ != "1"@ && "0"@ != "true"@ && "false"@ != "1"@ && "false"@ != "true"@);
        }
        if crate::text::str_eq(self.value.as_str(), "0") || crate::text::str_eq(
            self.value.as_str(),
            "false",
        ) {
            false
        } else if crate::text::str_eq(self.value.as_str(), "1") || crate::text::str_eq(
            self.value.as_str(),
            "true",
        ) {
            true
        } else {
            false
        }
    }
}

/// The boolean a CSV token denotes; only `"1"` and `"true"` are true.
pub open spec fn bool_tok(s: Seq<char>) -> bool {
    s == "1"@ || s == "true"@
}

/// The section context a header line selects.
#[derive(Clone, Copy, Debug, PartialEq, Eq, Structural)]
pub enum SectionId {
    /// Before any section header; reserved for the version line.
    Preamble,
    General,
    Editor,
    Metadata,
    Difficulty,
    Events,
    TimingPoints,
    Colours,
    HitObjects,
    /// A section this parser does not recognize.
    Other,
}

/// The kind of a recoverable parse diagnostic.
#[derive(Clone, Copy, Debug, PartialEq, Eq, Structural)]
pub enum DiagKind {
    /// A key-value line without a colon.
    MalformedLine,
    /// A well-formed key-value line whose key no table entry matches.
    UnknownKey,
    /// A numeric field whose text is not a numeral in range.
    BadNumber,
    /// An enum field whose text names no variant.
    BadEnum,
    /// A colour value that is not an `R,G,B` byte triple.
    BadColor,
    /// An event row whose kind token is not recognized.
    UnknownEvent,
    /// A content line inside an unrecognized section.
    UnknownSection,
    /// A content line before the first header after the version was read.
    StrayLine,
}

/// One recoverable diagnostic: the offending line's index, the section
/// context it occurred in, and what went wrong.
#[derive(Clone, Copy, Debug, PartialEq, Eq, Structural)]
pub struct Diagnostic {
    pub line: usize,
    pub section: SectionId,
    pub kind: DiagKind,
}

/// Spec-level image of [`Diagnostic`].
#[verifier::ext_equal]
pub ghost struct DiagV {
    pub line: int,
    pub section: SectionId,
    pub kind: DiagKind,
}

impl View for Diagnostic {
    type V = DiagV;

    open spec fn view(&self) -> DiagV {
        DiagV { line: self.line as int, section: self.section, kind: self.kind }
    }
}

} // verus!
