//! Input-independent properties of the parser, stated against the
//! functional model and proved once for every input.

use vstd::prelude::*;

use crate::data::{doc_default, DiagKind, GeneralV, OsuFileConfig, OsuFileV, SectionId, TimingPointsV};
use crate::model::{
    first_index_of, general_step, is_header, is_skippable, lemma_first_index_of, lemma_run_halted,
    line_step, run_lines, spec_kvp, spec_parse, start_state, ParseStateV,
};
use crate::text::{contains_seq, lower, spec_trim};

verus! {

/// A key-value line splits at its first colon only: the key is the text
/// before it and the value is everything after it, trimmed, with any
/// further colons kept inside the value.
pub proof fn lemma_kvp_rejoins_value(line: Seq<char>, j: int)
    requires
        0 <= j < line.len(),
        line[j] == ':',
        forall|i: int| 0 <= i < j ==> line[i] != ':',
    ensures
        spec_kvp(line) == Some((spec_trim(line.take(j)), spec_trim(line.skip(j + 1)))),
{
    lemma_first_index_of(line, ':');
    let fi = first_index_of(line, ':');
    if fi < j {
        assert(line[fi] != ':');
        assert(false);
    }
    if fi > j {
        assert(false);
    }
}

/// An unrecognized key in the `[General]` section leaves every field of
/// the record unchanged; the only effect is an unknown-key diagnostic.
pub proof fn lemma_unknown_general_key_ignored(
    g: GeneralV,
    line: Seq<char>,
    key: Seq<char>,
    v: Seq<char>,
)
    requires
        spec_kvp(line) == Some((key, v)),
        lower(key) != "audiofilename"@,
        lower(key) != "audioleadin"@,
        lower(key) != "previewtime"@,
        lower(key) != "countdown"@,
        lower(key) != "sampleset"@,
        lower(key) != "stackleniency"@,
        lower(key) != "mode"@,
        lower(key) != "letterboxinbreaks"@,
        lower(key) != "useskinsprites"@,
        lower(key) != "overlayposition"@,
        lower(key) != "skinpreference"@,
        lower(key) != "epilepsywarning"@,
        lower(key) != "countdownoffset"@,
        lower(key) != "specialstyle"@,
        lower(key) != "widescreenstoryboard"@,
        lower(key) != "samplesmatchplaybackrate"@,
    ensures
        general_step(g, line) == (g, seq![DiagKind::UnknownKey]),
{
}

/// Lifts [`lemma_unknown_general_key_ignored`] to a whole parse step: a
/// line with an unrecognized key never fails the parse — the document,
/// with every previously-set field, is exactly what it was, and the only
/// effect is one tagged diagnostic.
pub proof fn lemma_unknown_general_key_line_harmless(
    st: ParseStateV,
    line: Seq<char>,
    key: Seq<char>,
    v: Seq<char>,
    cfg: OsuFileConfig,
)
    requires
        st.doc.is_valid,
        st.ctx == SectionId::General,
        cfg.parse_general,
        !is_skippable(line),
        !is_header(line),
        spec_kvp(line) == Some((key, v)),
        lower(key) != "audiofilename"@,
        lower(key) != "audioleadin"@,
        lower(key) != "previewtime"@,
        lower(key) != "countdown"@,
        lower(key) != "sampleset"@,
        lower(key) != "stackleniency"@,
        lower(key) != "mode"@,
        lower(key) != "letterboxinbreaks"@,
        lower(key) != "useskinsprites"@,
        lower(key) != "overlayposition"@,
        lower(key) != "skinpreference"@,
        lower(key) != "epilepsywarning"@,
        lower(key) != "countdownoffset"@,
        lower(key) != "specialstyle"@,
        lower(key) != "widescreenstoryboard"@,
        lower(key) != "samplesmatchplaybackrate"@,
    ensures
        line_step(st, line, cfg).doc == st.doc,
        line_step(st, line, cfg).diags == st.diags.push(
            crate::data::DiagV {
                line: st.line_no,
                section: SectionId::General,
                kind: DiagKind::UnknownKey,
            },
        ),
{
    lemma_unknown_general_key_ignored(st.doc.general_section, line, key, v);
    assert(line_step(st, line, cfg).doc =~= st.doc);
    assert(line_step(st, line, cfg).diags =~= st.diags.push(
        crate::data::DiagV {
            line: st.line_no,
            section: SectionId::General,
            kind: DiagKind::UnknownKey,
        },
    ));
}

/// One step never adds a timing point while the section is disabled.
proof fn lemma_step_keeps_timing_points(st: ParseStateV, line: Seq<char>, cfg: OsuFileConfig)
    requires
        !cfg.parse_timing_points,
    ensures
        line_step(st, line, cfg).doc.timing_points_section == st.doc.timing_points_section,
{
}

/// No step of a run adds a timing point while the section is disabled.
proof fn lemma_run_keeps_timing_points(st: ParseStateV, lines: Seq<Seq<char>>, cfg: OsuFileConfig)
    requires
        !cfg.parse_timing_points,
    ensures
        run_lines(st, lines, cfg).doc.timing_points_section == st.doc.timing_points_section,
    decreases lines.len(),
{
    if lines.len() > 0 {
        lemma_step_keeps_timing_points(st, lines[0], cfg);
        lemma_run_keeps_timing_points(line_step(st, lines[0], cfg), lines.drop_first(), cfg);
    }
}

/// With `parse_timing_points` disabled, every `[TimingPoints]` line is
/// consumed without effect: whatever the input holds, the parsed
/// document's timing point sequence is empty.
pub proof fn lemma_timing_points_skipped(lines: Seq<Seq<char>>, cfg: OsuFileConfig)
    requires
        !cfg.parse_timing_points,
    ensures
        spec_parse(lines, cfg).doc.timing_points_section == (TimingPointsV {
            timing_points: Seq::empty(),
        }),
{
    lemma_run_keeps_timing_points(start_state(doc_default()), lines, cfg);
}

/// Skippable lines — blank or comment — advance the line counter and
/// change nothing else.
proof fn lemma_run_skippable_prefix(
    st: ParseStateV,
    lines: Seq<Seq<char>>,
    cfg: OsuFileConfig,
    k: int,
)
    requires
        st.doc.is_valid,
        0 <= k <= lines.len(),
        forall|j: int| 0 <= j < k ==> is_skippable(#[trigger] lines[j]),
    ensures
        run_lines(st, lines, cfg) == run_lines(
            (ParseStateV { line_no: st.line_no + k, ..st }),
            lines.skip(k),
            cfg,
        ),
    decreases k,
{
    if k == 0 {
        assert(lines.skip(0) =~= lines);
        assert((ParseStateV { line_no: st.line_no + 0, ..st }) =~= st);
    } else {
        assert(is_skippable(lines[0]));
        let st1 = line_step(st, lines[0], cfg);
        assert(st1 == (ParseStateV { line_no: st.line_no + 1, ..st }));
        assert forall|j: int| 0 <= j < k - 1 implies is_skippable(
            #[trigger] lines.drop_first()[j],
        ) by {
            assert(lines[j + 1] == lines.drop_first()[j]);
        }
        lemma_run_skippable_prefix(st1, lines.drop_first(), cfg, k - 1);
        assert(lines.drop_first().skip(k - 1) =~= lines.skip(k));
        assert((ParseStateV { line_no: st1.line_no + (k - 1), ..st1 }) =~= (ParseStateV {
            line_no: st.line_no + k,
            ..st
        }));
    }
}

/// Once the version is stored, no later line can change it or invalidate
/// the document.
proof fn lemma_step_keeps_version(st: ParseStateV, line: Seq<char>, cfg: OsuFileConfig)
    requires
        st.doc.is_valid,
        st.seen_version,
    ensures
        line_step(st, line, cfg).doc.is_valid,
        line_step(st, line, cfg).doc.version == st.doc.version,
        line_step(st, line, cfg).seen_version,
{
}

/// A run from a valid, version-bearing state stays valid and keeps its
/// version.
proof fn lemma_run_keeps_version(st: ParseStateV, lines: Seq<Seq<char>>, cfg: OsuFileConfig)
    requires
        st.doc.is_valid,
        st.seen_version,
    ensures
        run_lines(st, lines, cfg).doc.is_valid,
        run_lines(st, lines, cfg).doc.version == st.doc.version,
    decreases lines.len(),
{
    if lines.len() > 0 {
        lemma_step_keeps_version(st, lines[0], cfg);
        lemma_run_keeps_version(line_step(st, lines[0], cfg), lines.drop_first(), cfg);
    }
}

/// A recognized version line is accepted: when the first content line of
/// the input is not a section header and contains the version marker, the
/// parsed document is valid and stores that line, trimmed, as its
/// version — whatever follows.
pub proof fn lemma_version_line_accepted(lines: Seq<Seq<char>>, cfg: OsuFileConfig, k: int)
    requires
        0 <= k < lines.len(),
        forall|j: int| 0 <= j < k ==> is_skippable(#[trigger] lines[j]),
        !is_skippable(lines[k]),
        !is_header(lines[k]),
        contains_seq(lines[k], "osu file format"@),
    ensures
        spec_parse(lines, cfg).doc.is_valid,
        spec_parse(lines, cfg).doc.version == spec_trim(lines[k]),
{
    let st = start_state(doc_default());
    lemma_run_skippable_prefix(st, lines, cfg, k);
    let stk = ParseStateV { line_no: st.line_no + k, ..st };
    let rest = lines.skip(k);
    assert(rest[0] == lines[k]);
    let st1 = line_step(stk, lines[k], cfg);
    assert(st1.doc.version == spec_trim(lines[k]));
    assert(st1.doc.is_valid);
    assert(st1.seen_version);
    assert(rest.drop_first() =~= lines.skip(k + 1));
    lemma_run_keeps_version(st1, rest.drop_first(), cfg);
}

/// A missing version marker is fatal: when the first content line of the
/// input is not a section header and lacks the marker, the parsed document
/// is invalid and holds nothing but defaults — parsing halted at once.
pub proof fn lemma_bad_version_line_rejected(lines: Seq<Seq<char>>, cfg: OsuFileConfig, k: int)
    requires
        0 <= k < lines.len(),
        forall|j: int| 0 <= j < k ==> is_skippable(#[trigger] lines[j]),
        !is_skippable(lines[k]),
        !is_header(lines[k]),
        !contains_seq(lines[k], "osu file format"@),
    ensures
        spec_parse(lines, cfg).doc == (OsuFileV { is_valid: false, ..doc_default() }),
{
    let st = start_state(doc_default());
    lemma_run_skippable_prefix(st, lines, cfg, k);
    let stk = ParseStateV { line_no: st.line_no + k, ..st };
    let rest = lines.skip(k);
    assert(rest[0] == lines[k]);
    let st1 = line_step(stk, lines[k], cfg);
    assert(!st1.doc.is_valid);
    assert(rest.drop_first() =~= lines.skip(k + 1));
    lemma_run_halted(st1, rest.drop_first(), cfg);
    assert(st1.doc =~= (OsuFileV { is_valid: false, ..doc_default() }));
}

/// The preamble context is reserved for the version line alone: a second
/// content line before any section header is a recoverable stray-line
/// diagnostic and leaves the document untouched.
pub proof fn lemma_stray_preamble_line_harmless(st: ParseStateV, line: Seq<char>, cfg: OsuFileConfig)
    requires
        st.doc.is_valid,
        st.seen_version,
        st.ctx == SectionId::Preamble,
        !is_skippable(line),
        !is_header(line),
    ensures
        line_step(st, line, cfg).doc == st.doc,
        line_step(st, line, cfg).diags == st.diags.push(
            crate::data::DiagV {
                line: st.line_no,
                section: SectionId::Preamble,
                kind: DiagKind::StrayLine,
            },
        ),
{
}

} // verus!
