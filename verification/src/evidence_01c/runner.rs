//! The identity of an evidence run: which candidate variants it compares, the
//! work package it belongs to, and the predecessor evidence it supersedes.
use vstd::prelude::*;
use crate::evidence_01c::types::{InvalidPredecessorEvidence, InvalidPredecessorEvidenceView};
use crate::model::vec_view;
use crate::evidence_01c::measurement_transitions::{push_zero_padded, zero_padded_spec};
use crate::text::{contains_text, contains_text_spec, decimal_spec, push_char, push_decimal_wide, str_eq};

verus! {

/// The harness commit of the first invalid predecessor run.
pub const INVALID_PREDECESSOR_HARNESS_SHA: &'static str = "970b3c38bfbf07fd9750df93b285527b73beb43c";
/// The evidence record of the first invalid predecessor run.
pub const INVALID_PREDECESSOR_EVIDENCE_SHA: &'static str = "5b446b430f358d3da821461775cc50efe0943033";
/// The harness commit of the first correction.
pub const CORRECTION_01_HARNESS_SHA: &'static str = "b2569a022856f3cbfecdbdb950bc32584741a9a3";
/// The default harness commit of the second correction.
pub const CORRECTION_02_HARNESS_SHA: &'static str = "629bb916a33bee839e24db62d7aea28486bf5790";
/// The default evidence record of the second correction.
pub const CORRECTION_02_EVIDENCE_SHA: &'static str = "e487a0bbaa4e75ac088e47bb48715b453afe82d9";
/// The harness commit of the third correction.
pub const CORRECTION_03_HARNESS_SHA: &'static str = "6adb73198813bb8d9d9b7924b8759294a198f8ff";
/// The harness commit of the fourth correction.
pub const CORRECTION_04_V4_HARNESS_SHA: &'static str = "21f2eb2a7254ca0bcc1ce5f9e93e7f4445b08004";
/// The work package of a run over the historical candidates.
pub const WORK_PACKAGE_ID: &'static str = "VP-GATE4-01C-READINESS-SEPARATION-CORRECTION-05";
/// The work package of a run over the scoped append candidate.
pub const APPEND_01B3_EVIDENCE_WORK_PACKAGE_ID: &'static str = "VP-GATE4-APPEND-01B-3-EVIDENCE-EXECUTION-01";
/// The work package of a run over both scoped candidates.
pub const DUAL_SCOPED_EVIDENCE_WORK_PACKAGE_ID: &'static str = "VP-GATE4-FCR03-OBSERVATION-WIRING-DUAL-SCOPED-EVIDENCE-01";

/// Which append candidate a run measures.
#[derive(Debug, Clone, Copy, PartialEq, Eq, Structural)]
pub enum AppendEvidenceVariant {
    Historical01B2,
    Scoped01B3,
}

/// Which SQLite candidate a run measures.
#[derive(Debug, Clone, Copy, PartialEq, Eq, Structural)]
pub enum SqliteEvidenceVariant {
    Historical01CSqlite2,
    Scoped01CSqlite3,
}

impl AppendEvidenceVariant {
    /// The variant a configuration label selects: the scoped candidate for
    /// `01B-3`, `01b-3` or `append-01b3`, else the historical one.
    pub fn from_label(label: Option<&str>) -> (r: Self)
        ensures
            r == (match label {
                Some(l) => if l@ == "01B-3"@ || l@ == "01b-3"@ || l@ == "append-01b3"@ {
                    AppendEvidenceVariant::Scoped01B3
                } else {
                    AppendEvidenceVariant::Historical01B2
                },
                None => AppendEvidenceVariant::Historical01B2,
            }),
    {
        match label {
            Some(l) => if str_eq(l, "01B-3") || str_eq(l, "01b-3") || str_eq(l, "append-01b3") {
                AppendEvidenceVariant::Scoped01B3
            } else {
                AppendEvidenceVariant::Historical01B2
            },
            None => AppendEvidenceVariant::Historical01B2,
        }
    }

    /// The label the run's environment records the variant under.
    pub fn configuration_label(self) -> (r: &'static str)
        ensures
            r@ == (match self {
                AppendEvidenceVariant::Historical01B2 => "01B-2"@,
                AppendEvidenceVariant::Scoped01B3 => "01B-3"@,
            }),
    {
        match self {
            AppendEvidenceVariant::Historical01B2 => "01B-2",
            AppendEvidenceVariant::Scoped01B3 => "01B-3",
        }
    }

    /// The work package a run over this append variant and a SQLite variant belongs to.
    pub fn work_package_id(self, sqlite_variant: SqliteEvidenceVariant) -> (r: &'static str)
        ensures
            r@ == (match (self, sqlite_variant) {
                (AppendEvidenceVariant::Scoped01B3, SqliteEvidenceVariant::Scoped01CSqlite3) => DUAL_SCOPED_EVIDENCE_WORK_PACKAGE_ID@,
                (AppendEvidenceVariant::Scoped01B3, _) => APPEND_01B3_EVIDENCE_WORK_PACKAGE_ID@,
                _ => WORK_PACKAGE_ID@,
            }),
    {
        match (self, sqlite_variant) {
            (AppendEvidenceVariant::Scoped01B3, SqliteEvidenceVariant::Scoped01CSqlite3) => DUAL_SCOPED_EVIDENCE_WORK_PACKAGE_ID,
            (AppendEvidenceVariant::Scoped01B3, _) => APPEND_01B3_EVIDENCE_WORK_PACKAGE_ID,
            _ => WORK_PACKAGE_ID,
        }
    }
}

impl SqliteEvidenceVariant {
    /// The label the run's environment records the variant under.
    pub fn configuration_label(self) -> (r: &'static str)
        ensures
            r@ == (match self {
                SqliteEvidenceVariant::Historical01CSqlite2 => "01C-SQLITE-2"@,
                SqliteEvidenceVariant::Scoped01CSqlite3 => "01C-SQLITE-3"@,
            }),
    {
        match self {
            SqliteEvidenceVariant::Historical01CSqlite2 => "01C-SQLITE-2",
            SqliteEvidenceVariant::Scoped01CSqlite3 => "01C-SQLITE-3",
        }
    }

    /// The variant a configuration label selects: the scoped candidate for
    /// `01C-SQLITE-3`, `01c-sqlite-3` or `sqlite-01c3`, else the historical one.
    pub fn from_label(label: Option<&str>) -> (r: Self)
        ensures
            r == (match label {
                Some(l) => if l@ == "01C-SQLITE-3"@ || l@ == "01c-sqlite-3"@ || l@ == "sqlite-01c3"@ {
                    SqliteEvidenceVariant::Scoped01CSqlite3
                } else {
                    SqliteEvidenceVariant::Historical01CSqlite2
                },
                None => SqliteEvidenceVariant::Historical01CSqlite2,
            }),
    {
        match label {
            Some(l) => if str_eq(l, "01C-SQLITE-3") || str_eq(l, "01c-sqlite-3") || str_eq(l, "sqlite-01c3") {
                SqliteEvidenceVariant::Scoped01CSqlite3
            } else {
                SqliteEvidenceVariant::Historical01CSqlite2
            },
            None => SqliteEvidenceVariant::Historical01CSqlite2,
        }
    }
}

/// Whether a run adds its platform's results to an existing output
/// directory rather than starting it afresh: `1`, `true` or `yes`.
pub fn platform_append_requested(value: Option<&str>) -> (r: bool)
    ensures
        r == (match value {
            Some(v) => v@ == "1"@ || v@ == "true"@ || v@ == "yes"@,
            None => false,
        }),
{
    match value {
        Some(v) => str_eq(v, "1") || str_eq(v, "true") || str_eq(v, "yes"),
        None => false,
    }
}

/// The directory a platform's results are written under: the CI directory
/// for a Windows platform, the native one otherwise.
pub fn platform_directory(platform_label: &str) -> (r: &'static str)
    ensures
        r@ == (if contains_text_spec(platform_label@, "windows"@) {
            "windows-github-actions"@
        } else {
            "macos-native"@
        }),
{
    if contains_text(platform_label, "windows") {
        "windows-github-actions"
    } else {
        "macos-native"
    }
}

/// `<seconds>.<millis>Z`: seconds in decimal, milliseconds padded to three digits.
pub open spec fn timestamp_iso_spec(secs: u64, millis: u32) -> Seq<char> {
    decimal_spec(secs as nat) + seq!['.'] + zero_padded_spec(millis as nat, 3) + seq!['Z']
}

/// The timestamp a run records for a moment `secs` seconds and `millis`
/// milliseconds after the Unix epoch.
pub fn format_timestamp_iso(secs: u64, millis: u32) -> (r: String)
    ensures
        r@ == timestamp_iso_spec(secs, millis),
{
    let mut out = String::new();
    push_decimal_wide(&mut out, secs as u128);
    push_char(&mut out, '.');
    push_zero_padded(&mut out, millis as u64, 3);
    push_char(&mut out, 'Z');
    proof {
        assert(out@ =~= timestamp_iso_spec(secs, millis));
    }
    out
}

/// One superseded evidence run.
pub open spec fn predecessor_spec(harness: Seq<char>, evidence: Seq<char>, verdict: Seq<char>) -> InvalidPredecessorEvidenceView {
    InvalidPredecessorEvidenceView { harness_sha: harness, evidence_record_sha: evidence, verdict }
}

/// The chain of predecessor evidence runs that this run supersedes, oldest
/// first; the second correction's commits are given, since a run may name them.
pub open spec fn invalid_evidence_chain_spec(
    correction_02_harness_sha: Seq<char>,
    correction_02_evidence_sha: Seq<char>,
) -> Seq<InvalidPredecessorEvidenceView> {
    seq![
        predecessor_spec(INVALID_PREDECESSOR_HARNESS_SHA@, INVALID_PREDECESSOR_EVIDENCE_SHA@, "BLOCKED_01C_EVIDENCE"@),
        predecessor_spec(CORRECTION_01_HARNESS_SHA@, "see_gate4-01c-b2569a0_negative_evidence"@, "BLOCKED_01C_EVIDENCE"@),
        predecessor_spec(correction_02_harness_sha, correction_02_evidence_sha, "invalid_for_gate_preserve"@),
        predecessor_spec(
            CORRECTION_03_HARNESS_SHA@,
            "see_gate4-01c-6adb731_with_capability_audit"@,
            "CANDIDATE_CONTRACT_CAPABILITY_GAP"@,
        ),
        predecessor_spec(
            CORRECTION_04_V4_HARNESS_SHA@,
            "see_gate4-01c-21f2eb2_readiness_gate_conflation"@,
            "invalid_for_final_gate_preserve"@,
        ),
    ]
}

fn predecessor(harness: &str, evidence: &str, verdict: &str) -> (r: InvalidPredecessorEvidence)
    ensures
        r@ == predecessor_spec(harness@, evidence@, verdict@),
{
    InvalidPredecessorEvidence {
        harness_sha: String::from_str(harness),
        evidence_record_sha: String::from_str(evidence),
        verdict: String::from_str(verdict),
    }
}

/// The chain of predecessor evidence runs that this run supersedes.
pub fn invalid_evidence_chain(correction_02_harness_sha: &str, correction_02_evidence_sha: &str) -> (r: Vec<
    InvalidPredecessorEvidence,
>)
    ensures
        vec_view(r@) == invalid_evidence_chain_spec(correction_02_harness_sha@, correction_02_evidence_sha@),
{
    let r = vec![
        predecessor(INVALID_PREDECESSOR_HARNESS_SHA, INVALID_PREDECESSOR_EVIDENCE_SHA, "BLOCKED_01C_EVIDENCE"),
        predecessor(CORRECTION_01_HARNESS_SHA, "see_gate4-01c-b2569a0_negative_evidence", "BLOCKED_01C_EVIDENCE"),
        predecessor(correction_02_harness_sha, correction_02_evidence_sha, "invalid_for_gate_preserve"),
        predecessor(
            CORRECTION_03_HARNESS_SHA,
            "see_gate4-01c-6adb731_with_capability_audit",
            "CANDIDATE_CONTRACT_CAPABILITY_GAP",
        ),
        predecessor(
            CORRECTION_04_V4_HARNESS_SHA,
            "see_gate4-01c-21f2eb2_readiness_gate_conflation",
            "invalid_for_final_gate_preserve",
        ),
    ];
    assert(vec_view(r@) =~= invalid_evidence_chain_spec(correction_02_harness_sha@, correction_02_evidence_sha@));
    r
}

} // verus!
