//! The decisions of the append candidate around its log: the manifest
//! checkpoint, the preconditions of an authoritative append, the records a
//! commit writes, semantic duplication and cleanup planning.
use vstd::prelude::*;
use crate::append_authority::{
    append_error, canonicalized_state, canonicalized_view, contains_char, session_id_safe_spec, state_violations_spec,
    validate_record_capacity, validate_session_id, validate_state, AppendAuthorityError, AppendAuthorityErrorView,
    AppendCheckpointStatus, AppendOpenMode, CleanupPlan, APPEND_AUTHORITATIVE_FORMAT_VERSION, MAX_RECORD_COUNT,
};
use crate::append_replay::{AppendRecord, AppendRecordView, ReplayResult, ReplayResultView};
use crate::derivation::{TranscriptReading, TranscriptReadingView};
use crate::governance::sort_texts;
use crate::model::{
    canonical_projection_view, str_key_spec, vec_view, CurrentContractState, CurrentContractStateView,
    EvidenceDurableCommandTokensView,
};
use crate::oracle::{canonical_fingerprint, canonical_fingerprint_spec};
use crate::order::sort_by_keys_spec;
use crate::production_bridge::{ContractRules, ContractRulesView};
use crate::sqlite_authority::{derive_duplicate_evidence_writer_token, duplicate_writer_token_spec};
use crate::text::{chars_of, decimal_spec, str_eq};

verus! {

/// The manifest checkpoint of an append session.
pub struct AppendManifest {
    pub format_version: u32,
    pub session_id: String,
    pub committed_sequence: u64,
}

/// The mathematical value of an [`AppendManifest`].
pub struct AppendManifestView {
    pub format_version: u32,
    pub session_id: Seq<char>,
    pub committed_sequence: u64,
}

impl View for AppendManifest {
    type V = AppendManifestView;

    open spec fn view(&self) -> AppendManifestView {
        AppendManifestView {
            format_version: self.format_version,
            session_id: self.session_id@,
            committed_sequence: self.committed_sequence,
        }
    }
}

/// What checking a manifest against its session and open mode finds.
pub open spec fn validate_manifest_spec(
    session_id: Seq<char>,
    m: AppendManifestView,
    mode: AppendOpenMode,
) -> Result<(), AppendAuthorityErrorView> {
    if m.session_id != session_id {
        Err(append_error("manifest-session-identity-mismatch"@, "manifest session identity differs from reference"@))
    } else if m.format_version > APPEND_AUTHORITATIVE_FORMAT_VERSION && mode == AppendOpenMode::Writable {
        Err(append_error("unsupported-newer-format"@, "unknown newer format cannot open writable"@))
    } else if m.format_version != APPEND_AUTHORITATIVE_FORMAT_VERSION {
        Err(append_error("unsupported-format"@, "candidate cannot safely interpret this format"@))
    } else {
        Ok(())
    }
}

/// A unit result, as a value.
pub open spec fn unit_view(r: Result<(), AppendAuthorityError>) -> Result<(), AppendAuthorityErrorView> {
    match r {
        Ok(()) => Ok(()),
        Err(e) => Err(e@),
    }
}

/// Checks that a manifest names the session and a format this candidate
/// interprets; a newer format is refused for writing first.
pub fn validate_manifest(session_id: &str, manifest: &AppendManifest, mode: AppendOpenMode) -> (r: Result<
    (),
    AppendAuthorityError,
>)
    ensures
        unit_view(r) == validate_manifest_spec(session_id@, manifest@, mode),
{
    if !str_eq(manifest.session_id.as_str(), session_id) {
        return Err(
            AppendAuthorityError::new("manifest-session-identity-mismatch", "manifest session identity differs from reference"),
        );
    }
    if manifest.format_version > APPEND_AUTHORITATIVE_FORMAT_VERSION && mode == AppendOpenMode::Writable {
        return Err(AppendAuthorityError::new("unsupported-newer-format", "unknown newer format cannot open writable"));
    }
    if manifest.format_version != APPEND_AUTHORITATIVE_FORMAT_VERSION {
        return Err(AppendAuthorityError::new("unsupported-format", "candidate cannot safely interpret this format"));
    }
    Ok(())
}

/// A temporary artifact name that stays inside the session's temporary directory.
pub open spec fn temporary_name_safe_spec(name: Seq<char>) -> bool {
    &&& name.len() > 0
    &&& !name.contains('/')
    &&& !name.contains('\\')
    &&& name != "."@
    &&& name != ".."@
}

/// Refuses a temporary artifact name that could escape the candidate root.
pub fn validate_temporary_name(name: &str) -> (r: Result<(), AppendAuthorityError>)
    ensures
        r is Ok <==> temporary_name_safe_spec(name@),
        r is Err ==> r->Err_0@ == append_error("unsafe-temporary-name"@, "temporary artifact name escapes candidate root"@),
{
    let chars = chars_of(name);
    if chars.len() == 0 || contains_char(&chars, '/') || contains_char(&chars, '\\') || str_eq(name, ".") || str_eq(
        name,
        "..",
    ) {
        return Err(AppendAuthorityError::new("unsafe-temporary-name", "temporary artifact name escapes candidate root"));
    }
    Ok(())
}

/// Refuses a manifest that claims more committed records than the log holds.
pub fn check_manifest_not_ahead(manifest_committed_sequence: u64, replayed_committed_sequence: u64) -> (r: Result<
    (),
    AppendAuthorityError,
>)
    ensures
        r is Ok <==> manifest_committed_sequence <= replayed_committed_sequence,
        r is Err ==> r->Err_0@ == append_error(
            "manifest-ahead-of-append-authority"@,
            "manifest claims an uncommitted authoritative boundary"@,
        ),
{
    if manifest_committed_sequence > replayed_committed_sequence {
        return Err(
            AppendAuthorityError::new(
                "manifest-ahead-of-append-authority",
                "manifest claims an uncommitted authoritative boundary",
            ),
        );
    }
    Ok(())
}

/// Whether an open must first cut an incomplete tail: only a writer does.
pub fn requires_tail_recovery(mode: AppendOpenMode, tail_clean: bool) -> (r: bool)
    ensures
        r == (mode == AppendOpenMode::Writable && !tail_clean),
{
    mode == AppendOpenMode::Writable && !tail_clean
}

/// The checkpoint status an open reports, and whether it repairs the manifest
/// first: a writer brings a lagging manifest up to the log; a reader reports
/// it as behind.
pub fn open_checkpoint_status(
    manifest_committed_sequence: u64,
    replayed_committed_sequence: u64,
    mode: AppendOpenMode,
) -> (r: (AppendCheckpointStatus, bool))
    ensures
        r.1 == (manifest_committed_sequence < replayed_committed_sequence && mode == AppendOpenMode::Writable),
        (manifest_committed_sequence < replayed_committed_sequence && mode == AppendOpenMode::ReadOnly) ==> r.0
            == (AppendCheckpointStatus::Behind { last_error_code: "manifest-behind-append-authority" }),
        !(manifest_committed_sequence < replayed_committed_sequence && mode == AppendOpenMode::ReadOnly) ==> r.0
            == AppendCheckpointStatus::Current,
{
    if manifest_committed_sequence < replayed_committed_sequence {
        match mode {
            AppendOpenMode::Writable => (AppendCheckpointStatus::Current, true),
            AppendOpenMode::ReadOnly => (
                AppendCheckpointStatus::Behind { last_error_code: "manifest-behind-append-authority" },
                false,
            ),
        }
    } else {
        (AppendCheckpointStatus::Current, false)
    }
}

/// Refuses an authoritative append over an open that is not writable.
pub fn require_authoritative_writer(mode: AppendOpenMode) -> (r: Result<(), AppendAuthorityError>)
    ensures
        r is Ok <==> mode == AppendOpenMode::Writable,
        r is Err ==> r->Err_0@ == append_error(
            "not-authoritative-writer"@,
            "authoritative append requires a writable open"@,
        ),
{
    match mode {
        AppendOpenMode::Writable => Ok(()),
        AppendOpenMode::ReadOnly => Err(
            AppendAuthorityError::new("not-authoritative-writer", "authoritative append requires a writable open"),
        ),
    }
}

/// An authoritative append the candidate has decided to write.
pub struct PlannedAppend {
    pub canonical_state: CurrentContractState,
    pub canonical_fingerprint: String,
    pub repair_manifest: bool,
}

/// The mathematical value of a [`PlannedAppend`].
pub struct PlannedAppendView {
    pub canonical_state: CurrentContractStateView,
    pub canonical_fingerprint: Seq<char>,
    pub repair_manifest: bool,
}

impl View for PlannedAppend {
    type V = PlannedAppendView;

    open spec fn view(&self) -> PlannedAppendView {
        PlannedAppendView {
            canonical_state: self.canonical_state@,
            canonical_fingerprint: self.canonical_fingerprint@,
            repair_manifest: self.repair_manifest,
        }
    }
}

/// What an authoritative append decides over the replayed log: the manifest
/// must not be ahead (a lagging one is repaired), the expected committed
/// sequence must be current, the canonicalized next state must pass the
/// oracle, keep the session identity and add a canonical identity the log
/// has not committed.
pub open spec fn plan_append_spec(
    manifest_committed_sequence: u64,
    current: ReplayResultView,
    expected_committed_sequence: u64,
    next_state: CurrentContractStateView,
    session_id: Seq<char>,
    rules: ContractRulesView,
    readings: Seq<TranscriptReadingView>,
) -> Result<PlannedAppendView, AppendAuthorityErrorView> {
    let canonical = canonicalized_view(next_state, rules, readings);
    let violations = state_violations_spec(canonical, rules, readings);
    let fingerprint = canonical_fingerprint_spec(canonical_projection_view(canonical));
    if manifest_committed_sequence > current.committed_sequence {
        Err(append_error("manifest-ahead-of-append-authority"@, "manifest claims an uncommitted authoritative boundary"@))
    } else if current.committed_sequence != expected_committed_sequence {
        Err(append_error("stale-append-precondition"@, "expected committed sequence is stale"@))
    } else if violations.len() > 0 {
        Err(append_error("current-contract-oracle-rejected"@, decimal_spec(violations.len()) + " oracle violations"@))
    } else if canonical.session_id != session_id {
        Err(append_error("session-identity-transition"@, "authoritative append cannot change the session identity"@))
    } else if current.canonical_fingerprints.contains(fingerprint) {
        Err(append_error("semantic-duplicate-transition"@, "an append transition must add distinct canonical authority"@))
    } else {
        Ok(
            PlannedAppendView {
                canonical_state: canonical,
                canonical_fingerprint: fingerprint,
                repair_manifest: manifest_committed_sequence < current.committed_sequence,
            },
        )
    }
}

/// A planned append, as a value.
pub open spec fn planned_view(r: Result<PlannedAppend, AppendAuthorityError>) -> Result<PlannedAppendView, AppendAuthorityErrorView> {
    match r {
        Ok(p) => Ok(p@),
        Err(e) => Err(e@),
    }
}

/// Decides an authoritative append over the replayed log.
pub fn plan_append_transition(
    manifest_committed_sequence: u64,
    current: &ReplayResult,
    expected_committed_sequence: u64,
    next_state: &CurrentContractState,
    session_id: &str,
    rules: &ContractRules,
    readings: &Vec<TranscriptReading>,
) -> (r: Result<PlannedAppend, AppendAuthorityError>)
    ensures
        planned_view(r) == plan_append_spec(
            manifest_committed_sequence,
            current@,
            expected_committed_sequence,
            next_state@,
            session_id@,
            rules@,
            vec_view(readings@),
        ),
{
    check_manifest_not_ahead(manifest_committed_sequence, current.committed_sequence)?;
    if current.committed_sequence != expected_committed_sequence {
        return Err(AppendAuthorityError::new("stale-append-precondition", "expected committed sequence is stale"));
    }
    let canonical = canonicalized_state(next_state.clone(), rules, readings);
    validate_state(&canonical, rules, readings)?;
    if !str_eq(canonical.session_id.as_str(), session_id) {
        return Err(
            AppendAuthorityError::new("session-identity-transition", "authoritative append cannot change the session identity"),
        );
    }
    let fingerprint = canonical_fingerprint(&canonical.canonical_projection());
    if text_among(&current.canonical_fingerprints, &fingerprint) {
        return Err(
            AppendAuthorityError::new("semantic-duplicate-transition", "an append transition must add distinct canonical authority"),
        );
    }
    Ok(
        PlannedAppend {
            canonical_state: canonical,
            canonical_fingerprint: fingerprint,
            repair_manifest: manifest_committed_sequence < current.committed_sequence,
        },
    )
}

/// Whether a text occurs among the texts.
pub fn text_among(texts: &Vec<String>, t: &String) -> (r: bool)
    ensures
        r == vec_view(texts@).contains(t@),
{
    let ghost tv = vec_view(texts@);
    let mut i: usize = 0;
    while i < texts.len()
        invariant
            i <= texts.len(),
            tv == vec_view(texts@),
            forall|k: int| 0 <= k < i ==> tv[k] != t@,
        decreases texts.len() - i,
    {
        if str_eq(texts[i].as_str(), t.as_str()) {
            assert(tv[i as int] == t@);
            return true;
        }
        i = i + 1;
    }
    false
}

/// The two records that commit a state after `committed_sequence`: the state
/// record with the canonicalized state, and the commit record binding its
/// canonical fingerprint, both at the next sequence.
pub open spec fn commit_records_spec(
    committed_sequence: u64,
    current_record_count: usize,
    state: CurrentContractStateView,
    rules: ContractRulesView,
    readings: Seq<TranscriptReadingView>,
) -> Result<(AppendRecordView, AppendRecordView), AppendAuthorityErrorView> {
    let canonical = canonicalized_view(state, rules, readings);
    if current_record_count + 2 > MAX_RECORD_COUNT {
        Err(
            append_error(
                "record-count-exhausted"@,
                "append transition would exceed the bounded record count"@,
            ),
        )
    } else if committed_sequence == u64::MAX {
        Err(append_error("append-sequence-overflow"@, "append sequence overflow"@))
    } else {
        Ok(
            (
                AppendRecordView::State { sequence: (committed_sequence + 1) as u64, state: canonical },
                AppendRecordView::Commit {
                    sequence: (committed_sequence + 1) as u64,
                    canonical_fingerprint: canonical_fingerprint_spec(canonical_projection_view(canonical)),
                },
            ),
        )
    }
}

/// The two records that commit a state, after checking that the log has room
/// for them and that the sequence does not overflow.
pub fn commit_records(
    committed_sequence: u64,
    current_record_count: usize,
    state: &CurrentContractState,
    rules: &ContractRules,
    readings: &Vec<TranscriptReading>,
) -> (r: Result<(AppendRecord, AppendRecord), AppendAuthorityError>)
    ensures
        match r {
            Ok((a, b)) => commit_records_spec(committed_sequence, current_record_count, state@, rules@, vec_view(readings@))
                == Ok::<(AppendRecordView, AppendRecordView), AppendAuthorityErrorView>((a@, b@)),
            Err(e) => commit_records_spec(committed_sequence, current_record_count, state@, rules@, vec_view(readings@))
                == Err::<(AppendRecordView, AppendRecordView), AppendAuthorityErrorView>(e@),
        },
{
    match validate_record_capacity(current_record_count) {
        Ok(()) => {},
        Err(e) => {
            return Err(e);
        },
    }
    let sequence = match committed_sequence.checked_add(1) {
        Some(s) => s,
        None => {
            return Err(AppendAuthorityError::new("append-sequence-overflow", "append sequence overflow"));
        },
    };
    let canonical = canonicalized_state(state.clone(), rules, readings);
    let fingerprint = canonical_fingerprint(&canonical.canonical_projection());
    Ok((AppendRecord::State { sequence, state: canonical }, AppendRecord::Commit { sequence, canonical_fingerprint: fingerprint }))
}

/// The checkpoint status after writing the manifest of a new commit: a failed
/// write leaves the checkpoint behind, unless the caller requires it, in which
/// case the failure is the result.
pub fn checkpoint_after_manifest_write(
    written: Result<(), AppendAuthorityError>,
    require_manifest_checkpoint: bool,
) -> (r: Result<AppendCheckpointStatus, AppendAuthorityError>)
    ensures
        written is Ok ==> r == Ok::<AppendCheckpointStatus, AppendAuthorityError>(AppendCheckpointStatus::Current),
        written matches Err(e) ==> if require_manifest_checkpoint {
            r matches Err(f) && f@ == e@
        } else {
            r == Ok::<AppendCheckpointStatus, AppendAuthorityError>(AppendCheckpointStatus::Behind { last_error_code: e.code })
        },
{
    match written {
        Ok(()) => Ok(AppendCheckpointStatus::Current),
        Err(error) => if require_manifest_checkpoint {
            Err(error)
        } else {
            Ok(AppendCheckpointStatus::Behind { last_error_code: error.code })
        },
    }
}

/// The state a semantic duplicate starts from: the source's committed state
/// under the new session id, naming its source, with a writer token of its
/// own; refused when the id is unsafe or the derived token would collide with
/// the source's.
pub open spec fn duplicate_state_spec(source: CurrentContractStateView, new_session_id: Seq<char>) -> Result<
    CurrentContractStateView,
    AppendAuthorityErrorView,
> {
    let token = duplicate_writer_token_spec(new_session_id);
    if !session_id_safe_spec(new_session_id) {
        Err(append_error("unsafe-session-id"@, "session id escapes candidate root"@))
    } else if token == source.durable_command_tokens.evidence_writer_token {
        Err(
            append_error(
                "duplicate-evidence-writer-identity-collision"@,
                "semantic duplication must create an independent evidence writer identity"@,
            ),
        )
    } else {
        Ok(
            CurrentContractStateView {
                session_id: new_session_id,
                duplicated_from_session_id: Some(source.session_id),
                durable_command_tokens: EvidenceDurableCommandTokensView {
                    evidence_writer_token: token,
                    ..source.durable_command_tokens
                },
                ..source
            },
        )
    }
}

/// A state result, as a value.
pub open spec fn state_result_view(r: Result<CurrentContractState, AppendAuthorityError>) -> Result<
    CurrentContractStateView,
    AppendAuthorityErrorView,
> {
    match r {
        Ok(s) => Ok(s@),
        Err(e) => Err(e@),
    }
}

/// The state a semantic duplicate of a committed state starts from.
pub fn duplicate_state(source: CurrentContractState, new_session_id: &str) -> (r: Result<CurrentContractState, AppendAuthorityError>)
    ensures
        state_result_view(r) == duplicate_state_spec(source@, new_session_id@),
{
    validate_session_id(new_session_id)?;
    let mut copied = source;
    let token = derive_duplicate_evidence_writer_token(new_session_id);
    if str_eq(token.as_str(), copied.durable_command_tokens.evidence_writer_token.as_str()) {
        return Err(
            AppendAuthorityError::new(
                "duplicate-evidence-writer-identity-collision",
                "semantic duplication must create an independent evidence writer identity",
            ),
        );
    }
    let old_id = copied.session_id.clone();
    copied.duplicated_from_session_id = Some(old_id);
    copied.session_id = String::from_str(new_session_id);
    copied.durable_command_tokens.evidence_writer_token = token;
    Ok(copied)
}

/// A temporary artifact name that cleanup reports: one without a path separator.
pub open spec fn reportable_name(name: Seq<char>) -> bool {
    !name.contains('/') && !name.contains('\\')
}

/// The temporary artifacts cleanup reports: the names without a path
/// separator, in character order; never destroyed.
pub open spec fn cleanup_artifacts_spec(names: Seq<Seq<char>>) -> Seq<Seq<char>> {
    let kept = names.filter(|n: Seq<char>| reportable_name(n));
    sort_by_keys_spec(kept.map_values(|x: Seq<char>| str_key_spec(x)), kept)
}

/// Plans the cleanup of a session's temporary directory from the names found
/// in it: reports each name without a path separator, sorted, and never
/// permits destroying them.
pub fn plan_cleanup(names: Vec<String>) -> (r: CleanupPlan)
    ensures
        vec_view(r.temporary_artifacts@) == cleanup_artifacts_spec(vec_view(names@)),
        !r.destructive_cleanup_permitted,
{
    let ghost nv = vec_view(names@);
    let mut kept: Vec<String> = Vec::new();
    let mut i: usize = 0;
    while i < names.len()
        invariant
            i <= names.len(),
            nv == vec_view(names@),
            vec_view(kept@) == nv.subrange(0, i as int).filter(|n: Seq<char>| reportable_name(n)),
        decreases names.len() - i,
    {
        let chars = chars_of(names[i].as_str());
        let keep = !contains_char(&chars, '/') && !contains_char(&chars, '\\');
        proof {
            let sub = nv.subrange(0, i + 1);
            assert(sub.drop_last() =~= nv.subrange(0, i as int));
            assert(sub.last() == nv[i as int]);
            nv.subrange(0, i as int).lemma_filter_push(nv[i as int], |n: Seq<char>| reportable_name(n));
            assert(sub =~= nv.subrange(0, i as int).push(nv[i as int]));
        }
        if keep {
            crate::model::push_viewed(&mut kept, names[i].clone());
        }
        i = i + 1;
    }
    proof {
        assert(nv.subrange(0, names.len() as int) =~= nv);
    }
    let sorted = sort_texts(kept);
    CleanupPlan { temporary_artifacts: sorted, destructive_cleanup_permitted: false }
}

} // verus!
