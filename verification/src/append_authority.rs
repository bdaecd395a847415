use vstd::prelude::*;
use crate::derivation::{
    finalize_derived_fields, finalized_view, law_derivation_ignores_derived_fields, with_derived_fields, TranscriptReading,
    TranscriptReadingView,
};
use crate::model::{normalize_view, vec_view, CurrentContractState, CurrentContractStateView};
use crate::oracle::{validate_violations_spec, CurrentContractOracle};
use crate::production_bridge::{ContractRules, ContractRulesView};
use crate::text::{chars_of, concat2, decimal, decimal_spec};

verus! {

/// The identifier of the append-authoritative candidate.
pub const APPEND_AUTHORITATIVE_CANDIDATE_ID: &'static str = "current-contract-append-authoritative-candidate";

/// The version of the append-authoritative candidate.
pub const APPEND_AUTHORITATIVE_CANDIDATE_VERSION: &'static str = "01B-2";

/// The storage format version the append candidate writes.
pub const APPEND_AUTHORITATIVE_FORMAT_VERSION: u32 = 1;

/// The most records an append log may hold.
pub const MAX_RECORD_COUNT: usize = 4096;

/// Why the append candidate refused an operation: a stable code and a message.
#[derive(Debug)]
pub struct AppendAuthorityError {
    pub code: &'static str,
    pub message: String,
}

/// The mathematical value of an [`AppendAuthorityError`].
pub struct AppendAuthorityErrorView {
    pub code: Seq<char>,
    pub message: Seq<char>,
}

impl View for AppendAuthorityError {
    type V = AppendAuthorityErrorView;

    open spec fn view(&self) -> AppendAuthorityErrorView {
        AppendAuthorityErrorView { code: self.code@, message: self.message@ }
    }
}

impl Clone for AppendAuthorityError {
    fn clone(&self) -> (r: Self)
        ensures
            r@ == self@,
    {
        AppendAuthorityError { code: self.code, message: self.message.clone() }
    }
}

/// The error with the given code and message.
pub open spec fn append_error(code: Seq<char>, message: Seq<char>) -> AppendAuthorityErrorView {
    AppendAuthorityErrorView { code, message }
}

impl AppendAuthorityError {
    /// The error with the given code and message.
    pub fn new(code: &'static str, message: &str) -> (r: Self)
        ensures
            r@ == append_error(code@, message@),
    {
        AppendAuthorityError { code, message: String::from_str(message) }
    }

    /// `<code>: <message>`.
    pub fn describe(&self) -> (r: String)
        ensures
            r@ == self.code@ + ": "@ + self.message@,
    {
        crate::text::concat3(self.code, ": ", self.message.as_str())
    }
}

/// The result of an append-candidate check, as a value.
pub open spec fn append_result_view<T>(r: Result<T, AppendAuthorityError>) -> Result<T, AppendAuthorityErrorView> {
    match r {
        Ok(v) => Ok(v),
        Err(e) => Err(e@),
    }
}

/// A session the append candidate has created: its id and its directory.
pub struct AppendAuthoritySession {
    session_id: String,
    root: String,
}

/// The mathematical value of an [`AppendAuthoritySession`].
pub struct AppendAuthoritySessionView {
    pub session_id: Seq<char>,
    pub root: Seq<char>,
}

impl View for AppendAuthoritySession {
    type V = AppendAuthoritySessionView;

    closed spec fn view(&self) -> AppendAuthoritySessionView {
        AppendAuthoritySessionView { session_id: self.session_id@, root: self.root@ }
    }
}

impl AppendAuthoritySession {
    /// A session with this id stored under this directory.
    pub fn from_parts(session_id: String, root: String) -> (r: Self)
        ensures
            r@ == (AppendAuthoritySessionView { session_id: session_id@, root: root@ }),
    {
        AppendAuthoritySession { session_id, root }
    }

    /// The session id.
    pub fn session_id(&self) -> (r: &str)
        ensures
            r@ == self@.session_id,
    {
        self.session_id.as_str()
    }

    /// The session's storage directory.
    pub fn storage_path_for_test(&self) -> (r: &str)
        ensures
            r@ == self@.root,
    {
        self.root.as_str()
    }
}

/// Whether the bytes after the last commit are clean or an incomplete record.
#[derive(Debug, Clone, Copy, PartialEq, Eq, Structural)]
pub enum AppendTailStatus {
    Clean,
    IncompleteUncommitted { sequence: u64 },
}

/// Whether the manifest checkpoint is current or lags the log, and why.
#[derive(Debug, Clone, Copy)]
pub enum AppendCheckpointStatus {
    Current,
    Behind { last_error_code: &'static str },
}

/// A session opened on the append candidate: where its log stood when it was
/// opened, how it was opened and by which adapter, and, for a writer, its
/// lock token and whether it still holds the lock.
pub struct OpenedAppendAuthoritySession {
    pub session: AppendAuthoritySession,
    pub committed_sequence: u64,
    pub tail_status: AppendTailStatus,
    pub checkpoint_status: AppendCheckpointStatus,
    open_mode: AppendOpenMode,
    adapter_identity: String,
    holds_writer_lock: bool,
    writer_token: Option<String>,
    normalized_state: CurrentContractState,
}

/// What a write through an append handle requires of its writer lock.
pub struct AppendHandleView {
    pub adapter_identity: Seq<char>,
    pub holds_writer_lock: bool,
    pub writer_token: Option<Seq<char>>,
}

impl OpenedAppendAuthoritySession {
    /// An opened session from what opening it read and acquired.
    pub fn from_parts(
        session: AppendAuthoritySession,
        committed_sequence: u64,
        tail_status: AppendTailStatus,
        checkpoint_status: AppendCheckpointStatus,
        open_mode: AppendOpenMode,
        adapter_identity: String,
        holds_writer_lock: bool,
        writer_token: Option<String>,
        normalized_state: CurrentContractState,
    ) -> (r: Self)
        ensures
            r.handle_view() == (AppendHandleView {
                adapter_identity: adapter_identity@,
                holds_writer_lock,
                writer_token: crate::model::opt_view(writer_token),
            }),
            r.state_view() == normalized_state@,
            r.sequence_view() == committed_sequence,
            r.mode_view() == open_mode,
    {
        OpenedAppendAuthoritySession {
            session,
            committed_sequence,
            tail_status,
            checkpoint_status,
            open_mode,
            adapter_identity,
            holds_writer_lock,
            writer_token,
            normalized_state,
        }
    }

    /// The handle's adapter, lock and token.
    pub closed spec fn handle_view(&self) -> AppendHandleView {
        AppendHandleView {
            adapter_identity: self.adapter_identity@,
            holds_writer_lock: self.holds_writer_lock,
            writer_token: crate::model::opt_view(self.writer_token),
        }
    }

    /// The committed sequence the session was opened at.
    pub closed spec fn sequence_view(&self) -> u64 {
        self.committed_sequence
    }

    /// The state the session was opened at.
    pub closed spec fn state_view(&self) -> CurrentContractStateView {
        self.normalized_state@
    }

    /// How the session was opened.
    pub closed spec fn mode_view(&self) -> AppendOpenMode {
        self.open_mode
    }

    /// The state the session was opened at.
    pub fn normalized_state(&self) -> (r: &CurrentContractState)
        ensures
            r@ == self.state_view(),
    {
        &self.normalized_state
    }

    /// The committed sequence the session was opened at.
    pub fn committed_sequence(&self) -> (r: u64)
        ensures
            r == self.sequence_view(),
    {
        self.committed_sequence
    }

    /// How the session was opened.
    pub fn open_mode(&self) -> (r: AppendOpenMode)
        ensures
            r == self.mode_view(),
    {
        self.open_mode
    }
}

/// What a write requires of an append handle's writer lock: this adapter
/// opened it, it has a lock token, and it still holds the lock with a
/// non-empty token.
pub open spec fn writer_lock_check_spec(adapter_identity: Seq<char>, h: AppendHandleView) -> Result<(), AppendAuthorityErrorView> {
    if h.adapter_identity != adapter_identity {
        Err(append_error("foreign-writer-handle"@, "writer handle belongs to a different adapter instance"@))
    } else if h.writer_token is None {
        Err(append_error("not-authoritative-writer"@, "writable handle lacks a writer lock"@))
    } else if h.holds_writer_lock && h.writer_token->0.len() > 0 {
        Ok(())
    } else {
        Err(append_error("writer-lock-token-mismatch"@, "writable handle no longer owns the candidate writer lock"@))
    }
}

/// The acknowledgement of a durable append.
pub struct DurableAppendAck {
    pub committed_sequence: u64,
    pub canonical_fingerprint: String,
    pub checkpoint_status: AppendCheckpointStatus,
}

/// What cleanup found and whether destroying it is permitted.
pub struct CleanupPlan {
    pub temporary_artifacts: Vec<String>,
    pub destructive_cleanup_permitted: bool,
}

/// Whether a session is opened for writing or for reading only.
#[derive(Debug, Clone, Copy, PartialEq, Eq, Structural)]
pub enum AppendOpenMode {
    Writable,
    ReadOnly,
}

/// Whether a session id stays inside the candidate root: non-empty, at most
/// 128 bytes, no path separators, not `.` or `..`.
pub open spec fn session_id_safe_spec(id: Seq<char>) -> bool {
    &&& id.len() > 0
    &&& vstd::utf8::encode_utf8(id).len() <= 128
    &&& !id.contains('/')
    &&& !id.contains('\\')
    &&& id != "."@
    &&& id != ".."@
}

pub(crate) fn contains_char(chars: &Vec<char>, c: char) -> (r: bool)
    ensures
        r == chars@.contains(c),
{
    let mut i: usize = 0;
    while i < chars.len()
        invariant
            i <= chars.len(),
            forall|j: int| 0 <= j < i ==> chars@[j] != c,
        decreases chars.len() - i,
    {
        if chars[i] == c {
            proof {
                assert(chars@[i as int] == c);
            }
            return true;
        }
        i = i + 1;
    }
    false
}

/// Refuses a session id that could escape the candidate root.
pub fn validate_session_id(session_id: &str) -> (r: Result<(), AppendAuthorityError>)
    ensures
        r is Ok <==> session_id_safe_spec(session_id@),
        r is Err ==> r->Err_0@ == append_error("unsafe-session-id"@, "session id escapes candidate root"@),
{
    let chars = chars_of(session_id);
    if chars.len() == 0 || session_id.as_bytes().len() > 128 || contains_char(&chars, '/') || contains_char(
        &chars,
        '\\',
    ) || crate::text::str_eq(session_id, ".") || crate::text::str_eq(session_id, "..") {
        return Err(AppendAuthorityError::new("unsafe-session-id", "session id escapes candidate root"));
    }
    Ok(())
}

/// Refuses an append that would take the log past its bounded record count.
pub fn validate_record_capacity(current_record_count: usize) -> (r: Result<(), AppendAuthorityError>)
    ensures
        r is Ok <==> current_record_count + 2 <= MAX_RECORD_COUNT,
        r is Err ==> r->Err_0@ == append_error(
            "record-count-exhausted"@,
            "append transition would exceed the bounded record count"@,
        ),
{
    if current_record_count > MAX_RECORD_COUNT - 2 {
        Err(
            AppendAuthorityError::new(
                "record-count-exhausted",
                "append transition would exceed the bounded record count",
            ),
        )
    } else {
        Ok(())
    }
}

/// A state with its derived fields rebuilt, then normalized.
pub open spec fn canonicalized_view(
    s: CurrentContractStateView,
    rules: ContractRulesView,
    readings: Seq<TranscriptReadingView>,
) -> CurrentContractStateView {
    normalize_view(finalized_view(s, rules, readings))
}

/// Whether the authoritative collections of a state already stand in
/// normalized order (its derived fields may stand in any order).
pub open spec fn canonical_collections_in_order(x: CurrentContractStateView) -> bool {
    let n = normalize_view(x);
    n == with_derived_fields(
        x,
        n.effective_review_status,
        n.effective_reusable_records,
        n.historical_reusable_records,
        n.reusable_snapshot_identity,
        n.derived_queue_projection,
    )
}

/// Canonicalizing a state whose authoritative collections are in order gives
/// a fixpoint: canonicalizing the result again changes nothing.
pub proof fn law_canonicalization_is_fixpoint(
    x: CurrentContractStateView,
    rules: ContractRulesView,
    readings: Seq<TranscriptReadingView>,
)
    requires
        canonical_collections_in_order(x),
    ensures
        canonicalized_view(canonicalized_view(x, rules, readings), rules, readings) == canonicalized_view(x, rules, readings),
{
    let c = canonicalized_view(x, rules, readings);
    let n = normalize_view(x);
    assert(c == with_derived_fields(
        x,
        c.effective_review_status,
        c.effective_reusable_records,
        c.historical_reusable_records,
        c.reusable_snapshot_identity,
        c.derived_queue_projection,
    ));
    law_derivation_ignores_derived_fields(
        x,
        rules,
        readings,
        c.effective_review_status,
        c.effective_reusable_records,
        c.historical_reusable_records,
        c.reusable_snapshot_identity,
        c.derived_queue_projection,
    );
    assert(finalized_view(c, rules, readings) == finalized_view(x, rules, readings));
}

/// A state with its derived fields rebuilt, then normalized.
pub fn canonicalized_state(
    state: CurrentContractState,
    rules: &ContractRules,
    readings: &Vec<TranscriptReading>,
) -> (r: CurrentContractState)
    ensures
        r@ == canonicalized_view(state@, rules@, vec_view(readings@)),
{
    let mut s = state;
    finalize_derived_fields(&mut s, rules, readings);
    s.normalize()
}

/// The oracle's findings about a canonicalized state.
#[verifier::opaque]
pub open spec fn state_violations_spec(
    s: CurrentContractStateView,
    rules: ContractRulesView,
    readings: Seq<TranscriptReadingView>,
) -> Seq<crate::violations::OracleDiagnosticV3View> {
    validate_violations_spec(canonicalized_view(s, rules, readings), rules, readings)
}

/// Accepts a state only if the oracle finds nothing wrong with it once canonicalized.
pub fn validate_state(
    state: &CurrentContractState,
    rules: &ContractRules,
    readings: &Vec<TranscriptReading>,
) -> (r: Result<(), AppendAuthorityError>)
    ensures
        r is Ok <==> state_violations_spec(state@, rules@, vec_view(readings@)).len() == 0,
        r is Err ==> r->Err_0@ == append_error(
            "current-contract-oracle-rejected"@,
            decimal_spec(state_violations_spec(state@, rules@, vec_view(readings@)).len()) + " oracle violations"@,
        ),
{
    let canonical = canonicalized_state(state.clone(), rules, readings);
    let result = CurrentContractOracle::validate(&canonical, rules, readings);
    proof {
        reveal(state_violations_spec);
    }
    if result.passed {
        Ok(())
    } else {
        let count = decimal(result.violations.len());
        let message = concat2(count.as_str(), " oracle violations");
        Err(AppendAuthorityError::new("current-contract-oracle-rejected", message.as_str()))
    }
}

/// The append-authoritative candidate, rooted at a storage directory.
pub struct AppendAuthoritativeCandidateAdapter {
    storage_root: String,
    adapter_identity: String,
}

/// The mathematical value of an [`AppendAuthoritativeCandidateAdapter`].
pub struct AppendAuthoritativeCandidateAdapterView {
    pub storage_root: Seq<char>,
    pub adapter_identity: Seq<char>,
}

impl View for AppendAuthoritativeCandidateAdapter {
    type V = AppendAuthoritativeCandidateAdapterView;

    closed spec fn view(&self) -> AppendAuthoritativeCandidateAdapterView {
        AppendAuthoritativeCandidateAdapterView {
            storage_root: self.storage_root@,
            adapter_identity: self.adapter_identity@,
        }
    }
}

impl AppendAuthoritativeCandidateAdapter {
    /// The candidate rooted at a directory that already exists, with the
    /// identity that marks its writer locks.
    pub fn from_parts(storage_root: String, adapter_identity: String) -> (r: Self)
        ensures
            r@ == (AppendAuthoritativeCandidateAdapterView {
                storage_root: storage_root@,
                adapter_identity: adapter_identity@,
            }),
    {
        AppendAuthoritativeCandidateAdapter { storage_root, adapter_identity }
    }

    /// The storage directory.
    pub fn storage_root(&self) -> (r: &str)
        ensures
            r@ == self@.storage_root,
    {
        self.storage_root.as_str()
    }

    /// The identity that marks this adapter's writer locks.
    pub fn adapter_identity(&self) -> (r: &str)
        ensures
            r@ == self@.adapter_identity,
    {
        self.adapter_identity.as_str()
    }

    /// Accepts a handle for a write only if this adapter opened it and it
    /// still holds the writer lock.
    pub fn validate_writer_lock(&self, opened: &OpenedAppendAuthoritySession) -> (r: Result<(), AppendAuthorityError>)
        ensures
            append_result_view(r) == writer_lock_check_spec(self@.adapter_identity, opened.handle_view()),
    {
        if !crate::text::str_eq(opened.adapter_identity.as_str(), self.adapter_identity.as_str()) {
            return Err(
                AppendAuthorityError::new("foreign-writer-handle", "writer handle belongs to a different adapter instance"),
            );
        }
        let token = match &opened.writer_token {
            Some(t) => t,
            None => {
                return Err(AppendAuthorityError::new("not-authoritative-writer", "writable handle lacks a writer lock"));
            },
        };
        if opened.holds_writer_lock && chars_of(token.as_str()).len() > 0 {
            Ok(())
        } else {
            Err(
                AppendAuthorityError::new(
                    "writer-lock-token-mismatch",
                    "writable handle no longer owns the candidate writer lock",
                ),
            )
        }
    }

    /// The candidate id.
    pub fn candidate_id(&self) -> (r: &'static str)
        ensures
            r@ == APPEND_AUTHORITATIVE_CANDIDATE_ID@,
    {
        APPEND_AUTHORITATIVE_CANDIDATE_ID
    }

    /// The candidate version.
    pub fn candidate_version(&self) -> (r: &'static str)
        ensures
            r@ == APPEND_AUTHORITATIVE_CANDIDATE_VERSION@,
    {
        APPEND_AUTHORITATIVE_CANDIDATE_VERSION
    }

    /// Refuses an append that would take the log past its bounded record count.
    pub fn validate_record_capacity_for_test(&self, current_record_count: usize) -> (r: Result<(), AppendAuthorityError>)
        ensures
            r is Ok <==> current_record_count + 2 <= MAX_RECORD_COUNT,
            r is Err ==> r->Err_0@ == append_error(
                "record-count-exhausted"@,
                "append transition would exceed the bounded record count"@,
            ),
    {
        validate_record_capacity(current_record_count)
    }
}

} // verus!
