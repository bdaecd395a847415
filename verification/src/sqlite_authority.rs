use vstd::prelude::*;
use crate::derivation::{finalize_derived_fields, finalized_view, TranscriptReading, TranscriptReadingView};
use crate::digest::{digest_hex, hex_spec, sha256, sha256_spec};
use crate::model::{normalize_view, opt_view, vec_view, CurrentContractState, CurrentContractStateView};
use crate::oracle::{validate_violations_spec, CurrentContractOracle};
use crate::production_bridge::{ContractRules, ContractRulesView};
use crate::text::{chars_of, concat2, decimal, decimal_spec, has_prefix_spec, str_eq, strip_prefix, string_from_chars};

verus! {

/// The identifier of the SQLite-authoritative candidate.
pub const SQLITE_AUTHORITATIVE_CANDIDATE_ID: &'static str = "current-contract-sqlite-authoritative-candidate";

/// The version of the SQLite-authoritative candidate.
pub const SQLITE_AUTHORITATIVE_CANDIDATE_VERSION: &'static str = "01C-SQLITE-2";

/// The storage format version the SQLite candidate writes.
pub const SQLITE_AUTHORITATIVE_FORMAT_VERSION: u32 = 1;

/// Why the SQLite candidate refused an operation: a stable code and a message.
#[derive(Debug)]
pub struct SqliteAuthorityError {
    pub code: &'static str,
    pub message: String,
}

/// The mathematical value of an [`SqliteAuthorityError`].
pub struct SqliteAuthorityErrorView {
    pub code: Seq<char>,
    pub message: Seq<char>,
}

impl View for SqliteAuthorityError {
    type V = SqliteAuthorityErrorView;

    open spec fn view(&self) -> SqliteAuthorityErrorView {
        SqliteAuthorityErrorView { code: self.code@, message: self.message@ }
    }
}

impl Clone for SqliteAuthorityError {
    fn clone(&self) -> (r: Self)
        ensures
            r@ == self@,
    {
        SqliteAuthorityError { code: self.code, message: self.message.clone() }
    }
}

/// The error with the given code and message.
pub open spec fn sqlite_error(code: Seq<char>, message: Seq<char>) -> SqliteAuthorityErrorView {
    SqliteAuthorityErrorView { code, message }
}

impl SqliteAuthorityError {
    /// The error with the given code and message.
    pub fn new(code: &'static str, message: &str) -> (r: Self)
        ensures
            r@ == sqlite_error(code@, message@),
    {
        SqliteAuthorityError { code, message: String::from_str(message) }
    }

    /// `<code>: <message>`.
    pub fn describe(&self) -> (r: String)
        ensures
            r@ == self.code@ + ": "@ + self.message@,
    {
        crate::text::concat3(self.code, ": ", self.message.as_str())
    }
}

/// The result of an append-candidate check, as a value.
pub open spec fn sqlite_result_view<T>(r: Result<T, SqliteAuthorityError>) -> Result<T, SqliteAuthorityErrorView> {
    match r {
        Ok(v) => Ok(v),
        Err(e) => Err(e@),
    }
}

/// A session the SQLite candidate has created: its id and its directory.
pub struct SqliteAuthoritySession {
    session_id: String,
    root: String,
}

/// The mathematical value of an [`SqliteAuthoritySession`].
pub struct SqliteAuthoritySessionView {
    pub session_id: Seq<char>,
    pub root: Seq<char>,
}

impl View for SqliteAuthoritySession {
    type V = SqliteAuthoritySessionView;

    closed spec fn view(&self) -> SqliteAuthoritySessionView {
        SqliteAuthoritySessionView { session_id: self.session_id@, root: self.root@ }
    }
}

impl SqliteAuthoritySession {
    /// A session with this id stored under this directory.
    pub fn from_parts(session_id: String, root: String) -> (r: Self)
        ensures
            r@ == (SqliteAuthoritySessionView { session_id: session_id@, root: root@ }),
    {
        SqliteAuthoritySession { session_id, root }
    }

    /// The session id.
    pub fn session_id(&self) -> (r: &str)
        ensures
            r@ == self@.session_id,
    {
        self.session_id.as_str()
    }

    /// The session's storage directory.
    pub fn storage_path_for_test(&self) -> (r: &str)
        ensures
            r@ == self@.root,
    {
        self.root.as_str()
    }
}

/// Whether a session is opened for writing or for reading only.
#[derive(Debug, Clone, Copy, PartialEq, Eq, Structural)]
pub enum SqliteOpenMode {
    Writable,
    ReadOnly,
}

/// The generation and authority heads a full-state write was prepared against.
pub struct CurrentContractPreconditions {
    pub expected_generation: u64,
    pub review_ledger_head: usize,
    pub reuse_governance_head: usize,
    pub active_analysis_snapshot_identity: String,
}

/// The mathematical value of a [`CurrentContractPreconditions`].
pub struct CurrentContractPreconditionsView {
    pub expected_generation: u64,
    pub review_ledger_head: usize,
    pub reuse_governance_head: usize,
    pub active_analysis_snapshot_identity: Seq<char>,
}

impl View for CurrentContractPreconditions {
    type V = CurrentContractPreconditionsView;

    open spec fn view(&self) -> CurrentContractPreconditionsView {
        CurrentContractPreconditionsView {
            expected_generation: self.expected_generation,
            review_ledger_head: self.review_ledger_head,
            reuse_governance_head: self.reuse_governance_head,
            active_analysis_snapshot_identity: self.active_analysis_snapshot_identity@,
        }
    }
}

impl Clone for CurrentContractPreconditions {
    fn clone(&self) -> (r: Self)
        ensures
            r@ == self@,
    {
        CurrentContractPreconditions {
            expected_generation: self.expected_generation,
            review_ledger_head: self.review_ledger_head,
            reuse_governance_head: self.reuse_governance_head,
            active_analysis_snapshot_identity: self.active_analysis_snapshot_identity.clone(),
        }
    }
}

/// A session opened on the SQLite candidate: the committed generation and
/// state it was opened at, how it was opened, by which adapter, and, for a
/// writer, the token and epoch of its lease.
pub struct OpenedSqliteAuthoritySession {
    pub session: SqliteAuthoritySession,
    pub committed_generation: u64,
    open_mode: SqliteOpenMode,
    adapter_identity: String,
    writer_token: Option<String>,
    writer_epoch: Option<i64>,
    normalized_state: CurrentContractState,
}

/// The mathematical value of an [`OpenedSqliteAuthoritySession`].
pub struct OpenedSqliteAuthoritySessionView {
    pub session: SqliteAuthoritySessionView,
    pub committed_generation: u64,
    pub open_mode: SqliteOpenMode,
    pub adapter_identity: Seq<char>,
    pub writer_token: Option<Seq<char>>,
    pub writer_epoch: Option<i64>,
    pub normalized_state: CurrentContractStateView,
}

impl View for OpenedSqliteAuthoritySession {
    type V = OpenedSqliteAuthoritySessionView;

    closed spec fn view(&self) -> OpenedSqliteAuthoritySessionView {
        OpenedSqliteAuthoritySessionView {
            session: self.session@,
            committed_generation: self.committed_generation,
            open_mode: self.open_mode,
            adapter_identity: self.adapter_identity@,
            writer_token: opt_view(self.writer_token),
            writer_epoch: self.writer_epoch,
            normalized_state: self.normalized_state@,
        }
    }
}

/// The preconditions a command prepared on a session opened at `o` carries.
pub open spec fn handle_preconditions_spec(o: OpenedSqliteAuthoritySessionView) -> CurrentContractPreconditionsView {
    CurrentContractPreconditionsView {
        expected_generation: o.committed_generation,
        review_ledger_head: o.normalized_state.durable_command_tokens.review_ledger_head,
        reuse_governance_head: o.normalized_state.durable_command_tokens.reuse_governance_head,
        active_analysis_snapshot_identity: o.normalized_state.durable_command_tokens.active_analysis_snapshot_identity,
    }
}

impl OpenedSqliteAuthoritySession {
    /// An opened session from what opening it read and acquired.
    pub fn from_parts(
        session: SqliteAuthoritySession,
        committed_generation: u64,
        open_mode: SqliteOpenMode,
        adapter_identity: String,
        writer_token: Option<String>,
        writer_epoch: Option<i64>,
        normalized_state: CurrentContractState,
    ) -> (r: Self)
        ensures
            r@ == (OpenedSqliteAuthoritySessionView {
                session: session@,
                committed_generation,
                open_mode,
                adapter_identity: adapter_identity@,
                writer_token: opt_view(writer_token),
                writer_epoch,
                normalized_state: normalized_state@,
            }),
    {
        OpenedSqliteAuthoritySession {
            session,
            committed_generation,
            open_mode,
            adapter_identity,
            writer_token,
            writer_epoch,
            normalized_state,
        }
    }

    /// The session opened.
    pub fn session(&self) -> (r: &SqliteAuthoritySession)
        ensures
            r@ == self@.session,
    {
        &self.session
    }

    /// The state the session was opened at.
    pub fn normalized_state(&self) -> (r: &CurrentContractState)
        ensures
            r@ == self@.normalized_state,
    {
        &self.normalized_state
    }

    /// The writer token of the session's lease, if it was opened for writing.
    pub fn writer_token(&self) -> (r: Option<&str>)
        ensures
            (match r {
                Some(t) => Some(t@),
                None => None,
            }) == self@.writer_token,
    {
        match &self.writer_token {
            Some(t) => Some(t.as_str()),
            None => None,
        }
    }

    /// The writer epoch of the session's lease, if it was opened for writing.
    pub fn writer_epoch(&self) -> (r: Option<i64>)
        ensures
            r == self@.writer_epoch,
    {
        self.writer_epoch
    }

    /// The preconditions a command prepared on this session carries: the
    /// generation and scope heads it was opened at.
    pub fn authoritative_preconditions(&self) -> (r: CurrentContractPreconditions)
        ensures
            r@ == handle_preconditions_spec(self@),
    {
        CurrentContractPreconditions {
            expected_generation: self.committed_generation,
            review_ledger_head: self.normalized_state.durable_command_tokens.review_ledger_head,
            reuse_governance_head: self.normalized_state.durable_command_tokens.reuse_governance_head,
            active_analysis_snapshot_identity: self.normalized_state.durable_command_tokens.active_analysis_snapshot_identity.clone(),
        }
    }
}

/// What a write through a handle requires of it: this adapter opened it, for
/// writing, and it holds a lease token and epoch.
pub open spec fn writable_handle_spec(
    adapter_identity: Seq<char>,
    o: OpenedSqliteAuthoritySessionView,
) -> Result<(), SqliteAuthorityErrorView> {
    if o.adapter_identity != adapter_identity {
        Err(sqlite_error("foreign-writer-handle"@, "writer handle belongs to another candidate instance"@))
    } else if o.open_mode != SqliteOpenMode::Writable || o.writer_token is None || o.writer_epoch is None {
        Err(sqlite_error("not-authoritative-writer"@, "operation requires a live writable authority handle"@))
    } else {
        Ok(())
    }
}

/// The acknowledgement of a durable SQLite commit.
pub struct DurableSqliteAck {
    pub committed_generation: u64,
    pub canonical_fingerprint: String,
}

/// Whether a session id is bounded and no path: non-empty, at most 128
/// bytes, no NUL, no path separators, not `.` or `..`.
pub open spec fn session_id_safe_spec(id: Seq<char>) -> bool {
    &&& id.len() > 0
    &&& vstd::utf8::encode_utf8(id).len() <= 128
    &&& !id.contains('\0')
    &&& !id.contains('/')
    &&& !id.contains('\\')
    &&& id != "."@
    &&& id != ".."@
}

fn contains_char(chars: &Vec<char>, c: char) -> (r: bool)
    ensures
        r == chars@.contains(c),
{
    let mut i: usize = 0;
    while i < chars.len()
        invariant
            i <= chars.len(),
            forall|j: int| 0 <= j < i ==> chars@[j] != c,
        decreases chars.len() - i,
    {
        if chars[i] == c {
            proof {
                assert(chars@[i as int] == c);
            }
            return true;
        }
        i = i + 1;
    }
    false
}

/// Refuses a session id that could escape the candidate root.
pub fn validate_session_id(session_id: &str) -> (r: Result<(), SqliteAuthorityError>)
    ensures
        r is Ok <==> session_id_safe_spec(session_id@),
        r is Err ==> r->Err_0@ == sqlite_error("unsafe-session-id"@, "semantic session identity must be bounded, non-NUL, and not a path"@),
{
    let chars = chars_of(session_id);
    if chars.len() == 0 || session_id.as_bytes().len() > 128 || contains_char(&chars, '\0') || contains_char(&chars, '/') || contains_char(
        &chars,
        '\\',
    ) || crate::text::str_eq(session_id, ".") || crate::text::str_eq(session_id, "..") {
        return Err(SqliteAuthorityError::new("unsafe-session-id", "semantic session identity must be bounded, non-NUL, and not a path"));
    }
    Ok(())
}

/// A state with its derived fields rebuilt, then normalized.
pub open spec fn canonicalized_view(
    s: CurrentContractStateView,
    rules: ContractRulesView,
    readings: Seq<TranscriptReadingView>,
) -> CurrentContractStateView {
    normalize_view(finalized_view(s, rules, readings))
}

/// A state with its derived fields rebuilt, then normalized.
pub fn canonicalized_state(
    state: CurrentContractState,
    rules: &ContractRules,
    readings: &Vec<TranscriptReading>,
) -> (r: CurrentContractState)
    ensures
        r@ == canonicalized_view(state@, rules@, vec_view(readings@)),
{
    let mut s = state;
    finalize_derived_fields(&mut s, rules, readings);
    s.normalize()
}

/// The oracle's findings about a state.
#[verifier::opaque]
pub open spec fn sqlite_state_violations_spec(
    s: CurrentContractStateView,
    rules: ContractRulesView,
    readings: Seq<TranscriptReadingView>,
) -> Seq<crate::violations::OracleDiagnosticV3View> {
    validate_violations_spec(s, rules, readings)
}

/// Accepts a state only if the oracle finds nothing wrong with it.
pub fn validate_state(
    state: &CurrentContractState,
    rules: &ContractRules,
    readings: &Vec<TranscriptReading>,
) -> (r: Result<(), SqliteAuthorityError>)
    ensures
        r is Ok <==> sqlite_state_violations_spec(state@, rules@, vec_view(readings@)).len() == 0,
        r is Err ==> r->Err_0@ == sqlite_error(
            "current-contract-oracle-rejected"@,
            decimal_spec(sqlite_state_violations_spec(state@, rules@, vec_view(readings@)).len())
                + " current-contract oracle violation(s)"@,
        ),
{
    let result = CurrentContractOracle::validate(state, rules, readings);
    proof {
        reveal(sqlite_state_violations_spec);
    }
    if result.passed {
        Ok(())
    } else {
        let count = decimal(result.violations.len());
        let message = concat2(count.as_str(), " current-contract oracle violation(s)");
        Err(SqliteAuthorityError::new("current-contract-oracle-rejected", message.as_str()))
    }
}

/// `vp-session-v1-<hex sha256 of the session id>`: the storage key of a session.
pub open spec fn physical_storage_key_spec(session_id: Seq<char>) -> Seq<char> {
    "vp-session-v1-"@ + hex_spec(sha256_spec(vstd::utf8::encode_utf8(session_id)))
}

/// No session id is ever used as a path: the storage key of any id is
/// `vp-session-v1-` followed only by lower-case hexadecimal digits, so it holds
/// no separator and is neither `.` nor `..`.
pub proof fn law_storage_key_is_never_a_path(session_id: Seq<char>)
    ensures
        has_prefix_spec(physical_storage_key_spec(session_id), "vp-session-v1-"@),
        forall|i: int|
            "vp-session-v1-"@.len() <= i < physical_storage_key_spec(session_id).len()
                ==> crate::text::is_lower_hex_spec(#[trigger] physical_storage_key_spec(session_id)[i]),
        !physical_storage_key_spec(session_id).contains('/'),
        !physical_storage_key_spec(session_id).contains('\\'),
        !physical_storage_key_spec(session_id).contains('\0'),
        physical_storage_key_spec(session_id) != "."@,
        physical_storage_key_spec(session_id) != ".."@,
{
    reveal_strlit("vp-session-v1-");
    reveal_strlit(".");
    reveal_strlit("..");
    let prefix = "vp-session-v1-"@;
    let digits = hex_spec(sha256_spec(vstd::utf8::encode_utf8(session_id)));
    let key = physical_storage_key_spec(session_id);
    crate::digest::lemma_hex_digits(sha256_spec(vstd::utf8::encode_utf8(session_id)));
    assert(key.subrange(0, prefix.len() as int) =~= prefix);
    assert(key.len() >= 14);
    assert(key.len() != "."@.len());
    assert(key.len() != ".."@.len());
    assert forall|i: int| prefix.len() <= i < key.len() implies crate::text::is_lower_hex_spec(#[trigger] key[i]) by {
        assert(key[i] == digits[i - prefix.len()]);
    }
    assert forall|i: int| 0 <= i < key.len() implies key[i] != '/' && key[i] != '\\' && key[i] != '\0' by {
        if i >= prefix.len() {
            assert(crate::text::is_lower_hex_spec(key[i]));
        } else {
            assert(key[i] == prefix[i]);
        }
    }
}

/// The storage key of a session, which no session id can steer.
pub fn physical_storage_key(session_id: &str) -> (r: String)
    ensures
        r@ == physical_storage_key_spec(session_id@),
{
    let digest = sha256(session_id.as_bytes());
    let hex = digest_hex(digest.as_slice());
    concat2("vp-session-v1-", hex.as_str())
}

/// The writer token of a duplicated session: the local part of a contract
/// session id, or the hexadecimal bytes of any other id.
pub open spec fn duplicate_writer_token_spec(session_id: Seq<char>) -> Seq<char> {
    if has_prefix_spec(session_id, "session:current-contract:"@) {
        "writer:"@ + session_id.skip("session:current-contract:"@.len() as int)
    } else {
        "writer-encoded-session-id-v1:"@ + hex_spec(vstd::utf8::encode_utf8(session_id))
    }
}

/// The writer token of a duplicated session.
pub fn derive_duplicate_evidence_writer_token(session_id: &str) -> (r: String)
    ensures
        r@ == duplicate_writer_token_spec(session_id@),
{
    match strip_prefix(session_id, "session:current-contract:") {
        Some(rest) => {
            let local = string_from_chars(&rest);
            proof {
                reveal_strlit("session:current-contract:");
                assert(local@ =~= session_id@.skip("session:current-contract:"@.len() as int));
            }
            concat2("writer:", local.as_str())
        },
        None => {
            let hex = digest_hex(session_id.as_bytes());
            proof {
                reveal_strlit("session:current-contract:");
            }
            concat2("writer-encoded-session-id-v1:", hex.as_str())
        },
    }
}

/// The SQLite-authoritative candidate, rooted at a storage directory.
pub struct SqliteAuthoritativeCandidateAdapter {
    storage_root: String,
    adapter_identity: String,
}

/// The mathematical value of an [`SqliteAuthoritativeCandidateAdapter`].
pub struct SqliteAuthoritativeCandidateAdapterView {
    pub storage_root: Seq<char>,
    pub adapter_identity: Seq<char>,
}

impl View for SqliteAuthoritativeCandidateAdapter {
    type V = SqliteAuthoritativeCandidateAdapterView;

    closed spec fn view(&self) -> SqliteAuthoritativeCandidateAdapterView {
        SqliteAuthoritativeCandidateAdapterView {
            storage_root: self.storage_root@,
            adapter_identity: self.adapter_identity@,
        }
    }
}

impl SqliteAuthoritativeCandidateAdapter {
    /// The candidate rooted at a directory that already exists, with the
    /// identity that marks its writer locks.
    pub fn from_parts(storage_root: String, adapter_identity: String) -> (r: Self)
        ensures
            r@ == (SqliteAuthoritativeCandidateAdapterView {
                storage_root: storage_root@,
                adapter_identity: adapter_identity@,
            }),
    {
        SqliteAuthoritativeCandidateAdapter { storage_root, adapter_identity }
    }

    /// The storage directory.
    pub fn storage_root(&self) -> (r: &str)
        ensures
            r@ == self@.storage_root,
    {
        self.storage_root.as_str()
    }

    /// The identity that marks this adapter's writer locks.
    pub fn adapter_identity(&self) -> (r: &str)
        ensures
            r@ == self@.adapter_identity,
    {
        self.adapter_identity.as_str()
    }

    /// The candidate id.
    pub fn candidate_id(&self) -> (r: &'static str)
        ensures
            r@ == SQLITE_AUTHORITATIVE_CANDIDATE_ID@,
    {
        SQLITE_AUTHORITATIVE_CANDIDATE_ID
    }

    /// The candidate version.
    pub fn candidate_version(&self) -> (r: &'static str)
        ensures
            r@ == SQLITE_AUTHORITATIVE_CANDIDATE_VERSION@,
    {
        SQLITE_AUTHORITATIVE_CANDIDATE_VERSION
    }

    /// Accepts a handle for a write only if this adapter opened it for
    /// writing and it holds a lease.
    pub fn validate_writable_handle(&self, opened: &OpenedSqliteAuthoritySession) -> (r: Result<(), SqliteAuthorityError>)
        ensures
            (match r {
                Ok(()) => Ok(()),
                Err(e) => Err(e@),
            }) == writable_handle_spec(self@.adapter_identity, opened@),
    {
        if !str_eq(opened.adapter_identity.as_str(), self.adapter_identity.as_str()) {
            return Err(SqliteAuthorityError::new("foreign-writer-handle", "writer handle belongs to another candidate instance"));
        }
        if opened.open_mode != SqliteOpenMode::Writable || opened.writer_token.is_none() || opened.writer_epoch.is_none() {
            return Err(
                SqliteAuthorityError::new("not-authoritative-writer", "operation requires a live writable authority handle"),
            );
        }
        Ok(())
    }

    /// The storage format version.
    pub fn format_version(&self) -> (r: u32)
        ensures
            r == SQLITE_AUTHORITATIVE_FORMAT_VERSION,
    {
        SQLITE_AUTHORITATIVE_FORMAT_VERSION
    }
}

} // verus!
