//! Replay of the append candidate's authoritative log.
//!
//! The log is a sequence of records: a state record proposes the next
//! canonical state and a commit record acknowledges it by sequence number and
//! canonical fingerprint. Replay accepts only the strict alternation
//! state/commit in sequence order, refuses commits that do not bind the state
//! they follow or that repeat a committed canonical identity, and reports what
//! lies after the last commit.
use vstd::prelude::*;
use crate::append_authority::{
    append_error, canonical_collections_in_order, canonicalized_state, canonicalized_view, law_canonicalization_is_fixpoint,
    state_violations_spec, validate_state,
    AppendAuthorityError, AppendAuthorityErrorView, AppendTailStatus, MAX_RECORD_COUNT,
};
use crate::derivation::{TranscriptReading, TranscriptReadingView};
use crate::model::{canonical_projection_view, vec_view, CurrentContractState, CurrentContractStateView};
use crate::oracle::{canonical_fingerprint, canonical_fingerprint_spec};
use crate::production_bridge::{ContractRules, ContractRulesView};
use crate::text::{decimal_spec, str_eq};

verus! {

/// One record of the append log.
pub enum AppendRecord {
    State { sequence: u64, state: CurrentContractState },
    Commit { sequence: u64, canonical_fingerprint: String },
}

/// The mathematical value of an [`AppendRecord`].
pub enum AppendRecordView {
    State { sequence: u64, state: CurrentContractStateView },
    Commit { sequence: u64, canonical_fingerprint: Seq<char> },
}

impl View for AppendRecord {
    type V = AppendRecordView;

    open spec fn view(&self) -> AppendRecordView {
        match self {
            AppendRecord::State { sequence, state } => AppendRecordView::State { sequence: *sequence, state: state@ },
            AppendRecord::Commit { sequence, canonical_fingerprint } => AppendRecordView::Commit {
                sequence: *sequence,
                canonical_fingerprint: canonical_fingerprint@,
            },
        }
    }
}

/// One line read from the append log: a line that could not be read, or a
/// complete line with its length in bytes and the record it parsed to (or the
/// parser's message).
pub enum AppendLogEntry {
    Unreadable { error: AppendAuthorityError },
    Line { byte_len: u64, parsed: Result<AppendRecord, String> },
}

/// The mathematical value of an [`AppendLogEntry`].
pub enum AppendLogEntryView {
    Unreadable { error: AppendAuthorityErrorView },
    Line { byte_len: u64, parsed: Result<AppendRecordView, Seq<char>> },
}

impl View for AppendLogEntry {
    type V = AppendLogEntryView;

    open spec fn view(&self) -> AppendLogEntryView {
        match self {
            AppendLogEntry::Unreadable { error } => AppendLogEntryView::Unreadable { error: error@ },
            AppendLogEntry::Line { byte_len, parsed } => AppendLogEntryView::Line {
                byte_len: *byte_len,
                parsed: match parsed {
                    Ok(r) => Ok(r@),
                    Err(m) => Err(m@),
                },
            },
        }
    }
}

/// The entries of a log, as values.
pub open spec fn entries_view(entries: Seq<AppendLogEntry>) -> Seq<AppendLogEntryView> {
    entries.map_values(|e: AppendLogEntry| e@)
}

/// The bytes of the complete lines of a log.
pub open spec fn log_bytes_spec(entries: Seq<AppendLogEntryView>) -> nat
    decreases entries.len(),
{
    if entries.len() == 0 {
        0
    } else {
        log_bytes_spec(entries.drop_last()) + match entries.last() {
            AppendLogEntryView::Line { byte_len, .. } => byte_len as nat,
            AppendLogEntryView::Unreadable { .. } => 0,
        }
    }
}

/// What replay knows after a prefix of the log.
pub struct ReplayProgress {
    pub expected_sequence: nat,
    pub record_count: nat,
    pub pending: Option<(u64, CurrentContractStateView)>,
    pub committed: Option<CurrentContractStateView>,
    pub fingerprints: Seq<Seq<char>>,
    pub byte_offset: nat,
    pub committed_byte_boundary: nat,
}

/// Replay before the first line.
pub open spec fn replay_start() -> ReplayProgress {
    ReplayProgress {
        expected_sequence: 1,
        record_count: 0,
        pending: None,
        committed: None,
        fingerprints: Seq::empty(),
        byte_offset: 0,
        committed_byte_boundary: 0,
    }
}

/// Replay of one more line.
#[verifier::opaque]
pub open spec fn replay_step(
    p: ReplayProgress,
    entry: AppendLogEntryView,
    rules: ContractRulesView,
    readings: Seq<TranscriptReadingView>,
) -> Result<ReplayProgress, AppendAuthorityErrorView> {
    match entry {
        AppendLogEntryView::Unreadable { error } => Err(error),
        AppendLogEntryView::Line { byte_len, parsed } => {
            let offset = (p.byte_offset + byte_len) as nat;
            let count = p.record_count + 1;
            if count > MAX_RECORD_COUNT {
                Err(append_error("record-count-exceeded"@, "append record count exceeds bound"@))
            } else {
                match parsed {
                    Err(message) => Err(append_error("malformed-authoritative-record"@, message)),
                    Ok(AppendRecordView::State { sequence, state }) => {
                        if p.pending is Some || sequence != p.expected_sequence {
                            Err(append_error("invalid-append-order"@, "state record is out of authoritative order"@))
                        } else {
                            let c = canonicalized_view(state, rules, readings);
                            let violations = state_violations_spec(c, rules, readings);
                            if violations.len() > 0 {
                                Err(
                                    append_error(
                                        "current-contract-oracle-rejected"@,
                                        decimal_spec(violations.len()) + " oracle violations"@,
                                    ),
                                )
                            } else {
                                Ok(ReplayProgress { pending: Some((sequence, c)), byte_offset: offset, record_count: count, ..p })
                            }
                        }
                    },
                    Ok(AppendRecordView::Commit { sequence, canonical_fingerprint }) => match p.pending {
                        None => Err(append_error("commit-without-state"@, "commit has no preceding state record"@)),
                        Some((pending_sequence, state)) => {
                            let fingerprint = canonical_fingerprint_spec(canonical_projection_view(state));
                            if sequence != pending_sequence {
                                Err(
                                    append_error(
                                        "commit-sequence-mismatch"@,
                                        "commit does not acknowledge its state record"@,
                                    ),
                                )
                            } else if canonical_fingerprint != fingerprint {
                                Err(
                                    append_error(
                                        "commit-fingerprint-mismatch"@,
                                        "commit does not bind the preceding canonical state"@,
                                    ),
                                )
                            } else if p.fingerprints.contains(fingerprint) {
                                Err(
                                    append_error(
                                        "duplicate-canonical-identity"@,
                                        "committed append records repeat canonical identity"@,
                                    ),
                                )
                            } else {
                                Ok(
                                    ReplayProgress {
                                        expected_sequence: p.expected_sequence + 1,
                                        record_count: count,
                                        pending: None,
                                        committed: Some(state),
                                        fingerprints: p.fingerprints.push(fingerprint),
                                        byte_offset: offset,
                                        committed_byte_boundary: offset,
                                    },
                                )
                            }
                        },
                    },
                }
            }
        },
    }
}

/// Replay of the first lines of a log.
pub open spec fn replay_prefix(
    entries: Seq<AppendLogEntryView>,
    rules: ContractRulesView,
    readings: Seq<TranscriptReadingView>,
) -> Result<ReplayProgress, AppendAuthorityErrorView>
    decreases entries.len(),
{
    if entries.len() == 0 {
        Ok(replay_start())
    } else {
        match replay_prefix(entries.drop_last(), rules, readings) {
            Err(e) => Err(e),
            Ok(p) => replay_step(p, entries.last(), rules, readings),
        }
    }
}

/// What replay of a whole log establishes.
pub struct ReplayResult {
    pub committed_sequence: u64,
    pub tail_status: AppendTailStatus,
    pub state: CurrentContractState,
    pub canonical_fingerprints: Vec<String>,
    pub committed_byte_boundary: u64,
    pub record_count: usize,
}

/// The mathematical value of a [`ReplayResult`].
pub struct ReplayResultView {
    pub committed_sequence: u64,
    pub tail_status: AppendTailStatus,
    pub state: CurrentContractStateView,
    pub canonical_fingerprints: Seq<Seq<char>>,
    pub committed_byte_boundary: u64,
    pub record_count: usize,
}

impl View for ReplayResult {
    type V = ReplayResultView;

    open spec fn view(&self) -> ReplayResultView {
        ReplayResultView {
            committed_sequence: self.committed_sequence,
            tail_status: self.tail_status,
            state: self.state@,
            canonical_fingerprints: vec_view(self.canonical_fingerprints@),
            committed_byte_boundary: self.committed_byte_boundary,
            record_count: self.record_count,
        }
    }
}

/// Replay of a whole log of `file_len` bytes: the last committed state, its
/// sequence, the committed fingerprints in commit order, and whether bytes
/// follow the last commit (an uncommitted state record, or an incomplete line).
pub open spec fn replay_spec(
    entries: Seq<AppendLogEntryView>,
    file_len: u64,
    rules: ContractRulesView,
    readings: Seq<TranscriptReadingView>,
) -> Result<ReplayResultView, AppendAuthorityErrorView> {
    match replay_prefix(entries, rules, readings) {
        Err(e) => Err(e),
        Ok(p) => match p.committed {
            None => Err(append_error("missing-committed-canonical-state"@, "no committed canonical state exists"@)),
            Some(state) => Ok(
                ReplayResultView {
                    committed_sequence: (p.expected_sequence - 1) as u64,
                    tail_status: match p.pending {
                        Some((sequence, _)) => AppendTailStatus::IncompleteUncommitted { sequence },
                        None => if p.byte_offset < file_len {
                            AppendTailStatus::IncompleteUncommitted { sequence: p.expected_sequence as u64 }
                        } else {
                            AppendTailStatus::Clean
                        },
                    },
                    state,
                    canonical_fingerprints: p.fingerprints,
                    committed_byte_boundary: p.committed_byte_boundary as u64,
                    record_count: p.record_count as usize,
                },
            ),
        },
    }
}

/// The result of a replay, as a value.
pub open spec fn replay_result_view(r: Result<ReplayResult, AppendAuthorityError>) -> Result<
    ReplayResultView,
    AppendAuthorityErrorView,
> {
    match r {
        Ok(x) => Ok(x@),
        Err(e) => Err(e@),
    }
}

proof fn lemma_progress_bounds(
    entries: Seq<AppendLogEntryView>,
    rules: ContractRulesView,
    readings: Seq<TranscriptReadingView>,
)
    ensures
        replay_prefix(entries, rules, readings) matches Ok(p) ==> {
            &&& p.record_count <= MAX_RECORD_COUNT
            &&& p.expected_sequence <= p.record_count + 1
            &&& p.expected_sequence >= 1
            &&& p.byte_offset == log_bytes_spec(entries)
            &&& p.committed_byte_boundary <= p.byte_offset
            &&& p.fingerprints.len() == p.expected_sequence - 1
            &&& p.fingerprints.no_duplicates()
            &&& (p.pending matches Some((s, _)) ==> s == p.expected_sequence)
        },
    decreases entries.len(),
{
    reveal(replay_step);
    if entries.len() > 0 {
        lemma_progress_bounds(entries.drop_last(), rules, readings);
        match replay_prefix(entries.drop_last(), rules, readings) {
            Ok(p) => {
                match replay_step(p, entries.last(), rules, readings) {
                    Ok(q) => {
                        if q.fingerprints.len() > p.fingerprints.len() {
                            let f = q.fingerprints.last();
                            assert(!p.fingerprints.contains(f));
                            assert forall|i: int, j: int|
                                0 <= i < j < q.fingerprints.len() implies q.fingerprints[i] != q.fingerprints[j] by {
                                if j == q.fingerprints.len() - 1 {
                                    assert(p.fingerprints[i] == q.fingerprints[i]);
                                }
                            }
                        }
                    },
                    Err(_) => {},
                }
            },
            Err(_) => {},
        }
    }
}

/// What a commit appends to the log: the state record of `state` at
/// `sequence`, then the commit record binding its canonical fingerprint.
pub open spec fn appended_commit(
    entries: Seq<AppendLogEntryView>,
    sequence: u64,
    state: CurrentContractStateView,
    state_line_len: u64,
    commit_line_len: u64,
) -> Seq<AppendLogEntryView> {
    entries.push(
        AppendLogEntryView::Line {
            byte_len: state_line_len,
            parsed: Ok(AppendRecordView::State { sequence, state }),
        },
    ).push(
        AppendLogEntryView::Line {
            byte_len: commit_line_len,
            parsed: Ok(
                AppendRecordView::Commit {
                    sequence,
                    canonical_fingerprint: canonical_fingerprint_spec(canonical_projection_view(state)),
                },
            ),
        },
    )
}

/// A state replay takes as it is: canonical, and accepted by the oracle.
#[verifier::opaque]
pub open spec fn replayable_state(
    state: CurrentContractStateView,
    rules: ContractRulesView,
    readings: Seq<TranscriptReadingView>,
) -> bool {
    &&& canonicalized_view(state, rules, readings) == state
    &&& state_violations_spec(state, rules, readings).len() == 0
}

/// The state an accepted append writes, the canonicalization of a next state
/// whose authoritative collections are in order and that the oracle accepts
/// once canonicalized, is one that replay takes as it is.
pub proof fn law_accepted_state_is_replayable(
    next_state: CurrentContractStateView,
    rules: ContractRulesView,
    readings: Seq<TranscriptReadingView>,
)
    requires
        canonical_collections_in_order(next_state),
        state_violations_spec(canonicalized_view(next_state, rules, readings), rules, readings).len() == 0,
    ensures
        replayable_state(canonicalized_view(next_state, rules, readings), rules, readings),
{
    reveal(replayable_state);
    law_canonicalization_is_fixpoint(next_state, rules, readings);
}

proof fn lemma_state_record_step(
    p: ReplayProgress,
    sequence: u64,
    state: CurrentContractStateView,
    len: u64,
    rules: ContractRulesView,
    readings: Seq<TranscriptReadingView>,
)
    requires
        p.pending is None,
        p.expected_sequence == sequence,
        p.record_count + 1 <= MAX_RECORD_COUNT,
        replayable_state(state, rules, readings),
    ensures
        replay_step(
            p,
            AppendLogEntryView::Line { byte_len: len, parsed: Ok(AppendRecordView::State { sequence, state }) },
            rules,
            readings,
        ) == Ok::<ReplayProgress, AppendAuthorityErrorView>(
            ReplayProgress {
                pending: Some((sequence, state)),
                byte_offset: (p.byte_offset + len) as nat,
                record_count: p.record_count + 1,
                ..p
            },
        ),
{
    reveal(replay_step);
    reveal(replayable_state);
}

proof fn lemma_commit_record_step(
    q: ReplayProgress,
    sequence: u64,
    state: CurrentContractStateView,
    len: u64,
    rules: ContractRulesView,
    readings: Seq<TranscriptReadingView>,
)
    requires
        q.pending == Some((sequence, state)),
        q.record_count + 1 <= MAX_RECORD_COUNT,
        !q.fingerprints.contains(canonical_fingerprint_spec(canonical_projection_view(state))),
    ensures
        replay_step(
            q,
            AppendLogEntryView::Line {
                byte_len: len,
                parsed: Ok(
                    AppendRecordView::Commit {
                        sequence,
                        canonical_fingerprint: canonical_fingerprint_spec(canonical_projection_view(state)),
                    },
                ),
            },
            rules,
            readings,
        ) == Ok::<ReplayProgress, AppendAuthorityErrorView>(
            ReplayProgress {
                expected_sequence: q.expected_sequence + 1,
                record_count: q.record_count + 1,
                pending: None,
                committed: Some(state),
                fingerprints: q.fingerprints.push(canonical_fingerprint_spec(canonical_projection_view(state))),
                byte_offset: (q.byte_offset + len) as nat,
                committed_byte_boundary: (q.byte_offset + len) as nat,
            },
        ),
{
    reveal(replay_step);
}

proof fn lemma_prefix_push(
    entries: Seq<AppendLogEntryView>,
    e: AppendLogEntryView,
    rules: ContractRulesView,
    readings: Seq<TranscriptReadingView>,
)
    requires
        replay_prefix(entries, rules, readings) is Ok,
    ensures
        replay_prefix(entries.push(e), rules, readings) == replay_step(
            replay_prefix(entries, rules, readings)->Ok_0,
            e,
            rules,
            readings,
        ),
{
    assert(entries.push(e).drop_last() =~= entries);
}

/// An append reads back as what it committed: a log that replays cleanly,
/// followed by the state record of a canonical state the oracle accepts at
/// the next sequence and the commit record binding its fingerprint, replays
/// to that state at that sequence, with its fingerprint added to the
/// committed ones and nothing after it — provided its canonical identity was
/// not committed before and the log has room for two more records.
pub proof fn law_appended_commit_replays(
    entries: Seq<AppendLogEntryView>,
    state: CurrentContractStateView,
    state_line_len: u64,
    commit_line_len: u64,
    rules: ContractRulesView,
    readings: Seq<TranscriptReadingView>,
)
    requires
        replay_prefix(entries, rules, readings) matches Ok(p) && p.pending is None && p.committed is Some,
        replay_prefix(entries, rules, readings)->Ok_0.record_count + 2 <= MAX_RECORD_COUNT,
        !replay_prefix(entries, rules, readings)->Ok_0.fingerprints.contains(
            canonical_fingerprint_spec(canonical_projection_view(state)),
        ),
        replayable_state(state, rules, readings),
        log_bytes_spec(entries) + state_line_len + commit_line_len <= u64::MAX,
    ensures
        ({
            let p = replay_prefix(entries, rules, readings)->Ok_0;
            let sequence = p.expected_sequence as u64;
            let file_len = (log_bytes_spec(entries) + state_line_len + commit_line_len) as u64;
            replay_spec(appended_commit(entries, sequence, state, state_line_len, commit_line_len), file_len, rules, readings)
                == Ok::<ReplayResultView, AppendAuthorityErrorView>(
                ReplayResultView {
                    committed_sequence: sequence,
                    tail_status: AppendTailStatus::Clean,
                    state,
                    canonical_fingerprints: p.fingerprints.push(
                        canonical_fingerprint_spec(canonical_projection_view(state)),
                    ),
                    committed_byte_boundary: file_len,
                    record_count: (p.record_count + 2) as usize,
                },
            )
        }),
{
    lemma_progress_bounds(entries, rules, readings);
    let p = replay_prefix(entries, rules, readings)->Ok_0;
    let sequence = p.expected_sequence as u64;
    let fingerprint = canonical_fingerprint_spec(canonical_projection_view(state));
    let line1 = AppendLogEntryView::Line {
        byte_len: state_line_len,
        parsed: Ok(AppendRecordView::State { sequence, state }),
    };
    let line2 = AppendLogEntryView::Line {
        byte_len: commit_line_len,
        parsed: Ok(AppendRecordView::Commit { sequence, canonical_fingerprint: fingerprint }),
    };
    lemma_state_record_step(p, sequence, state, state_line_len, rules, readings);
    let q1 = ReplayProgress {
        pending: Some((sequence, state)),
        byte_offset: (p.byte_offset + state_line_len) as nat,
        record_count: p.record_count + 1,
        ..p
    };
    lemma_commit_record_step(q1, sequence, state, commit_line_len, rules, readings);
    let one = entries.push(line1);
    lemma_prefix_push(entries, line1, rules, readings);
    lemma_prefix_push(one, line2, rules, readings);
    assert(appended_commit(entries, sequence, state, state_line_len, commit_line_len) =~= one.push(line2));
}

proof fn lemma_replay_error_sticks(
    entries: Seq<AppendLogEntryView>,
    i: int,
    rules: ContractRulesView,
    readings: Seq<TranscriptReadingView>,
)
    requires
        0 <= i <= entries.len(),
        replay_prefix(entries.subrange(0, i), rules, readings) is Err,
    ensures
        replay_prefix(entries, rules, readings) == replay_prefix(entries.subrange(0, i), rules, readings),
    decreases entries.len(),
{
    if i < entries.len() {
        assert(entries.drop_last().subrange(0, i) =~= entries.subrange(0, i));
        lemma_replay_error_sticks(entries.drop_last(), i, rules, readings);
    } else {
        assert(entries.subrange(0, i) =~= entries);
    }
}

proof fn lemma_log_bytes_prefix(entries: Seq<AppendLogEntryView>, i: int)
    requires
        0 <= i <= entries.len(),
    ensures
        log_bytes_spec(entries.subrange(0, i)) <= log_bytes_spec(entries),
    decreases entries.len(),
{
    if i < entries.len() {
        assert(entries.drop_last() =~= entries.subrange(0, entries.len() - 1));
        lemma_log_bytes_prefix(entries.drop_last(), i);
        assert(entries.drop_last().subrange(0, i) =~= entries.subrange(0, i));
    } else {
        assert(entries.subrange(0, i) =~= entries);
    }
}

/// Replay's working state.
struct ReplayState {
    expected_sequence: u64,
    record_count: usize,
    pending: Option<(u64, CurrentContractState)>,
    committed: Option<CurrentContractState>,
    fingerprints: Vec<String>,
    byte_offset: u64,
    committed_byte_boundary: u64,
}

spec fn progress_of(s: ReplayState) -> ReplayProgress {
    ReplayProgress {
        expected_sequence: s.expected_sequence as nat,
        record_count: s.record_count as nat,
        pending: match s.pending {
            Some((q, st)) => Some((q, st@)),
            None => None,
        },
        committed: match s.committed {
            Some(st) => Some(st@),
            None => None,
        },
        fingerprints: vec_view(s.fingerprints@),
        byte_offset: s.byte_offset as nat,
        committed_byte_boundary: s.committed_byte_boundary as nat,
    }
}

spec fn progress_bounded(p: ReplayProgress) -> bool {
    &&& p.record_count <= MAX_RECORD_COUNT
    &&& p.expected_sequence <= p.record_count + 1
    &&& p.expected_sequence >= 1
    &&& p.committed_byte_boundary <= p.byte_offset
}

/// Replays one more line of the log.
#[verifier::spinoff_prover]
fn replay_line(
    state: &mut ReplayState,
    entry: AppendLogEntry,
    rules: &ContractRules,
    readings: &Vec<TranscriptReading>,
) -> (r: Result<(), AppendAuthorityError>)
    requires
        progress_bounded(progress_of(*old(state))),
        entry@ matches AppendLogEntryView::Line { byte_len, .. } ==> old(state).byte_offset + byte_len <= u64::MAX,
    ensures
        match r {
            Ok(()) => replay_step(progress_of(*old(state)), entry@, rules@, vec_view(readings@))
                == Ok::<ReplayProgress, AppendAuthorityErrorView>(progress_of(*final(state))),
            Err(e) => replay_step(progress_of(*old(state)), entry@, rules@, vec_view(readings@))
                == Err::<ReplayProgress, AppendAuthorityErrorView>(e@),
        },
{
    reveal(replay_step);
    match entry {
        AppendLogEntry::Unreadable { error } => Err(error),
        AppendLogEntry::Line { byte_len, parsed } => {
            let offset = state.byte_offset + byte_len;
            let count = state.record_count + 1;
            if count > MAX_RECORD_COUNT {
                return Err(AppendAuthorityError::new("record-count-exceeded", "append record count exceeds bound"));
            }
            match parsed {
                Err(message) => Err(AppendAuthorityError::new("malformed-authoritative-record", message.as_str())),
                Ok(AppendRecord::State { sequence, state: proposed }) => {
                    if state.pending.is_some() || sequence != state.expected_sequence {
                        return Err(
                            AppendAuthorityError::new("invalid-append-order", "state record is out of authoritative order"),
                        );
                    }
                    let proposed = canonicalized_state(proposed, rules, readings);
                    validate_state(&proposed, rules, readings)?;
                    state.pending = Some((sequence, proposed));
                    state.byte_offset = offset;
                    state.record_count = count;
                    Ok(())
                },
                Ok(AppendRecord::Commit { sequence, canonical_fingerprint: persisted }) => {
                    let (pending_sequence, pending_state) = match &state.pending {
                        Some((q, st)) => (*q, st),
                        None => {
                            return Err(
                                AppendAuthorityError::new("commit-without-state", "commit has no preceding state record"),
                            );
                        },
                    };
                    let fingerprint = canonical_fingerprint(&pending_state.canonical_projection());
                    if sequence != pending_sequence {
                        return Err(
                            AppendAuthorityError::new("commit-sequence-mismatch", "commit does not acknowledge its state record"),
                        );
                    }
                    if !str_eq(persisted.as_str(), fingerprint.as_str()) {
                        return Err(
                            AppendAuthorityError::new(
                                "commit-fingerprint-mismatch",
                                "commit does not bind the preceding canonical state",
                            ),
                        );
                    }
                    if contains_text(&state.fingerprints, &fingerprint) {
                        return Err(
                            AppendAuthorityError::new(
                                "duplicate-canonical-identity",
                                "committed append records repeat canonical identity",
                            ),
                        );
                    }
                    let taken = state.pending.take();
                    let committed_state = match taken {
                        Some((_, st)) => st,
                        None => {
                            return Err(
                                AppendAuthorityError::new("commit-without-state", "commit has no preceding state record"),
                            );
                        },
                    };
                    crate::model::push_viewed(&mut state.fingerprints, fingerprint);
                    state.committed = Some(committed_state);
                    state.expected_sequence = state.expected_sequence + 1;
                    state.byte_offset = offset;
                    state.committed_byte_boundary = offset;
                    state.record_count = count;
                    Ok(())
                },
            }
        },
    }
}

/// Replays the append log: accepts state and commit records in strict
/// alternation and sequence order, canonicalizes and validates each state,
/// checks that each commit binds the state it follows by sequence and
/// canonical fingerprint and never repeats a committed identity, and reports
/// the last committed state and what follows it.
#[verifier::spinoff_prover]
pub fn replay(
    entries: Vec<AppendLogEntry>,
    file_len: u64,
    rules: &ContractRules,
    readings: &Vec<TranscriptReading>,
) -> (r: Result<ReplayResult, AppendAuthorityError>)
    requires
        log_bytes_spec(entries_view(entries@)) <= u64::MAX,
    ensures
        replay_result_view(r) == replay_spec(entries_view(entries@), file_len, rules@, vec_view(readings@)),
        r matches Ok(x) ==> x@.canonical_fingerprints.no_duplicates() && x@.canonical_fingerprints.len()
            == x@.committed_sequence,
{
    let ghost ev = entries_view(entries@);
    let ghost rv = vec_view(readings@);
    let mut state = ReplayState {
        expected_sequence: 1,
        record_count: 0,
        pending: None,
        committed: None,
        fingerprints: Vec::new(),
        byte_offset: 0,
        committed_byte_boundary: 0,
    };
    let mut remaining = entries;
    let ghost all_entries = remaining@;
    let ghost total = remaining.len();
    let mut i: usize = 0;
    proof {
        assert(ev.subrange(0, 0) =~= Seq::<AppendLogEntryView>::empty());
        assert(vec_view(state.fingerprints@) =~= Seq::<Seq<char>>::empty());
        assert(progress_of(state) == replay_start());
    }
    while remaining.len() > 0
        invariant
            ev.len() == total,
            i + remaining.len() == total,
            ev == entries_view(all_entries),
            remaining@ == all_entries.subrange(i as int, total as int),
            ev == entries_view(entries@),
            log_bytes_spec(ev) <= u64::MAX,
            rv == vec_view(readings@),
            replay_prefix(ev.subrange(0, i as int), rules@, rv) == Ok::<ReplayProgress, AppendAuthorityErrorView>(
                progress_of(state),
            ),
        decreases remaining.len(),
    {
        proof {
            lemma_progress_bounds(ev.subrange(0, i as int), rules@, rv);
            lemma_log_bytes_prefix(ev, i + 1);
            let sub = ev.subrange(0, i + 1);
            assert(sub.drop_last() =~= ev.subrange(0, i as int));
            assert(sub.last() == ev[i as int]);
        }
        let entry = remaining.remove(0);
        assert(entry == all_entries[i as int]);
        assert(entry@ == ev[i as int]);
        let ghost before = progress_of(state);
        match replay_line(&mut state, entry, rules, readings) {
            Ok(()) => {},
            Err(e) => {
                proof {
                    let sub = ev.subrange(0, i + 1);
                    assert(replay_prefix(sub.drop_last(), rules@, rv) == Ok::<ReplayProgress, AppendAuthorityErrorView>(before));
                    assert(replay_prefix(sub, rules@, rv) == Err::<ReplayProgress, AppendAuthorityErrorView>(e@));
                    lemma_replay_error_sticks(ev, i + 1, rules@, rv);
                }
                return Err(e);
            },
        }
        i = i + 1;
        assert(remaining@ =~= all_entries.subrange(i as int, total as int));
    }
    proof {
        assert(ev.subrange(0, total as int) =~= ev);
        lemma_progress_bounds(ev, rules@, rv);
    }
    finish_replay(state, file_len)
}

fn finish_replay(state: ReplayState, file_len: u64) -> (r: Result<ReplayResult, AppendAuthorityError>)
    requires
        progress_bounded(progress_of(state)),
    ensures
        replay_result_view(r) == (match progress_of(state).committed {
            None => Err(append_error("missing-committed-canonical-state"@, "no committed canonical state exists"@)),
            Some(st) => Ok(
                ReplayResultView {
                    committed_sequence: (progress_of(state).expected_sequence - 1) as u64,
                    tail_status: match progress_of(state).pending {
                        Some((sequence, _)) => AppendTailStatus::IncompleteUncommitted { sequence },
                        None => if progress_of(state).byte_offset < file_len {
                            AppendTailStatus::IncompleteUncommitted { sequence: progress_of(state).expected_sequence as u64 }
                        } else {
                            AppendTailStatus::Clean
                        },
                    },
                    state: st,
                    canonical_fingerprints: progress_of(state).fingerprints,
                    committed_byte_boundary: progress_of(state).committed_byte_boundary as u64,
                    record_count: progress_of(state).record_count as usize,
                },
            ),
        }),
{
    let ReplayState { expected_sequence, record_count, pending, committed, fingerprints, byte_offset, committed_byte_boundary } =
        state;
    let committed_state = match committed {
        Some(s) => s,
        None => {
            return Err(
                AppendAuthorityError::new("missing-committed-canonical-state", "no committed canonical state exists"),
            );
        },
    };
    let tail_status = match pending {
        Some((sequence, _)) => AppendTailStatus::IncompleteUncommitted { sequence },
        None => if byte_offset < file_len {
            AppendTailStatus::IncompleteUncommitted { sequence: expected_sequence }
        } else {
            AppendTailStatus::Clean
        },
    };
    Ok(
        ReplayResult {
            committed_sequence: expected_sequence - 1,
            tail_status,
            state: committed_state,
            canonical_fingerprints: fingerprints,
            committed_byte_boundary,
            record_count,
        },
    )
}

/// Whether a text occurs among the texts.
fn contains_text(texts: &Vec<String>, t: &String) -> (r: bool)
    ensures
        r == vec_view(texts@).contains(t@),
{
    let ghost tv = vec_view(texts@);
    let mut i: usize = 0;
    while i < texts.len()
        invariant
            i <= texts.len(),
            tv == vec_view(texts@),
            forall|k: int| 0 <= k < i ==> tv[k] != t@,
        decreases texts.len() - i,
    {
        if str_eq(texts[i].as_str(), t.as_str()) {
            assert(tv[i as int] == t@);
            return true;
        }
        i = i + 1;
    }
    false
}

} // verus!
