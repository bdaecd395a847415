use vstd::prelude::*;
use crate::derivation::{
    compare_supplied_derived, derive_contract_projection, derivation_diags, derived_projection_spec,
    supplied_derived_diags, TranscriptReading, TranscriptReadingView,
};
use crate::digest::tagged_digest;
use crate::json::{json_canonical_projection, json_derived_contract_projection, push_json_canonical_projection, push_json_derived_contract_projection};
use crate::governance::finding_if;
use crate::model::{
    canonical_projection_view, law_normalize_sorts_permutes_and_is_idempotent, normalize_view, vec_view, CurrentContractCanonicalProjection,
    CurrentContractCanonicalProjectionView, CurrentContractState, CurrentContractStateView,
    DerivedContractProjection, DerivedContractProjectionView, SameAs, opt_view, vec_same, opt_same,
};
use crate::order::{in_key_order, keys_view, lemma_sort_by_key_fn, lemma_sort_by_keys_len, lemma_sort_by_keys_map, sort_by_keys, sort_by_keys_spec};
use crate::production_bridge::{ContractRules, ContractRulesView};
use crate::serialization::tagged_digest_spec;
use crate::text::chars_of;
use crate::violations::{
    code_rank, code_rank_spec, diag, diagnostic, diags_view, push_diag, OracleDiagnosticV3, OracleDiagnosticV3View,
    OracleViolationCodeV3,
};

verus! {

/// The version of the oracle's result format.
pub const CURRENT_CONTRACT_ORACLE_VERSION: &'static str = "3";

/// What the oracle concludes about a state.
pub struct OracleResultV3 {
    pub oracle_version: String,
    pub passed: bool,
    pub violations: Vec<OracleDiagnosticV3>,
    pub warnings: Vec<OracleDiagnosticV3>,
    pub canonical_fingerprint: String,
    pub derived_fingerprint: Option<String>,
    pub claimable_evidence_strength: Vec<String>,
}

/// The mathematical value of an [`OracleResultV3`].
pub struct OracleResultV3View {
    pub oracle_version: Seq<char>,
    pub passed: bool,
    pub violations: Seq<OracleDiagnosticV3View>,
    pub warnings: Seq<OracleDiagnosticV3View>,
    pub canonical_fingerprint: Seq<char>,
    pub derived_fingerprint: Option<Seq<char>>,
    pub claimable_evidence_strength: Seq<Seq<char>>,
}

impl View for OracleResultV3 {
    type V = OracleResultV3View;

    open spec fn view(&self) -> OracleResultV3View {
        OracleResultV3View {
            oracle_version: self.oracle_version@,
            passed: self.passed,
            violations: vec_view(self.violations@),
            warnings: vec_view(self.warnings@),
            canonical_fingerprint: self.canonical_fingerprint@,
            derived_fingerprint: opt_view(self.derived_fingerprint),
            claimable_evidence_strength: vec_view(self.claimable_evidence_strength@),
        }
    }
}

/// The sort key of a text: each character shifted up by one, then a zero, so
/// that a proper prefix sorts first.
pub open spec fn text_key(s: Seq<char>) -> Seq<u64> {
    s.map_values(|c: char| (c as u32 as u64 + 1) as u64) + seq![0u64]
}

/// The sort key of a finding: its code's rank, its path, its message.
pub open spec fn diag_key(d: OracleDiagnosticV3View) -> Seq<u64> {
    seq![code_rank_spec(d.code)] + text_key(d.path) + text_key(d.message)
}

/// Findings ordered by code, then path, then message.
pub open spec fn sort_diags_spec(s: Seq<OracleDiagnosticV3View>) -> Seq<OracleDiagnosticV3View> {
    sort_by_keys_spec(s.map_values(|d: OracleDiagnosticV3View| diag_key(d)), s)
}

/// Drops each finding equal to the one before it.
pub open spec fn dedup_spec(s: Seq<OracleDiagnosticV3View>) -> Seq<OracleDiagnosticV3View>
    decreases s.len(),
{
    if s.len() == 0 {
        s
    } else if s.len() >= 2 && s[s.len() - 1] == s[s.len() - 2] {
        dedup_spec(s.drop_last())
    } else {
        dedup_spec(s.drop_last()).push(s.last())
    }
}

/// Appends the sort key of a text to `key`.
pub fn push_text_key(key: &mut Vec<u64>, s: &String)
    ensures
        final(key)@ == old(key)@ + text_key(s@),
{
    let chars = chars_of(s.as_str());
    let ghost start = key@;
    let mut i: usize = 0;
    while i < chars.len()
        invariant
            i <= chars.len(),
            chars@ == s@,
            key@ == start + s@.take(i as int).map_values(|c: char| (c as u32 as u64 + 1) as u64),
        decreases chars.len() - i,
    {
        let c = chars[i];
        let n: u64 = c as u32 as u64;
        key.push(n + 1);
        i = i + 1;
        proof {
            assert(key@ =~= start + s@.take(i as int).map_values(|c: char| (c as u32 as u64 + 1) as u64));
        }
    }
    key.push(0u64);
    proof {
        assert(s@.take(i as int) =~= s@);
        assert(key@ =~= start + text_key(s@));
    }
}

fn diagnostic_key(d: &OracleDiagnosticV3) -> (k: Vec<u64>)
    ensures
        k@ == diag_key(d@),
{
    let mut key: Vec<u64> = Vec::new();
    key.push(code_rank(d.code));
    push_text_key(&mut key, &d.path);
    push_text_key(&mut key, &d.message);
    proof {
        assert(key@ =~= diag_key(d@));
    }
    key
}

/// Orders findings by code, then path, then message.
fn sort_diagnostics(v: Vec<OracleDiagnosticV3>) -> (r: Vec<OracleDiagnosticV3>)
    ensures
        diags_view(r@) == sort_diags_spec(diags_view(v@)),
{
    let ghost keyspec = diags_view(v@).map_values(|d: OracleDiagnosticV3View| diag_key(d));
    let mut keys: Vec<Vec<u64>> = Vec::new();
    let mut i: usize = 0;
    while i < v.len()
        invariant
            i <= v.len(),
            keys@.len() == i,
            keyspec == diags_view(v@).map_values(|d: OracleDiagnosticV3View| diag_key(d)),
            forall|j: int| 0 <= j < i ==> #[trigger] keys@[j]@ == keyspec[j],
        decreases v.len() - i,
    {
        keys.push(diagnostic_key(&v[i]));
        i = i + 1;
    }
    let ghost items = v@;
    proof {
        assert(keys_view(keys@) =~= keyspec);
        lemma_sort_by_keys_map(keys_view(keys@), items, |x: OracleDiagnosticV3| x@);
        assert(diags_view(items) =~= items.map_values(|x: OracleDiagnosticV3| x@));
    }
    let r = sort_by_keys(v, keys);
    proof {
        assert(diags_view(r@) =~= r@.map_values(|x: OracleDiagnosticV3| x@));
    }
    r
}

/// Drops each finding equal to the one before it.
fn dedup_diagnostics(v: Vec<OracleDiagnosticV3>) -> (r: Vec<OracleDiagnosticV3>)
    ensures
        diags_view(r@) == dedup_spec(diags_view(v@)),
{
    let ghost sv = diags_view(v@);
    let mut out: Vec<OracleDiagnosticV3> = Vec::new();
    let mut i: usize = 0;
    proof {
        assert(sv.take(0) =~= Seq::<OracleDiagnosticV3View>::empty());
    }
    while i < v.len()
        invariant
            i <= v.len(),
            sv == diags_view(v@),
            diags_view(out@) == dedup_spec(sv.take(i as int)),
        decreases v.len() - i,
    {
        proof {
            let t = sv.take(i + 1);
            assert(t.drop_last() =~= sv.take(i as int));
            assert(t.last() == sv[i as int]);
            if i >= 1 {
                assert(t[t.len() - 2] == sv[i - 1]);
            }
        }
        let ghost before = diags_view(out@);
        if i == 0 || !v[i].same_as(&v[i - 1]) {
            out.push(v[i].clone());
            proof {
                assert(diags_view(out@) =~= before.push(sv[i as int]));
            }
        }
        i = i + 1;
    }
    proof {
        assert(sv.take(i as int) =~= sv);
    }
    out
}

/// Findings where the canonical parts of two projections differ.
pub open spec fn canonical_diff_diags(
    e: CurrentContractCanonicalProjectionView,
    a: CurrentContractCanonicalProjectionView,
) -> Seq<OracleDiagnosticV3View> {
    canonical_identity_diags(e, a) + canonical_history_diags(e, a)
}

/// Findings where the identity parts of two projections differ.
pub open spec fn canonical_identity_diags(
    e: CurrentContractCanonicalProjectionView,
    a: CurrentContractCanonicalProjectionView,
) -> Seq<OracleDiagnosticV3View> {
    finding_if(
        e.session_id != a.session_id,
        diag(OracleViolationCodeV3::ChangedSessionIdentity, "session_id"@, "session identity changed"@),
    ) + finding_if(
        e.duplicated_from_session_id != a.duplicated_from_session_id,
        diag(
            OracleViolationCodeV3::ChangedSessionIdentity,
            "duplicated_from_session_id"@,
            "duplication lineage changed"@,
        ),
    ) + finding_if(
        e.session_authority != a.session_authority,
        diag(OracleViolationCodeV3::ChangedSessionAuthority, "session_authority"@, "session authority changed"@),
    ) + finding_if(
        e.material_use_declaration != a.material_use_declaration,
        diag(
            OracleViolationCodeV3::ChangedMaterialUseDeclaration,
            "material_use_declaration"@,
            "material-use declaration changed"@,
        ),
    ) + finding_if(
        e.project_scope_stable_id != a.project_scope_stable_id,
        diag(
            OracleViolationCodeV3::ChangedProjectScopeStableId,
            "project_scope.stable_id"@,
            "project stable scope identity changed"@,
        ),
    )
}

/// Findings where the canonical histories of two projections differ.
pub open spec fn canonical_history_diags(
    e: CurrentContractCanonicalProjectionView,
    a: CurrentContractCanonicalProjectionView,
) -> Seq<OracleDiagnosticV3View> {
    finding_if(
        e.review_ledger_events != a.review_ledger_events,
        diag(
            OracleViolationCodeV3::ChangedReviewLedgerOrder,
            "review_ledger_events"@,
            "review ledger order or payload changed"@,
        ),
    ) + finding_if(
        e.reuse_governance_events != a.reuse_governance_events,
        diag(
            OracleViolationCodeV3::ChangedReuseGovernanceOrder,
            "reuse_governance_events"@,
            "reuse governance order or payload changed"@,
        ),
    )
}

fn compare_canonical_identity(
    expected: &CurrentContractCanonicalProjection,
    actual: &CurrentContractCanonicalProjection,
    violations: &mut Vec<OracleDiagnosticV3>,
)
    ensures
        diags_view(final(violations)@) == diags_view(old(violations)@) + canonical_identity_diags(expected@, actual@),
{
    let ghost start = diags_view(violations@);
    if !expected.session_id.same_as(&actual.session_id) {
        push_diag(
            violations,
            diagnostic(OracleViolationCodeV3::ChangedSessionIdentity, "session_id", "session identity changed"),
        );
    }
    if !opt_same(&expected.duplicated_from_session_id, &actual.duplicated_from_session_id) {
        push_diag(
            violations,
            diagnostic(
                OracleViolationCodeV3::ChangedSessionIdentity,
                "duplicated_from_session_id",
                "duplication lineage changed",
            ),
        );
    }
    if !expected.session_authority.same_as(&actual.session_authority) {
        push_diag(
            violations,
            diagnostic(OracleViolationCodeV3::ChangedSessionAuthority, "session_authority", "session authority changed"),
        );
    }
    if !expected.material_use_declaration.same_as(&actual.material_use_declaration) {
        push_diag(
            violations,
            diagnostic(
                OracleViolationCodeV3::ChangedMaterialUseDeclaration,
                "material_use_declaration",
                "material-use declaration changed",
            ),
        );
    }
    if !expected.project_scope_stable_id.same_as(&actual.project_scope_stable_id) {
        push_diag(
            violations,
            diagnostic(
                OracleViolationCodeV3::ChangedProjectScopeStableId,
                "project_scope.stable_id",
                "project stable scope identity changed",
            ),
        );
    }
    proof {
        assert(diags_view(violations@) =~= start + canonical_identity_diags(expected@, actual@));
    }
}

fn compare_canonical_history(
    expected: &CurrentContractCanonicalProjection,
    actual: &CurrentContractCanonicalProjection,
    violations: &mut Vec<OracleDiagnosticV3>,
)
    ensures
        diags_view(final(violations)@) == diags_view(old(violations)@) + canonical_history_diags(expected@, actual@),
{
    let ghost start = diags_view(violations@);
    if !vec_same(&expected.review_ledger_events, &actual.review_ledger_events) {
        push_diag(
            violations,
            diagnostic(
                OracleViolationCodeV3::ChangedReviewLedgerOrder,
                "review_ledger_events",
                "review ledger order or payload changed",
            ),
        );
    }
    if !vec_same(&expected.reuse_governance_events, &actual.reuse_governance_events) {
        push_diag(
            violations,
            diagnostic(
                OracleViolationCodeV3::ChangedReuseGovernanceOrder,
                "reuse_governance_events",
                "reuse governance order or payload changed",
            ),
        );
    }
    proof {
        assert(diags_view(violations@) =~= start + canonical_history_diags(expected@, actual@));
    }
}

fn compare_canonical(
    expected: &CurrentContractCanonicalProjection,
    actual: &CurrentContractCanonicalProjection,
    violations: &mut Vec<OracleDiagnosticV3>,
)
    ensures
        diags_view(final(violations)@) == diags_view(old(violations)@) + canonical_diff_diags(expected@, actual@),
{
    let ghost start = diags_view(violations@);
    compare_canonical_identity(expected, actual, violations);
    compare_canonical_history(expected, actual, violations);
    proof {
        assert(diags_view(violations@) =~= start + canonical_diff_diags(expected@, actual@));
    }
}

/// `semantic:sha256-v1:<hex>`: the SHA-256 digest of the JSON text of a
/// canonical projection.
pub open spec fn canonical_fingerprint_spec(p: CurrentContractCanonicalProjectionView) -> Seq<char> {
    tagged_digest_spec("semantic:sha256-v1"@, json_canonical_projection(p))
}

/// `derived:sha256-v1:<hex>`: the SHA-256 digest of the JSON text of a
/// derived projection.
pub open spec fn derived_fingerprint_spec(d: DerivedContractProjectionView) -> Seq<char> {
    tagged_digest_spec("derived:sha256-v1"@, json_derived_contract_projection(d))
}

/// The fingerprint of a canonical projection.
pub fn canonical_fingerprint(projection: &CurrentContractCanonicalProjection) -> (r: String)
    ensures
        r@ == canonical_fingerprint_spec(projection@),
{
    let mut bytes: Vec<u8> = Vec::new();
    push_json_canonical_projection(&mut bytes, projection);
    proof {
        assert(bytes@ =~= json_canonical_projection(projection@));
    }
    tagged_digest("semantic:sha256-v1", bytes.as_slice())
}

/// The fingerprint of a derived projection.
pub fn derived_fingerprint(derived: &DerivedContractProjection) -> (r: String)
    ensures
        r@ == derived_fingerprint_spec(derived@),
{
    let mut bytes: Vec<u8> = Vec::new();
    push_json_derived_contract_projection(&mut bytes, derived);
    proof {
        assert(bytes@ =~= json_derived_contract_projection(derived@));
    }
    tagged_digest("derived:sha256-v1", bytes.as_slice())
}

/// The evidence strength a result may claim.
pub open spec fn claimable_spec(passed: bool) -> Seq<Seq<char>> {
    if passed {
        seq!["InterfaceBehavior"@]
    } else {
        Seq::empty()
    }
}

fn claimable(passed: bool) -> (r: Vec<String>)
    ensures
        vec_view(r@) == claimable_spec(passed),
{
    let mut r: Vec<String> = Vec::new();
    if passed {
        r.push(String::from_str("InterfaceBehavior"));
    }
    proof {
        assert(vec_view(r@) =~= claimable_spec(passed));
    }
    r
}

/// The findings `validate` reports for a state, in order.
pub open spec fn validate_violations_spec(
    s: CurrentContractStateView,
    rules: ContractRulesView,
    readings: Seq<TranscriptReadingView>,
) -> Seq<OracleDiagnosticV3View> {
    let n = normalize_view(s);
    sort_diags_spec(
        derivation_diags(n, rules, readings) + supplied_derived_diags(derived_projection_spec(n, rules, readings), n),
    )
}

/// The findings `compare` reports for an expected and an actual state, in order.
pub open spec fn compare_violations_spec(
    e: CurrentContractStateView,
    a: CurrentContractStateView,
    rules: ContractRulesView,
    readings: Seq<TranscriptReadingView>,
) -> Seq<OracleDiagnosticV3View> {
    let ne = normalize_view(e);
    let na = normalize_view(a);
    let raw = derivation_diags(na, rules, readings) + canonical_diff_diags(
        canonical_projection_view(ne),
        canonical_projection_view(na),
    ) + supplied_derived_diags(derived_projection_spec(na, rules, readings), na);
    let with_fingerprint = if canonical_fingerprint_spec(canonical_projection_view(ne)) != canonical_fingerprint_spec(
        canonical_projection_view(na),
    ) && raw.len() == 0 {
        raw.push(
            diag(
                OracleViolationCodeV3::CanonicalFingerprintMismatch,
                "canonical_projection"@,
                "canonical fingerprints differ without a more specific diagnostic"@,
            ),
        )
    } else {
        raw
    };
    dedup_spec(sort_diags_spec(with_fingerprint))
}

/// A state the oracle accepts compares equal to itself: comparing it with
/// itself reports nothing.
pub proof fn law_valid_state_compares_equal_to_itself(
    s: CurrentContractStateView,
    rules: ContractRulesView,
    readings: Seq<TranscriptReadingView>,
)
    requires
        validate_violations_spec(s, rules, readings).len() == 0,
    ensures
        compare_violations_spec(s, s, rules, readings).len() == 0,
{
    let n = normalize_view(s);
    let own = derivation_diags(n, rules, readings) + supplied_derived_diags(derived_projection_spec(n, rules, readings), n);
    lemma_sort_by_keys_len(own.map_values(|d: OracleDiagnosticV3View| diag_key(d)), own);
    let p = canonical_projection_view(n);
    assert(canonical_diff_diags(p, p) =~= Seq::<OracleDiagnosticV3View>::empty());
    let raw = derivation_diags(n, rules, readings) + canonical_diff_diags(p, p) + supplied_derived_diags(
        derived_projection_spec(n, rules, readings),
        n,
    );
    assert(raw =~= Seq::<OracleDiagnosticV3View>::empty());
    lemma_sort_by_keys_len(raw.map_values(|d: OracleDiagnosticV3View| diag_key(d)), raw);
    assert(sort_diags_spec(raw) =~= Seq::<OracleDiagnosticV3View>::empty());
}

/// Validating a state and validating its normalized form report the same
/// findings and the same fingerprints; the findings come ordered by code,
/// then path, then message.
pub proof fn law_validate_ignores_normalization(
    s: CurrentContractStateView,
    rules: ContractRulesView,
    readings: Seq<TranscriptReadingView>,
)
    ensures
        validate_violations_spec(normalize_view(s), rules, readings) == validate_violations_spec(s, rules, readings),
        canonical_fingerprint_spec(canonical_projection_view(normalize_view(normalize_view(s))))
            == canonical_fingerprint_spec(canonical_projection_view(normalize_view(s))),
        derived_fingerprint_spec(derived_projection_spec(normalize_view(normalize_view(s)), rules, readings))
            == derived_fingerprint_spec(derived_projection_spec(normalize_view(s), rules, readings)),
        in_key_order(validate_violations_spec(s, rules, readings).map_values(|d: OracleDiagnosticV3View| diag_key(d))),
{
    law_normalize_sorts_permutes_and_is_idempotent(s);
    let n = normalize_view(s);
    let raw = derivation_diags(n, rules, readings) + supplied_derived_diags(derived_projection_spec(n, rules, readings), n);
    lemma_sort_by_key_fn(raw, |d: OracleDiagnosticV3View| diag_key(d));
}

/// The independent oracle over current-contract states.
pub struct CurrentContractOracle;

impl CurrentContractOracle {
    /// Normalizes a state, rebuilds its derived projection, compares the
    /// supplied derived fields, and reports every finding in order; the state
    /// passes when there is none.
    pub fn validate(
        state: &CurrentContractState,
        rules: &ContractRules,
        readings: &Vec<TranscriptReading>,
    ) -> (r: OracleResultV3)
        ensures
            r@.oracle_version == CURRENT_CONTRACT_ORACLE_VERSION@,
            r@.violations == validate_violations_spec(state@, rules@, vec_view(readings@)),
            r@.passed == (r@.violations.len() == 0),
            r@.warnings == Seq::<OracleDiagnosticV3View>::empty(),
            r@.canonical_fingerprint == canonical_fingerprint_spec(canonical_projection_view(normalize_view(state@))),
            r@.derived_fingerprint == Some(
                derived_fingerprint_spec(derived_projection_spec(normalize_view(state@), rules@, vec_view(readings@))),
            ),
            r@.claimable_evidence_strength == claimable_spec(r@.passed),
    {
        let state = state.clone().normalize();
        let (derived, mut violations) = derive_contract_projection(&state, rules, readings);
        compare_supplied_derived(&derived, &state, &mut violations);
        let violations = sort_diagnostics(violations);
        let passed = violations.len() == 0;
        let canonical = canonical_fingerprint(&state.canonical_projection());
        let derived_fp = derived_fingerprint(&derived);
        let warnings: Vec<OracleDiagnosticV3> = Vec::new();
        let r = OracleResultV3 {
            oracle_version: String::from_str(CURRENT_CONTRACT_ORACLE_VERSION),
            passed,
            violations,
            warnings,
            canonical_fingerprint: canonical,
            derived_fingerprint: Some(derived_fp),
            claimable_evidence_strength: claimable(passed),
        };
        proof {
            assert(r@.warnings =~= Seq::<OracleDiagnosticV3View>::empty());
        }
        r
    }

    /// Normalizes both states, rebuilds the actual state's derived projection,
    /// and reports, in order and without repeats, every difference of the
    /// canonical parts and every finding about the actual state.
    pub fn compare(
        expected: &CurrentContractState,
        actual: &CurrentContractState,
        rules: &ContractRules,
        readings: &Vec<TranscriptReading>,
    ) -> (r: OracleResultV3)
        ensures
            r@.oracle_version == CURRENT_CONTRACT_ORACLE_VERSION@,
            r@.violations == compare_violations_spec(expected@, actual@, rules@, vec_view(readings@)),
            r@.passed == (r@.violations.len() == 0),
            r@.warnings == Seq::<OracleDiagnosticV3View>::empty(),
            r@.canonical_fingerprint == canonical_fingerprint_spec(canonical_projection_view(normalize_view(actual@))),
            r@.derived_fingerprint == Some(
                derived_fingerprint_spec(derived_projection_spec(normalize_view(actual@), rules@, vec_view(readings@))),
            ),
            r@.claimable_evidence_strength == claimable_spec(r@.passed),
    {
        let expected = expected.clone().normalize();
        let actual = actual.clone().normalize();
        let (derived, mut violations) = derive_contract_projection(&actual, rules, readings);
        compare_canonical(&expected.canonical_projection(), &actual.canonical_projection(), &mut violations);
        compare_supplied_derived(&derived, &actual, &mut violations);
        let expected_fp = canonical_fingerprint(&expected.canonical_projection());
        let actual_fp = canonical_fingerprint(&actual.canonical_projection());
        if !expected_fp.same_as(&actual_fp) && violations.len() == 0 {
            push_diag(
                &mut violations,
                diagnostic(
                    OracleViolationCodeV3::CanonicalFingerprintMismatch,
                    "canonical_projection",
                    "canonical fingerprints differ without a more specific diagnostic",
                ),
            );
        }
        let violations = dedup_diagnostics(sort_diagnostics(violations));
        let passed = violations.len() == 0;
        let derived_fp = derived_fingerprint(&derived);
        let warnings: Vec<OracleDiagnosticV3> = Vec::new();
        let r = OracleResultV3 {
            oracle_version: String::from_str(CURRENT_CONTRACT_ORACLE_VERSION),
            passed,
            violations,
            warnings,
            canonical_fingerprint: actual_fp,
            derived_fingerprint: Some(derived_fp),
            claimable_evidence_strength: claimable(passed),
        };
        proof {
            assert(r@.warnings =~= Seq::<OracleDiagnosticV3View>::empty());
        }
        r
    }
}

} // verus!
