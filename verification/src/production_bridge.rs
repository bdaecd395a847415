use vstd::prelude::*;
use vstd::utf8::encode_utf8;
use crate::digest::{field_spec, hex_spec, le_u64, push_bytes, push_field, push_hex, push_u64, sha256, sha256_spec};
use crate::model::{
    opt_duplicate, vec_duplicate, vec_view, vec_same, EvidenceAnalysisSnapshot, EvidenceAnalysisSnapshotView, EvidenceDetectorIdentity,
    EvidenceDetectorIdentityView, EvidenceGovernanceActor, EvidenceGovernanceActorView,
    EvidenceReusableRecord, EvidenceReusableRecordView, EvidenceSessionAuthority,
    EvidenceSessionAuthorityView, EvidenceSourceDecisionLocator, EvidenceSourceDecisionLocatorView,
    SameAs,
};
use crate::text::{decimal_spec, chars_eq, chars_of, is_blank, is_blank_spec, has_forbidden_char, has_forbidden_char_spec, is_whitespace, is_whitespace_spec, lemma_encode_utf8_ascii_len, lemma_encode_utf8_concat, push_char, utf8_byte_len, valid_label_text, valid_label_text_spec, decimal_value_spec, digit_value_spec, has_prefix_spec, is_digit_spec, strip_prefix};
use crate::violations::{diag, diagnostic, OracleDiagnosticV3, OracleDiagnosticV3View, OracleViolationCodeV3};

verus! {

/// A decimal numeral in canonical form: at least one digit, digits only, and
/// no leading zero unless it is `0` itself.
pub open spec fn canonical_decimal_spec(s: Seq<char>) -> bool {
    &&& s.len() > 0
    &&& forall|i: int| 0 <= i < s.len() ==> is_digit_spec(#[trigger] s[i])
    &&& !(s.len() > 1 && s[0] == '0')
}

/// What `parse_review_case_id` returns for a case id.
pub open spec fn parse_review_case_id_spec(s: Seq<char>) -> Result<usize, OracleDiagnosticV3View> {
    if !has_prefix_spec(s, "review-case:"@) {
        Err(
            diag(
                OracleViolationCodeV3::MalformedReviewCaseId,
                "review_case_id"@,
                "review case id must use review-case:<local_index> syntax"@,
            ),
        )
    } else {
        let rest = s.subrange("review-case:"@.len() as int, s.len() as int);
        if !canonical_decimal_spec(rest) {
            Err(
                diag(
                    OracleViolationCodeV3::MalformedReviewCaseId,
                    "review_case_id"@,
                    "review case id must use canonical review-case:<usize> syntax"@,
                ),
            )
        } else if decimal_value_spec(rest) > usize::MAX {
            Err(
                diag(
                    OracleViolationCodeV3::MalformedReviewCaseId,
                    "review_case_id"@,
                    "review case local index is not a valid usize"@,
                ),
            )
        } else {
            Ok(decimal_value_spec(rest) as usize)
        }
    }
}

proof fn lemma_decimal_value_grows(s: Seq<char>, i: int)
    requires
        0 <= i <= s.len(),
        forall|j: int| 0 <= j < s.len() ==> is_digit_spec(#[trigger] s[j]),
    ensures
        decimal_value_spec(s.subrange(0, i)) <= decimal_value_spec(s),
    decreases s.len() - i,
{
    if i < s.len() {
        lemma_decimal_value_grows(s, i + 1);
        let t = s.subrange(0, i + 1);
        assert(t.drop_last() =~= s.subrange(0, i));
    } else {
        assert(s.subrange(0, i) =~= s);
    }
}

proof fn lemma_digit_roundtrip(d: nat, c: char)
    ensures
        d < 10 ==> digit_value_spec(crate::text::digit_char_spec(d)) == d && is_digit_spec(crate::text::digit_char_spec(d)),
        is_digit_spec(c) ==> digit_value_spec(c) < 10 && crate::text::digit_char_spec(digit_value_spec(c)) == c,
{
}

proof fn lemma_decimal_canonical(n: nat)
    ensures
        canonical_decimal_spec(decimal_spec(n)),
        decimal_value_spec(decimal_spec(n)) == n,
        n > 0 ==> decimal_spec(n)[0] != '0',
    decreases n,
{
    lemma_digit_roundtrip(n % 10, 'a');
    if n >= 10 {
        lemma_decimal_canonical(n / 10);
        let d = decimal_spec(n / 10);
        assert(decimal_spec(n).drop_last() =~= d);
        assert(decimal_spec(n)[0] == d[0]);
        assert forall|i: int| 0 <= i < decimal_spec(n).len() implies is_digit_spec(#[trigger] decimal_spec(n)[i]) by {
            if i < d.len() {
                assert(decimal_spec(n)[i] == d[i]);
            }
        }
        assert(decimal_spec(n).last() == crate::text::digit_char_spec(n % 10));
        assert(decimal_value_spec(decimal_spec(n)) == decimal_value_spec(d) * 10 + digit_value_spec(
            crate::text::digit_char_spec(n % 10),
        ));
        assert(decimal_value_spec(decimal_spec(n)) == (n / 10) * 10 + n % 10);
    } else {
        assert(decimal_spec(n).drop_last() =~= Seq::<char>::empty());
        assert(decimal_value_spec(Seq::<char>::empty()) == 0);
        assert(decimal_spec(n).last() == crate::text::digit_char_spec(n));
        assert(n % 10 == n);
    }
}

proof fn lemma_value_positive(d: Seq<char>)
    requires
        d.len() > 0,
        forall|i: int| 0 <= i < d.len() ==> is_digit_spec(#[trigger] d[i]),
        d[0] != '0',
    ensures
        decimal_value_spec(d) > 0,
    decreases d.len(),
{
    if d.len() > 1 {
        assert(d.drop_last()[0] == d[0]);
        assert forall|i: int| 0 <= i < d.drop_last().len() implies is_digit_spec(#[trigger] d.drop_last()[i]) by {
            assert(d.drop_last()[i] == d[i]);
        }
        lemma_value_positive(d.drop_last());
    } else {
        lemma_digit_roundtrip(0, d[0]);
        assert(d.drop_last().len() == 0);
    }
}

proof fn lemma_canonical_decimal_unique(d: Seq<char>)
    requires
        canonical_decimal_spec(d),
    ensures
        decimal_spec(decimal_value_spec(d)) == d,
    decreases d.len(),
{
    let c = d.last();
    lemma_digit_roundtrip(0, c);
    if d.len() == 1 {
        assert(d.drop_last() =~= Seq::<char>::empty());
        assert(decimal_value_spec(Seq::<char>::empty()) == 0);
        assert(d[0] == c);
        assert(is_digit_spec(d[0]));
        assert(decimal_value_spec(d) == digit_value_spec(c));
        assert(decimal_spec(decimal_value_spec(d)) =~= seq![c]);
        assert(d =~= seq![c]);
    } else {
        let rest = d.drop_last();
        assert(rest[0] == d[0]);
        assert forall|i: int| 0 <= i < rest.len() implies is_digit_spec(#[trigger] rest[i]) by {
            assert(rest[i] == d[i]);
        }
        assert(d[d.len() - 1] == c);
        lemma_value_positive(rest);
        lemma_canonical_decimal_unique(rest);
        let v = decimal_value_spec(d);
        assert(v == decimal_value_spec(rest) * 10 + digit_value_spec(c));
        assert(v / 10 == decimal_value_spec(rest));
        assert(v % 10 == digit_value_spec(c));
        assert(decimal_spec(v) =~= rest.push(c));
    }
}

/// A case id round-trips with its decimal rendering: every index renders to
/// an id that parses back to it, and an id parses to an index only if it is
/// that index's rendering, so leading zeros, signs, an empty index and any
/// other prefix are refused.
pub proof fn law_review_case_id_round_trip(n: usize, s: Seq<char>)
    ensures
        parse_review_case_id_spec("review-case:"@ + decimal_spec(n as nat)) == Ok::<usize, OracleDiagnosticV3View>(n),
        parse_review_case_id_spec(s) matches Ok(k) ==> s == "review-case:"@ + decimal_spec(k as nat),
{
    let p = "review-case:"@;
    lemma_decimal_canonical(n as nat);
    let id = p + decimal_spec(n as nat);
    assert(id.subrange(0, p.len() as int) =~= p);
    assert(id.subrange(p.len() as int, id.len() as int) =~= decimal_spec(n as nat));
    if parse_review_case_id_spec(s) is Ok {
        let rest = s.subrange(p.len() as int, s.len() as int);
        lemma_canonical_decimal_unique(rest);
        assert(s =~= s.subrange(0, p.len() as int) + rest);
    }
}

/// Parses a canonical `review-case:<usize>` id into its local index.
pub fn parse_review_case_id(case_id: &str) -> (r: Result<usize, OracleDiagnosticV3>)
    ensures
        match r {
            Ok(v) => parse_review_case_id_spec(case_id@) == Ok::<usize, OracleDiagnosticV3View>(v),
            Err(e) => parse_review_case_id_spec(case_id@) == Err::<usize, OracleDiagnosticV3View>(e@),
        },
{
    let rest = match strip_prefix(case_id, "review-case:") {
        Some(rest) => rest,
        None => {
            return Err(
                diagnostic(
                    OracleViolationCodeV3::MalformedReviewCaseId,
                    "review_case_id",
                    "review case id must use review-case:<local_index> syntax",
                ),
            );
        },
    };
    let ghost p = "review-case:"@;
    assert(rest@ == case_id@.subrange(p.len() as int, case_id@.len() as int));
    let mut canonical = rest.len() > 0 && !(rest.len() > 1 && rest[0] == '0');
    let mut i: usize = 0;
    while i < rest.len()
        invariant
            i <= rest.len(),
            canonical == (rest@.len() > 0 && !(rest@.len() > 1 && rest@[0] == '0') && forall|j: int|
                0 <= j < i ==> is_digit_spec(#[trigger] rest@[j])),
        decreases rest.len() - i,
    {
        if !('0' <= rest[i] && rest[i] <= '9') {
            canonical = false;
        }
        i = i + 1;
    }
    if !canonical {
        return Err(
            diagnostic(
                OracleViolationCodeV3::MalformedReviewCaseId,
                "review_case_id",
                "review case id must use canonical review-case:<usize> syntax",
            ),
        );
    }
    let mut value: usize = 0;
    let mut k: usize = 0;
    while k < rest.len()
        invariant
            k <= rest.len(),
            forall|j: int| 0 <= j < rest@.len() ==> is_digit_spec(#[trigger] rest@[j]),
            canonical_decimal_spec(rest@),
            rest@ == case_id@.subrange("review-case:"@.len() as int, case_id@.len() as int),
            has_prefix_spec(case_id@, "review-case:"@),
            value == decimal_value_spec(rest@.subrange(0, k as int)),
        decreases rest.len() - k,
    {
        let d = (rest[k] as u32 - '0' as u32) as usize;
        proof {
            let t = rest@.subrange(0, k + 1);
            assert(t.drop_last() =~= rest@.subrange(0, k as int));
            assert(is_digit_spec(rest@[k as int]));
        }
        let next = match value.checked_mul(10) {
            Some(m) => m.checked_add(d),
            None => None,
        };
        match next {
            Some(n) => {
                value = n;
            },
            None => {
                proof {
                    let t = rest@.subrange(0, k + 1);
                    assert(decimal_value_spec(t) == decimal_value_spec(t.drop_last()) * 10
                        + digit_value_spec(t.last()));
                    assert(decimal_value_spec(t) == value * 10 + d);
                    assert(decimal_value_spec(t) > usize::MAX);
                    lemma_decimal_value_grows(rest@, k + 1);
                }
                return Err(
                    diagnostic(
                        OracleViolationCodeV3::MalformedReviewCaseId,
                        "review_case_id",
                        "review case local index is not a valid usize",
                    ),
                );
            },
        }
        k = k + 1;
    }
    proof {
        assert(rest@.subrange(0, rest@.len() as int) =~= rest@);
    }
    Ok(value)
}


/// `c` is a hexadecimal digit of either case, as `char::to_digit(16)` accepts.
pub open spec fn is_any_hex_spec(c: char) -> bool {
    is_digit_spec(c) || ('a' <= c && c <= 'f') || ('A' <= c && c <= 'F')
}

/// The value of a hexadecimal digit of either case.
pub open spec fn hex_value_spec(c: char) -> nat {
    if is_digit_spec(c) {
        ((c as u32) - ('0' as u32)) as nat
    } else if 'a' <= c && c <= 'f' {
        ((c as u32) - ('a' as u32) + 10) as nat
    } else {
        ((c as u32) - ('A' as u32) + 10) as nat
    }
}

/// Every character is a lower-case hexadecimal digit.
pub open spec fn all_lower_hex_spec(s: Seq<char>) -> bool {
    forall|i: int| 0 <= i < s.len() ==> crate::text::is_lower_hex_spec(#[trigger] s[i])
}

/// The check of a `<prefix><64 lower-case hex digits>` identity, with the
/// diagnostic each failure gives.
pub open spec fn tagged_hex_spec(
    s: Seq<char>,
    prefix: Seq<char>,
    code: OracleViolationCodeV3,
    path: Seq<char>,
    syntax_message: Seq<char>,
    length_message: Seq<char>,
    hex_message: Seq<char>,
) -> Result<(), OracleDiagnosticV3View> {
    if !has_prefix_spec(s, prefix) {
        Err(diag(code, path, syntax_message))
    } else {
        let hex = s.subrange(prefix.len() as int, s.len() as int);
        if encode_utf8(hex).len() != 64 {
            Err(diag(code, path, length_message))
        } else if !all_lower_hex_spec(hex) {
            Err(diag(code, path, hex_message))
        } else {
            Ok(())
        }
    }
}

/// The result of [`check_tagged_hex`], as an executable result.
pub open spec fn unit_result_view(r: Result<(), OracleDiagnosticV3>) -> Result<(), OracleDiagnosticV3View> {
    match r {
        Ok(()) => Ok(()),
        Err(e) => Err(e@),
    }
}

fn check_tagged_hex(
    s: &str,
    prefix: &str,
    code: OracleViolationCodeV3,
    path: &str,
    syntax_message: &str,
    length_message: &str,
    hex_message: &str,
) -> (r: Result<(), OracleDiagnosticV3>)
    ensures
        unit_result_view(r) == tagged_hex_spec(s@, prefix@, code, path@, syntax_message@, length_message@, hex_message@),
{
    let hex = match strip_prefix(s, prefix) {
        Some(hex) => hex,
        None => {
            return Err(diagnostic(code, path, syntax_message));
        },
    };
    if utf8_byte_len(&hex) != 64 {
        return Err(diagnostic(code, path, length_message));
    }
    let mut i: usize = 0;
    while i < hex.len()
        invariant
            i <= hex.len(),
            has_prefix_spec(s@, prefix@),
            hex@ == s@.subrange(prefix@.len() as int, s@.len() as int),
            encode_utf8(hex@).len() == 64,
            forall|j: int| 0 <= j < i ==> crate::text::is_lower_hex_spec(#[trigger] hex@[j]),
        decreases hex.len() - i,
    {
        let c = hex[i];
        if !(('0' <= c && c <= '9') || ('a' <= c && c <= 'f')) {
            return Err(diagnostic(code, path, hex_message));
        }
        i = i + 1;
    }
    Ok(())
}

/// What `validate_revision_id` returns.
pub open spec fn validate_revision_id_spec(s: Seq<char>) -> Result<(), OracleDiagnosticV3View> {
    tagged_hex_spec(
        s,
        "rev:sha256-v1:"@,
        OracleViolationCodeV3::ChangedSourceRevisionIdentity,
        "source_revision_id"@,
        "revision id must use rev:sha256-v1:<hex> syntax"@,
        "revision digest must be 64 hex characters"@,
        "revision digest hex is malformed"@,
    )
}

/// Checks that a revision id is `rev:sha256-v1:` followed by 64 lower-case hex digits.
pub fn validate_revision_id(tagged: &str) -> (r: Result<(), OracleDiagnosticV3>)
    ensures
        unit_result_view(r) == validate_revision_id_spec(tagged@),
{
    check_tagged_hex(
        tagged,
        "rev:sha256-v1:",
        OracleViolationCodeV3::ChangedSourceRevisionIdentity,
        "source_revision_id",
        "revision id must use rev:sha256-v1:<hex> syntax",
        "revision digest must be 64 hex characters",
        "revision digest hex is malformed",
    )
}

/// What `validate_session_terms_identity` returns.
pub open spec fn validate_session_terms_identity_spec(s: Seq<char>) -> Result<(), OracleDiagnosticV3View> {
    tagged_hex_spec(
        s,
        "session-terms:sha256-v1:"@,
        OracleViolationCodeV3::MalformedAnalysisSnapshot,
        "session_terms_identity"@,
        "session terms identity must use session-terms:sha256-v1:<hex> syntax"@,
        "session terms digest must be 64 hex characters"@,
        "session terms digest hex is malformed"@,
    )
}

/// Checks that a session-terms identity is `session-terms:sha256-v1:` followed by
/// 64 lower-case hex digits.
pub fn validate_session_terms_identity(tagged: &str) -> (r: Result<(), OracleDiagnosticV3>)
    ensures
        unit_result_view(r) == validate_session_terms_identity_spec(tagged@),
{
    check_tagged_hex(
        tagged,
        "session-terms:sha256-v1:",
        OracleViolationCodeV3::MalformedAnalysisSnapshot,
        "session_terms_identity",
        "session terms identity must use session-terms:sha256-v1:<hex> syntax",
        "session terms digest must be 64 hex characters",
        "session terms digest hex is malformed",
    )
}

/// The 32 bytes that 64 hexadecimal digits denote, high nibble first.
pub open spec fn hex_decode_spec(s: Seq<char>) -> Seq<u8> {
    Seq::new(32, |i: int| (hex_value_spec(s[2 * i]) * 16 + hex_value_spec(s[2 * i + 1])) as u8)
}

/// What `parse_decision_digest_hex` returns.
pub open spec fn parse_decision_digest_hex_spec(s: Seq<char>) -> Result<Seq<u8>, OracleDiagnosticV3View> {
    if encode_utf8(s).len() != 64 {
        Err(
            diag(
                OracleViolationCodeV3::MalformedDecisionDigest,
                "decision_digest"@,
                "decision digest must be 64 hex characters"@,
            ),
        )
    } else if !(forall|i: int| 0 <= i < s.len() ==> is_any_hex_spec(#[trigger] s[i])) {
        Err(
            diag(
                OracleViolationCodeV3::MalformedDecisionDigest,
                "decision_digest"@,
                "decision digest hex is malformed"@,
            ),
        )
    } else {
        Ok(hex_decode_spec(s))
    }
}

proof fn lemma_hex_value_of_char(k: nat)
    requires
        k < 16,
    ensures
        is_any_hex_spec(crate::digest::hex_char_spec(k)),
        (crate::digest::hex_char_spec(k) as u32) < 0x80,
        hex_value_spec(crate::digest::hex_char_spec(k)) == k,
{
}

/// Decision digests round-trip: the lower-case hexadecimal rendering of any
/// 32 bytes decodes back to those bytes.
pub proof fn law_decision_digest_round_trip(bytes: Seq<u8>)
    requires
        bytes.len() == 32,
    ensures
        parse_decision_digest_hex_spec(crate::digest::hex_spec(bytes)) == Ok::<Seq<u8>, OracleDiagnosticV3View>(bytes),
{
    let h = crate::digest::hex_spec(bytes);
    crate::digest::lemma_hex_index(bytes);
    crate::digest::lemma_hex_digits(bytes);
    assert forall|i: int| 0 <= i < h.len() implies is_any_hex_spec(#[trigger] h[i]) && (h[i] as u32) < 0x80 by {
        let j = i / 2;
        assert(0 <= j < 32);
        lemma_hex_value_of_char((bytes[j] / 16) as nat);
        lemma_hex_value_of_char((bytes[j] % 16) as nat);
        if i % 2 == 0 {
            assert(i == 2 * j);
        } else {
            assert(i == 2 * j + 1);
        }
    }
    lemma_encode_utf8_ascii_len(h);
    assert forall|i: int| 0 <= i < 32 implies #[trigger] hex_decode_spec(h)[i] == bytes[i] by {
        lemma_hex_value_of_char((bytes[i] / 16) as nat);
        lemma_hex_value_of_char((bytes[i] % 16) as nat);
        assert(h[2 * i] == crate::digest::hex_char_spec((bytes[i] / 16) as nat));
        assert(h[2 * i + 1] == crate::digest::hex_char_spec((bytes[i] % 16) as nat));
        assert((bytes[i] / 16) * 16 + bytes[i] % 16 == bytes[i]);
    }
    assert(hex_decode_spec(h) =~= bytes);
}

/// The result of a byte-producing check, as a value.
pub open spec fn bytes_result_view(r: Result<Vec<u8>, OracleDiagnosticV3>) -> Result<Seq<u8>, OracleDiagnosticV3View> {
    match r {
        Ok(b) => Ok(b@),
        Err(e) => Err(e@),
    }
}

fn hex_value(c: char) -> (v: u8)
    requires
        is_any_hex_spec(c),
    ensures
        v == hex_value_spec(c),
{
    if '0' <= c && c <= '9' {
        (c as u32 - '0' as u32) as u8
    } else if 'a' <= c && c <= 'f' {
        (c as u32 - 'a' as u32 + 10) as u8
    } else {
        (c as u32 - 'A' as u32 + 10) as u8
    }
}

/// Decodes a 64-digit hexadecimal decision digest into its 32 bytes.
pub fn parse_decision_digest_hex(hex: &str) -> (r: Result<Vec<u8>, OracleDiagnosticV3>)
    ensures
        bytes_result_view(r) == parse_decision_digest_hex_spec(hex@),
{
    let chars = chars_of(hex);
    if utf8_byte_len(&chars) != 64 {
        return Err(
            diagnostic(
                OracleViolationCodeV3::MalformedDecisionDigest,
                "decision_digest",
                "decision digest must be 64 hex characters",
            ),
        );
    }
    let mut i: usize = 0;
    while i < chars.len()
        invariant
            i <= chars.len(),
            chars@ == hex@,
            encode_utf8(hex@).len() == 64,
            forall|j: int| 0 <= j < i ==> is_any_hex_spec(#[trigger] chars@[j]),
        decreases chars.len() - i,
    {
        let c = chars[i];
        if !(('0' <= c && c <= '9') || ('a' <= c && c <= 'f') || ('A' <= c && c <= 'F')) {
            return Err(
                diagnostic(
                    OracleViolationCodeV3::MalformedDecisionDigest,
                    "decision_digest",
                    "decision digest hex is malformed",
                ),
            );
        }
        i = i + 1;
    }
    proof {
        assert forall|j: int| 0 <= j < chars@.len() implies (#[trigger] chars@[j] as u32) < 0x80 by {
            assert(is_any_hex_spec(chars@[j]));
        }
        lemma_encode_utf8_ascii_len(chars@);
    }
    let mut out: Vec<u8> = Vec::new();
    let mut k: usize = 0;
    while k < 32
        invariant
            k <= 32,
            chars@ == hex@,
            chars@.len() == 64,
            forall|j: int| 0 <= j < chars@.len() ==> is_any_hex_spec(#[trigger] chars@[j]),
            out@ == hex_decode_spec(hex@).subrange(0, k as int),
        decreases 32 - k,
    {
        let hi = hex_value(chars[2 * k]);
        let lo = hex_value(chars[2 * k + 1]);
        out.push(hi * 16 + lo);
        k = k + 1;
        proof {
            assert(out@ =~= hex_decode_spec(hex@).subrange(0, k as int));
        }
    }
    proof {
        assert(hex_decode_spec(hex@).subrange(0, 32) =~= hex_decode_spec(hex@));
    }
    Ok(out)
}

/// A known production analysis configuration: detector set, detector configuration and algorithm.
pub struct AnalysisConfigurationIdentity {
    pub detectors: Vec<EvidenceDetectorIdentity>,
    pub detector_config_id: String,
    pub detector_config_version: String,
    pub algorithm_id: String,
    pub algorithm_version: String,
}

/// The mathematical value of a [`AnalysisConfigurationIdentity`].
pub struct AnalysisConfigurationIdentityView {
    pub detectors: Seq<EvidenceDetectorIdentityView>,
    pub detector_config_id: Seq<char>,
    pub detector_config_version: Seq<char>,
    pub algorithm_id: Seq<char>,
    pub algorithm_version: Seq<char>,
}

impl View for AnalysisConfigurationIdentity {
    type V = AnalysisConfigurationIdentityView;

    open spec fn view(&self) -> AnalysisConfigurationIdentityView {
        AnalysisConfigurationIdentityView {
            detectors: vec_view(self.detectors@),
            detector_config_id: self.detector_config_id@,
            detector_config_version: self.detector_config_version@,
            algorithm_id: self.algorithm_id@,
            algorithm_version: self.algorithm_version@,
        }
    }
}

impl Clone for AnalysisConfigurationIdentity {
    fn clone(&self) -> (r: Self)
        ensures
            r@ == self@,
    {
        AnalysisConfigurationIdentity {
            detectors: vec_duplicate(&self.detectors),
            detector_config_id: self.detector_config_id.clone(),
            detector_config_version: self.detector_config_version.clone(),
            algorithm_id: self.algorithm_id.clone(),
            algorithm_version: self.algorithm_version.clone(),
        }
    }
}

impl SameAs for AnalysisConfigurationIdentity {
    fn duplicate(&self) -> (r: Self) {
        self.clone()
    }

    fn same_as(&self, other: &Self) -> (r: bool) {
        vec_same(&self.detectors, &other.detectors)
            && self.detector_config_id.same_as(&other.detector_config_id)
            && self.detector_config_version.same_as(&other.detector_config_version)
            && self.algorithm_id.same_as(&other.algorithm_id)
            && self.algorithm_version.same_as(&other.algorithm_version)
    }
}

/// The production rules that the evidence contract checks against: the two known analysis configurations and the bound on manual replacement text.
pub struct ContractRules {
    pub canonical_configuration: AnalysisConfigurationIdentity,
    pub reuse_enabled_configuration: AnalysisConfigurationIdentity,
    pub max_manual_replacement_utf8_bytes: usize,
}

/// The mathematical value of a [`ContractRules`].
pub struct ContractRulesView {
    pub canonical_configuration: AnalysisConfigurationIdentityView,
    pub reuse_enabled_configuration: AnalysisConfigurationIdentityView,
    pub max_manual_replacement_utf8_bytes: usize,
}

impl View for ContractRules {
    type V = ContractRulesView;

    open spec fn view(&self) -> ContractRulesView {
        ContractRulesView {
            canonical_configuration: self.canonical_configuration@,
            reuse_enabled_configuration: self.reuse_enabled_configuration@,
            max_manual_replacement_utf8_bytes: self.max_manual_replacement_utf8_bytes,
        }
    }
}

impl Clone for ContractRules {
    fn clone(&self) -> (r: Self)
        ensures
            r@ == self@,
    {
        ContractRules {
            canonical_configuration: self.canonical_configuration.clone(),
            reuse_enabled_configuration: self.reuse_enabled_configuration.clone(),
            max_manual_replacement_utf8_bytes: self.max_manual_replacement_utf8_bytes,
        }
    }
}

impl SameAs for ContractRules {
    fn duplicate(&self) -> (r: Self) {
        self.clone()
    }

    fn same_as(&self, other: &Self) -> (r: bool) {
        self.canonical_configuration.same_as(&other.canonical_configuration)
            && self.reuse_enabled_configuration.same_as(&other.reuse_enabled_configuration)
            && self.max_manual_replacement_utf8_bytes == other.max_manual_replacement_utf8_bytes
    }
}

/// The detector list of an analysis identity: `id@version` entries joined by commas.
pub open spec fn detector_list_spec(ds: Seq<EvidenceDetectorIdentityView>) -> Seq<char>
    decreases ds.len(),
{
    if ds.len() == 0 {
        Seq::empty()
    } else if ds.len() == 1 {
        ds[0].id + seq!['@'] + ds[0].version
    } else {
        detector_list_spec(ds.drop_last()) + seq![','] + ds.last().id + seq!['@'] + ds.last().version
    }
}

/// The display identity of an analysis snapshot, made of its typed fields.
pub open spec fn analysis_identity_spec(s: EvidenceAnalysisSnapshotView) -> Seq<char> {
    "analysis-snapshot:"@ + s.source_revision_id + seq![':'] + s.session_terms_identity + seq![':']
        + detector_list_spec(s.detectors) + seq![':'] + s.detector_config_id + seq!['@']
        + s.detector_config_version + seq![':'] + s.algorithm_id + seq!['@'] + s.algorithm_version
}

/// The display identity that the typed fields of a snapshot determine.
pub fn evidence_analysis_snapshot_identity(snapshot: &EvidenceAnalysisSnapshot) -> (r: String)
    ensures
        r@ == analysis_identity_spec(snapshot@),
{
    let mut out = String::from_str("analysis-snapshot:");
    out.append(snapshot.source_revision_id.as_str());
    push_char(&mut out, ':');
    out.append(snapshot.session_terms_identity.as_str());
    push_char(&mut out, ':');
    let ghost before = out@;
    let ghost ds = vec_view(snapshot.detectors@);
    let mut i: usize = 0;
    while i < snapshot.detectors.len()
        invariant
            i <= snapshot.detectors.len(),
            ds == vec_view(snapshot.detectors@),
            out@ == before + detector_list_spec(ds.subrange(0, i as int)),
        decreases snapshot.detectors.len() - i,
    {
        let ghost mid = out@;
        if i > 0 {
            push_char(&mut out, ',');
        }
        out.append(snapshot.detectors[i].id.as_str());
        push_char(&mut out, '@');
        out.append(snapshot.detectors[i].version.as_str());
        i = i + 1;
        proof {
            let sub = ds.subrange(0, i as int);
            assert(sub.drop_last() =~= ds.subrange(0, i - 1));
            assert(sub.last() == snapshot.detectors@[i - 1]@);
            if i == 1 {
                assert(ds.subrange(0, 0) =~= Seq::<EvidenceDetectorIdentityView>::empty());
            }
            assert(out@ =~= before + detector_list_spec(sub));
        }
    }
    proof {
        assert(ds.subrange(0, i as int) =~= ds);
    }
    push_char(&mut out, ':');
    out.append(snapshot.detector_config_id.as_str());
    push_char(&mut out, '@');
    out.append(snapshot.detector_config_version.as_str());
    push_char(&mut out, ':');
    out.append(snapshot.algorithm_id.as_str());
    push_char(&mut out, '@');
    out.append(snapshot.algorithm_version.as_str());
    proof {
        assert(out@ =~= analysis_identity_spec(snapshot@));
    }
    out
}

/// The snapshot's detector set, detector configuration and algorithm are
/// those of the configuration.
pub open spec fn matches_configuration_spec(
    s: EvidenceAnalysisSnapshotView,
    c: AnalysisConfigurationIdentityView,
) -> bool {
    &&& s.detectors == c.detectors
    &&& s.detector_config_id == c.detector_config_id
    &&& s.detector_config_version == c.detector_config_version
    &&& s.algorithm_id == c.algorithm_id
    &&& s.algorithm_version == c.algorithm_version
}

/// Whether the snapshot was produced by the given configuration.
pub fn evidence_matches_configuration(
    snapshot: &EvidenceAnalysisSnapshot,
    configuration: &AnalysisConfigurationIdentity,
) -> (r: bool)
    ensures
        r == matches_configuration_spec(snapshot@, configuration@),
{
    vec_same(&snapshot.detectors, &configuration.detectors)
        && snapshot.detector_config_id.same_as(&configuration.detector_config_id)
        && snapshot.detector_config_version.same_as(&configuration.detector_config_version)
        && snapshot.algorithm_id.same_as(&configuration.algorithm_id)
        && snapshot.algorithm_version.same_as(&configuration.algorithm_version)
}

/// Whether the snapshot uses the reuse-enabled analysis configuration.
pub fn is_reuse_enabled_analysis_snapshot(snapshot: &EvidenceAnalysisSnapshot, rules: &ContractRules) -> (r: bool)
    ensures
        r == matches_configuration_spec(snapshot@, rules@.reuse_enabled_configuration),
{
    evidence_matches_configuration(snapshot, &rules.reuse_enabled_configuration)
}

/// Whether the snapshot uses the canonical session-term analysis configuration.
pub fn is_canonical_analysis_snapshot(snapshot: &EvidenceAnalysisSnapshot, rules: &ContractRules) -> (r: bool)
    ensures
        r == matches_configuration_spec(snapshot@, rules@.canonical_configuration),
{
    evidence_matches_configuration(snapshot, &rules.canonical_configuration)
}

/// What `validate_analysis_snapshot` returns.
pub open spec fn validate_analysis_snapshot_spec(
    s: EvidenceAnalysisSnapshotView,
    rules: ContractRulesView,
) -> Result<(), OracleDiagnosticV3View> {
    match validate_revision_id_spec(s.source_revision_id) {
        Err(e) => Err(e),
        Ok(_) => match validate_session_terms_identity_spec(s.session_terms_identity) {
            Err(e) => Err(e),
            Ok(_) => if !matches_configuration_spec(s, rules.canonical_configuration)
                && !matches_configuration_spec(s, rules.reuse_enabled_configuration) {
                Err(
                    diag(
                        OracleViolationCodeV3::MalformedAnalysisSnapshot,
                        "analysis_snapshots"@,
                        "analysis snapshot fields do not match a known production configuration"@,
                    ),
                )
            } else if s.identity != analysis_identity_spec(s) {
                Err(
                    diag(
                        OracleViolationCodeV3::MalformedAnalysisSnapshot,
                        "analysis_snapshots.identity"@,
                        "analysis snapshot display identity does not match typed fields"@,
                    ),
                )
            } else {
                Ok(())
            },
        },
    }
}

/// Checks a snapshot's identities, its configuration and its display identity.
pub fn validate_analysis_snapshot(
    snapshot: &EvidenceAnalysisSnapshot,
    rules: &ContractRules,
) -> (r: Result<(), OracleDiagnosticV3>)
    ensures
        unit_result_view(r) == validate_analysis_snapshot_spec(snapshot@, rules@),
{
    validate_revision_id(snapshot.source_revision_id.as_str())?;
    validate_session_terms_identity(snapshot.session_terms_identity.as_str())?;
    if !is_canonical_analysis_snapshot(snapshot, rules) && !is_reuse_enabled_analysis_snapshot(snapshot, rules) {
        return Err(
            diagnostic(
                OracleViolationCodeV3::MalformedAnalysisSnapshot,
                "analysis_snapshots",
                "analysis snapshot fields do not match a known production configuration",
            ),
        );
    }
    let expected = evidence_analysis_snapshot_identity(snapshot);
    if !snapshot.identity.same_as(&expected) {
        return Err(
            diagnostic(
                OracleViolationCodeV3::MalformedAnalysisSnapshot,
                "analysis_snapshots.identity",
                "analysis snapshot display identity does not match typed fields",
            ),
        );
    }
    Ok(())
}


/// The projection version of reusable-influence snapshots.
pub const REUSABLE_INFLUENCE_PROJECTION_VERSION: &'static str = "reusable-exact-input-v1";

/// The position of the first snapshot with the given identity.
pub open spec fn first_snapshot_index(snaps: Seq<EvidenceAnalysisSnapshotView>, identity: Seq<char>) -> Option<nat>
    decreases snaps.len(),
{
    if snaps.len() == 0 {
        None
    } else if snaps[0].identity == identity {
        Some(0)
    } else {
        match first_snapshot_index(snaps.drop_first(), identity) {
            Some(i) => Some(i + 1),
            None => None,
        }
    }
}

proof fn lemma_first_snapshot_index(snaps: Seq<EvidenceAnalysisSnapshotView>, identity: Seq<char>)
    ensures
        match first_snapshot_index(snaps, identity) {
            Some(i) => i < snaps.len() && snaps[i as int].identity == identity && forall|j: int|
                0 <= j < i ==> (#[trigger] snaps[j]).identity != identity,
            None => forall|j: int| 0 <= j < snaps.len() ==> (#[trigger] snaps[j]).identity != identity,
        },
    decreases snaps.len(),
{
    if snaps.len() > 0 && snaps[0].identity != identity {
        let rest = snaps.drop_first();
        lemma_first_snapshot_index(rest, identity);
        match first_snapshot_index(rest, identity) {
            Some(i) => {
                assert(snaps[(i + 1) as int] == rest[i as int]);
                assert forall|j: int| 0 <= j < i + 1 implies (#[trigger] snaps[j]).identity != identity by {
                    if j > 0 {
                        assert(snaps[j] == rest[j - 1]);
                    }
                }
            },
            None => {
                assert forall|j: int| 0 <= j < snaps.len() implies (#[trigger] snaps[j]).identity != identity by {
                    if j > 0 {
                        assert(snaps[j] == rest[j - 1]);
                    }
                }
            },
        }
    }
}

/// The position of the first snapshot with the given identity.
pub fn find_snapshot(snapshots: &Vec<EvidenceAnalysisSnapshot>, identity: &String) -> (r: Option<usize>)
    ensures
        match r {
            Some(i) => i < snapshots@.len() && first_snapshot_index(vec_view(snapshots@), identity@) == Some(i as nat),
            None => first_snapshot_index(vec_view(snapshots@), identity@) is None,
        },
{
    let ghost sv = vec_view(snapshots@);
    proof {
        lemma_first_snapshot_index(sv, identity@);
    }
    let mut i: usize = 0;
    while i < snapshots.len()
        invariant
            i <= snapshots.len(),
            sv == vec_view(snapshots@),
            forall|j: int| 0 <= j < i ==> (#[trigger] sv[j]).identity != identity@,
        decreases snapshots.len() - i,
    {
        if snapshots[i].identity.same_as(identity) {
            proof {
                lemma_first_snapshot_index(sv, identity@);
                assert(sv[i as int].identity == identity@);
                match first_snapshot_index(sv, identity@) {
                    Some(k) => {
                        let ki = k as int;
                        if ki < i {
                            assert(sv[ki].identity != identity@);
                        }
                        if ki > i {
                            assert(sv[i as int].identity != identity@);
                        }
                    },
                    None => {
                        assert(sv[i as int].identity != identity@);
                    },
                }
            }
            return Some(i);
        }
        i = i + 1;
    }
    proof {
        match first_snapshot_index(sv, identity@) {
            Some(k) => {
                let ki = k as int;
                assert(sv[ki].identity != identity@);
            },
            None => {},
        }
    }
    None
}

/// What `validate_source_decision_locator` returns.
pub open spec fn validate_source_decision_locator_spec(
    locator: EvidenceSourceDecisionLocatorView,
    snaps: Seq<EvidenceAnalysisSnapshotView>,
    rules: ContractRulesView,
) -> Result<(), OracleDiagnosticV3View> {
    match validate_revision_id_spec(locator.source_revision_id) {
        Err(e) => Err(e),
        Ok(_) => match first_snapshot_index(snaps, locator.source_analysis_snapshot_identity) {
            None => Err(
                diag(
                    OracleViolationCodeV3::SourceLocatorBoundaryViolation,
                    "source_locator.source_analysis_snapshot_identity"@,
                    "referenced analysis snapshot does not exist"@,
                ),
            ),
            Some(i) => match validate_analysis_snapshot_spec(snaps[i as int], rules) {
                Err(e) => Err(e),
                Ok(_) => if snaps[i as int].source_revision_id != locator.source_revision_id {
                    Err(
                        diag(
                            OracleViolationCodeV3::SourceLocatorBoundaryViolation,
                            "source_locator.source_analysis_snapshot_identity"@,
                            "analysis snapshot source revision does not match source locator revision"@,
                        ),
                    )
                } else {
                    match parse_review_case_id_spec(locator.source_review_case_id) {
                        Err(e) => Err(e),
                        Ok(_) => match parse_decision_digest_hex_spec(locator.decision_digest) {
                            Err(e) => Err(e),
                            Ok(_) => Ok(()),
                        },
                    }
                },
            },
        },
    }
}

/// Checks a source locator: its revision id, the snapshot it names (which must
/// exist, validate and share the revision), its case id and its decision digest.
pub fn validate_source_decision_locator(
    locator: &EvidenceSourceDecisionLocator,
    snapshots: &Vec<EvidenceAnalysisSnapshot>,
    rules: &ContractRules,
) -> (r: Result<(), OracleDiagnosticV3>)
    ensures
        unit_result_view(r) == validate_source_decision_locator_spec(locator@, vec_view(snapshots@), rules@),
{
    validate_revision_id(locator.source_revision_id.as_str())?;
    let index = match find_snapshot(snapshots, &locator.source_analysis_snapshot_identity) {
        Some(i) => i,
        None => {
            return Err(
                diagnostic(
                    OracleViolationCodeV3::SourceLocatorBoundaryViolation,
                    "source_locator.source_analysis_snapshot_identity",
                    "referenced analysis snapshot does not exist",
                ),
            );
        },
    };
    let snapshot = &snapshots[index];
    proof {
        assert(vec_view(snapshots@)[index as int] == snapshot@);
    }
    validate_analysis_snapshot(snapshot, rules)?;
    if !snapshot.source_revision_id.same_as(&locator.source_revision_id) {
        return Err(
            diagnostic(
                OracleViolationCodeV3::SourceLocatorBoundaryViolation,
                "source_locator.source_analysis_snapshot_identity",
                "analysis snapshot source revision does not match source locator revision",
            ),
        );
    }
    match parse_review_case_id(locator.source_review_case_id.as_str()) {
        Ok(_) => {},
        Err(e) => {
            return Err(e);
        },
    }
    match parse_decision_digest_hex(locator.decision_digest.as_str()) {
        Ok(_) => {},
        Err(e) => {
            return Err(e);
        },
    }
    Ok(())
}

/// Manual replacement text that a decision may record: non-empty, not only
/// whitespace, within the byte bound, different from the observed text, and
/// free of control characters and line or paragraph separators.
pub open spec fn manual_replacement_valid_spec(replacement: Seq<char>, observed: Seq<char>, max_bytes: usize) -> bool {
    &&& replacement.len() > 0
    &&& !is_blank_spec(replacement)
    &&& encode_utf8(replacement).len() <= max_bytes
    &&& replacement != observed
    &&& !has_forbidden_char_spec(replacement)
}

/// Checks that manual replacement text is acceptable for the observed text.
pub fn validate_manual_replacement(
    replacement: &str,
    observed_source_bytes: &str,
    max_bytes: usize,
) -> (r: Result<(), OracleDiagnosticV3>)
    ensures
        r.is_ok() == manual_replacement_valid_spec(replacement@, observed_source_bytes@, max_bytes),
        r.is_err() ==> r.unwrap_err()@ == diag(
            OracleViolationCodeV3::MalformedReviewLedgerEvent,
            "manual_replacement_bytes"@,
            "manual replacement bytes are invalid for observed source bytes"@,
        ),
{
    let chars = chars_of(replacement);
    let observed = chars_of(observed_source_bytes);
    if chars.len() == 0 || is_blank(replacement) || utf8_byte_len(&chars) > max_bytes as u128
        || chars_eq(&chars, &observed) || has_forbidden_char(replacement) {
        return Err(
            diagnostic(
                OracleViolationCodeV3::MalformedReviewLedgerEvent,
                "manual_replacement_bytes",
                "manual replacement bytes are invalid for observed source bytes",
            ),
        );
    }
    Ok(())
}

/// Whether a project scope id is usable: non-empty, not only whitespace, and
/// free of control characters and line or paragraph separators.
pub fn valid_scope_text(value: &str) -> (r: bool)
    ensures
        r == valid_label_text_spec(value@),
{
    valid_label_text(value)
}

/// A display label in canonical stored form: valid label text with no
/// surrounding whitespace.
pub open spec fn canonical_display_label_spec(l: Seq<char>) -> bool {
    valid_label_text_spec(l) && !is_whitespace_spec(l[0]) && !is_whitespace_spec(l.last())
}

/// A governance actor context: one of the declared operator roles and a valid label.
pub open spec fn valid_governance_actor_spec(role: Seq<char>, display: Seq<char>) -> bool {
    (role == "declared_local_owner_operator"@ || role == "declared_authorized_human_reviewer"@)
        && valid_label_text_spec(display)
}

/// The finding, if any, of checking a governance actor against the session authority.
pub open spec fn actor_session_bound_spec(
    actor: EvidenceGovernanceActorView,
    authority: EvidenceSessionAuthorityView,
    path: Seq<char>,
) -> Option<OracleDiagnosticV3View> {
    if !canonical_display_label_spec(actor.display_label) {
        Some(
            diag(
                OracleViolationCodeV3::GovernanceActorLabelNonCanonical,
                path,
                "governance actor display label is not canonical"@,
            ),
        )
    } else if actor.role_label != authority.role_label {
        Some(
            diag(
                OracleViolationCodeV3::GovernanceActorRoleMismatch,
                path,
                "governance actor role does not match session authority"@,
            ),
        )
    } else if actor.display_label != authority.display_label {
        Some(
            diag(
                OracleViolationCodeV3::GovernanceActorLabelMismatch,
                path,
                "governance actor display label does not match session authority"@,
            ),
        )
    } else if !valid_governance_actor_spec(actor.role_label, actor.display_label) {
        Some(
            diag(
                OracleViolationCodeV3::ChangedReuseGovernanceActor,
                path,
                "governance actor context is invalid"@,
            ),
        )
    } else {
        None
    }
}

/// The findings an optional finding stands for.
pub open spec fn opt_diags(d: Option<OracleDiagnosticV3View>) -> Seq<OracleDiagnosticV3View> {
    match d {
        Some(x) => seq![x],
        None => Seq::empty(),
    }
}

fn canonical_display_label(label: &str) -> (r: bool)
    ensures
        r == canonical_display_label_spec(label@),
{
    if !valid_label_text(label) {
        return false;
    }
    let chars = chars_of(label);
    assert(chars@.len() > 0);
    !is_whitespace(chars[0]) && !is_whitespace(chars[chars.len() - 1])
}

fn valid_governance_actor(role: &String, display: &String) -> (r: bool)
    ensures
        r == valid_governance_actor_spec(role@, display@),
{
    let owner = String::from_str("declared_local_owner_operator");
    let reviewer = String::from_str("declared_authorized_human_reviewer");
    (role.same_as(&owner) || role.same_as(&reviewer)) && valid_label_text(display.as_str())
}

/// Checks that a governance actor is the session authority with a canonical
/// label, recording the first finding; returns whether the actor is accepted.
pub fn validate_governance_actor_session_bound(
    actor: &EvidenceGovernanceActor,
    session_authority: &EvidenceSessionAuthority,
    path: &str,
    violations: &mut Vec<OracleDiagnosticV3>,
) -> (r: bool)
    ensures
        r == actor_session_bound_spec(actor@, session_authority@, path@) is None,
        vec_view(final(violations)@) == vec_view(old(violations)@) + opt_diags(
            actor_session_bound_spec(actor@, session_authority@, path@),
        ),
{
    let ghost before = vec_view(violations@);
    let finding = if !canonical_display_label(actor.display_label.as_str()) {
        Some(
            diagnostic(
                OracleViolationCodeV3::GovernanceActorLabelNonCanonical,
                path,
                "governance actor display label is not canonical",
            ),
        )
    } else if !actor.role_label.same_as(&session_authority.role_label) {
        Some(
            diagnostic(
                OracleViolationCodeV3::GovernanceActorRoleMismatch,
                path,
                "governance actor role does not match session authority",
            ),
        )
    } else if !actor.display_label.same_as(&session_authority.display_label) {
        Some(
            diagnostic(
                OracleViolationCodeV3::GovernanceActorLabelMismatch,
                path,
                "governance actor display label does not match session authority",
            ),
        )
    } else if !valid_governance_actor(&actor.role_label, &actor.display_label) {
        Some(
            diagnostic(
                OracleViolationCodeV3::ChangedReuseGovernanceActor,
                path,
                "governance actor context is invalid",
            ),
        )
    } else {
        None
    };
    match finding {
        Some(d) => {
            violations.push(d);
            proof {
                assert(vec_view(violations@) =~= before + opt_diags(
                    actor_session_bound_spec(actor@, session_authority@, path@),
                ));
            }
            false
        },
        None => {
            proof {
                assert(vec_view(violations@) =~= before + opt_diags(
                    actor_session_bound_spec(actor@, session_authority@, path@),
                ));
            }
            true
        },
    }
}


/// What `production_decision_digest_hex` returns.
pub open spec fn production_decision_digest_hex_spec(
    case_id: Seq<char>,
    observed_revision_id: Seq<char>,
    replacement: Seq<char>,
    observed_source_bytes: Seq<char>,
    max_bytes: usize,
) -> Result<Seq<char>, OracleDiagnosticV3View> {
    match parse_review_case_id_spec(case_id) {
        Err(e) => Err(e),
        Ok(case_index) => match validate_revision_id_spec(observed_revision_id) {
            Err(e) => Err(e),
            Ok(_) => if !manual_replacement_valid_spec(replacement, observed_source_bytes, max_bytes) {
                Err(
                    diag(
                        OracleViolationCodeV3::MalformedReviewLedgerEvent,
                        "manual_replacement_bytes"@,
                        "manual replacement bytes are invalid for observed source bytes"@,
                    ),
                )
            } else {
                Ok(
                    hex_spec(
                        sha256_spec(
                            encode_utf8("voxproof-manual-replacement-decision-digest-v1"@) + le_u64(case_index)
                                + encode_utf8(observed_revision_id) + field_spec(replacement),
                        ),
                    ),
                )
            },
        },
    }
}

/// The result of a text-producing check, as a value.
pub open spec fn string_result_view(r: Result<String, OracleDiagnosticV3>) -> Result<Seq<char>, OracleDiagnosticV3View> {
    match r {
        Ok(s) => Ok(s@),
        Err(e) => Err(e@),
    }
}

/// The hexadecimal SHA-256 digest that identifies a manual replacement decision.
pub fn production_decision_digest_hex(
    case_id: &str,
    observed_revision_id: &str,
    replacement: &str,
    observed_source_bytes: &str,
    max_bytes: usize,
) -> (r: Result<String, OracleDiagnosticV3>)
    ensures
        string_result_view(r) == production_decision_digest_hex_spec(
            case_id@,
            observed_revision_id@,
            replacement@,
            observed_source_bytes@,
            max_bytes,
        ),
{
    let case_index = parse_review_case_id(case_id)?;
    validate_revision_id(observed_revision_id)?;
    validate_manual_replacement(replacement, observed_source_bytes, max_bytes)?;
    let mut bytes: Vec<u8> = Vec::new();
    push_bytes(&mut bytes, "voxproof-manual-replacement-decision-digest-v1".as_bytes());
    push_u64(&mut bytes, case_index);
    push_bytes(&mut bytes, observed_revision_id.as_bytes());
    push_field(&mut bytes, replacement);
    let digest = sha256(bytes.as_slice());
    let mut out = String::new();
    push_hex(&mut out, digest.as_slice());
    proof {
        assert(bytes@ =~= encode_utf8("voxproof-manual-replacement-decision-digest-v1"@) + le_u64(case_index)
            + encode_utf8(observed_revision_id@) + field_spec(replacement@));
        assert(out@ =~= hex_spec(digest@));
    }
    Ok(out)
}

/// The detector fields that snapshot hashing feeds: each id and version as a field.
pub open spec fn detectors_input_spec(ds: Seq<EvidenceDetectorIdentityView>) -> Seq<u8>
    decreases ds.len(),
{
    if ds.len() == 0 {
        Seq::empty()
    } else {
        detectors_input_spec(ds.drop_last()) + field_spec(ds.last().id) + field_spec(ds.last().version)
    }
}

/// The bytes that hashing an analysis snapshot feeds, or why it is refused.
pub open spec fn analysis_hash_input_spec(
    s: EvidenceAnalysisSnapshotView,
    rules: ContractRulesView,
) -> Result<Seq<u8>, OracleDiagnosticV3View> {
    match validate_analysis_snapshot_spec(s, rules) {
        Err(e) => Err(e),
        Ok(_) => Ok(
            field_spec(s.source_revision_id) + field_spec(s.session_terms_identity) + le_u64(
                s.detectors.len() as usize,
            ) + detectors_input_spec(s.detectors) + field_spec(s.detector_config_id) + field_spec(
                s.detector_config_version,
            ) + field_spec(s.algorithm_id) + field_spec(s.algorithm_version),
        ),
    }
}

/// The bytes appended on success; `old` stays unchanged on refusal.
pub open spec fn appended(
    r: Result<(), OracleDiagnosticV3>,
    old: Seq<u8>,
    new: Seq<u8>,
    expected: Result<Seq<u8>, OracleDiagnosticV3View>,
) -> bool {
    match r {
        Ok(_) => expected is Ok && new == old + expected->Ok_0,
        Err(e) => new == old && expected == Err::<Seq<u8>, OracleDiagnosticV3View>(e@),
    }
}

/// Feeds a validated analysis snapshot into a SHA-256 input buffer, as the
/// production snapshot hash does.
pub fn hash_evidence_analysis_snapshot(
    hasher: &mut Vec<u8>,
    snapshot: &EvidenceAnalysisSnapshot,
    rules: &ContractRules,
) -> (r: Result<(), OracleDiagnosticV3>)
    ensures
        appended(r, old(hasher)@, final(hasher)@, analysis_hash_input_spec(snapshot@, rules@)),
{
    validate_analysis_snapshot(snapshot, rules)?;
    let ghost start = hasher@;
    push_field(hasher, snapshot.source_revision_id.as_str());
    push_field(hasher, snapshot.session_terms_identity.as_str());
    push_u64(hasher, snapshot.detectors.len());
    let ghost ds = vec_view(snapshot.detectors@);
    let ghost mid = hasher@;
    let mut i: usize = 0;
    while i < snapshot.detectors.len()
        invariant
            i <= snapshot.detectors.len(),
            ds == vec_view(snapshot.detectors@),
            hasher@ == mid + detectors_input_spec(ds.subrange(0, i as int)),
        decreases snapshot.detectors.len() - i,
    {
        push_field(hasher, snapshot.detectors[i].id.as_str());
        push_field(hasher, snapshot.detectors[i].version.as_str());
        i = i + 1;
        proof {
            let sub = ds.subrange(0, i as int);
            assert(sub.drop_last() =~= ds.subrange(0, i - 1));
            assert(sub.last() == snapshot.detectors@[i - 1]@);
            assert(hasher@ =~= mid + detectors_input_spec(sub));
        }
    }
    proof {
        assert(ds.subrange(0, i as int) =~= ds);
    }
    push_field(hasher, snapshot.detector_config_id.as_str());
    push_field(hasher, snapshot.detector_config_version.as_str());
    push_field(hasher, snapshot.algorithm_id.as_str());
    push_field(hasher, snapshot.algorithm_version.as_str());
    proof {
        let expected = analysis_hash_input_spec(snapshot@, rules@)->Ok_0;
        assert(hasher@ =~= start + expected);
    }
    Ok(())
}

/// The bytes that hashing a source locator feeds, or why it is refused.
pub open spec fn locator_hash_input_spec(
    l: EvidenceSourceDecisionLocatorView,
    snaps: Seq<EvidenceAnalysisSnapshotView>,
    rules: ContractRulesView,
) -> Result<Seq<u8>, OracleDiagnosticV3View> {
    match validate_source_decision_locator_spec(l, snaps, rules) {
        Err(e) => Err(e),
        Ok(_) => {
            let snap = snaps[first_snapshot_index(snaps, l.source_analysis_snapshot_identity)->Some_0 as int];
            match analysis_hash_input_spec(snap, rules) {
                Err(e) => Err(e),
                Ok(sb) => Ok(
                    field_spec(l.source_revision_id) + sb + le_u64(
                        parse_review_case_id_spec(l.source_review_case_id)->Ok_0,
                    ) + le_u64(l.review_ledger_position) + parse_decision_digest_hex_spec(
                        l.decision_digest,
                    )->Ok_0 + le_u64(l.effective_at_ledger_length),
                ),
            }
        },
    }
}

/// Feeds a validated source locator into a SHA-256 input buffer, as the
/// production locator hash does.
pub fn hash_evidence_source_decision_locator(
    hasher: &mut Vec<u8>,
    locator: &EvidenceSourceDecisionLocator,
    snapshots: &Vec<EvidenceAnalysisSnapshot>,
    rules: &ContractRules,
) -> (r: Result<(), OracleDiagnosticV3>)
    ensures
        appended(r, old(hasher)@, final(hasher)@, locator_hash_input_spec(locator@, vec_view(snapshots@), rules@)),
{
    validate_source_decision_locator(locator, snapshots, rules)?;
    let ghost start = hasher@;
    push_field(hasher, locator.source_revision_id.as_str());
    let index = match find_snapshot(snapshots, &locator.source_analysis_snapshot_identity) {
        Some(i) => i,
        None => {
            proof {
                assert(false);
            }
            return Ok(());
        },
    };
    proof {
        assert(vec_view(snapshots@)[index as int] == snapshots@[index as int]@);
    }
    let ghost mid = hasher@;
    match hash_evidence_analysis_snapshot(hasher, &snapshots[index], rules) {
        Ok(()) => {},
        Err(e) => {
            proof {
                assert(false);
            }
            return Err(e);
        },
    }
    let case_index = match parse_review_case_id(locator.source_review_case_id.as_str()) {
        Ok(v) => v,
        Err(e) => {
            proof {
                assert(false);
            }
            return Err(e);
        },
    };
    push_u64(hasher, case_index);
    push_u64(hasher, locator.review_ledger_position);
    let digest = match parse_decision_digest_hex(locator.decision_digest.as_str()) {
        Ok(d) => d,
        Err(e) => {
            proof {
                assert(false);
            }
            return Err(e);
        },
    };
    push_bytes(hasher, digest.as_slice());
    push_u64(hasher, locator.effective_at_ledger_length);
    proof {
        let expected = locator_hash_input_spec(locator@, vec_view(snapshots@), rules@)->Ok_0;
        assert(hasher@ =~= start + expected);
    }
    Ok(())
}


/// The bytes that one active record feeds into the snapshot identity hash.
#[verifier::opaque]
pub open spec fn record_hash_input_spec(
    rec: EvidenceReusableRecordView,
    snaps: Seq<EvidenceAnalysisSnapshotView>,
    rules: ContractRulesView,
) -> Result<Seq<u8>, OracleDiagnosticV3View> {
    match validate_source_decision_locator_spec(rec.source_locator, snaps, rules) {
        Err(e) => Err(e),
        Ok(_) => match locator_hash_input_spec(rec.source_locator, snaps, rules) {
            Err(e) => Err(e),
            Ok(lb) => Ok(
                le_u64(rec.record_id) + field_spec(rec.observed_text) + field_spec(rec.confirmed_replacement)
                    + lb + field_spec(rec.promotion_actor.role_label) + field_spec(
                    rec.promotion_actor.display_label,
                ),
            ),
        },
    }
}

/// The bytes that all active records feed, in order, or the first refusal.
pub open spec fn records_hash_input_spec(
    recs: Seq<EvidenceReusableRecordView>,
    snaps: Seq<EvidenceAnalysisSnapshotView>,
    rules: ContractRulesView,
) -> Result<Seq<u8>, OracleDiagnosticV3View>
    decreases recs.len(),
{
    if recs.len() == 0 {
        Ok(Seq::empty())
    } else {
        match records_hash_input_spec(recs.drop_last(), snaps, rules) {
            Err(e) => Err(e),
            Ok(b) => match record_hash_input_spec(recs.last(), snaps, rules) {
                Err(e) => Err(e),
                Ok(rb) => Ok(b + rb),
            },
        }
    }
}

proof fn lemma_records_err_persists(
    recs: Seq<EvidenceReusableRecordView>,
    snaps: Seq<EvidenceAnalysisSnapshotView>,
    rules: ContractRulesView,
    k: int,
)
    requires
        0 <= k <= recs.len(),
        records_hash_input_spec(recs.subrange(0, k), snaps, rules) is Err,
    ensures
        records_hash_input_spec(recs, snaps, rules) == records_hash_input_spec(recs.subrange(0, k), snaps, rules),
    decreases recs.len() - k,
{
    if k < recs.len() {
        let next = recs.subrange(0, k + 1);
        assert(next.drop_last() =~= recs.subrange(0, k));
        lemma_records_err_persists(recs, snaps, rules, k + 1);
    } else {
        assert(recs.subrange(0, k) =~= recs);
    }
}

fn hash_active_record(
    bytes: &mut Vec<u8>,
    record: &EvidenceReusableRecord,
    analysis_snapshots: &Vec<EvidenceAnalysisSnapshot>,
    rules: &ContractRules,
) -> (r: Result<(), OracleDiagnosticV3>)
    ensures
        appended(r, old(bytes)@, final(bytes)@, record_hash_input_spec(record@, vec_view(analysis_snapshots@), rules@)),
{
    reveal(record_hash_input_spec);
    validate_source_decision_locator(&record.source_locator, analysis_snapshots, rules)?;
    let ghost before = bytes@;
    push_u64(bytes, record.record_id);
    push_field(bytes, record.observed_text.as_str());
    push_field(bytes, record.confirmed_replacement.as_str());
    match hash_evidence_source_decision_locator(bytes, &record.source_locator, analysis_snapshots, rules) {
        Ok(()) => {},
        Err(e) => {
            proof {
                assert(false);
            }
            return Err(e);
        },
    }
    push_field(bytes, record.promotion_actor.role_label.as_str());
    push_field(bytes, record.promotion_actor.display_label.as_str());
    proof {
        let rb = record_hash_input_spec(record@, vec_view(analysis_snapshots@), rules@)->Ok_0;
        assert(bytes@ =~= before + rb);
    }
    Ok(())
}

/// What `compute_production_snapshot_identity` returns: the tagged SHA-256 of the
/// project scope, governance boundary, projection version and active records.
pub open spec fn production_snapshot_identity_spec(
    scope: Seq<char>,
    boundary: usize,
    recs: Seq<EvidenceReusableRecordView>,
    snaps: Seq<EvidenceAnalysisSnapshotView>,
    rules: ContractRulesView,
) -> Result<Seq<char>, OracleDiagnosticV3View> {
    if !valid_label_text_spec(scope) {
        Err(
            diag(
                OracleViolationCodeV3::ChangedProjectScopeStableId,
                "project_scope.stable_id"@,
                "project scope stable id is invalid"@,
            ),
        )
    } else {
        match records_hash_input_spec(recs, snaps, rules) {
            Err(e) => Err(e),
            Ok(rb) => Ok(
                "reusable-influence-snapshot:sha256-v2:"@ + hex_spec(
                    sha256_spec(
                        encode_utf8("voxproof-reusable-influence-snapshot-identity-v2"@) + field_spec(scope)
                            + le_u64(boundary) + field_spec(REUSABLE_INFLUENCE_PROJECTION_VERSION@) + le_u64(
                            recs.len() as usize,
                        ) + rb,
                    ),
                ),
            ),
        }
    }
}

/// The identity of the reusable-influence snapshot at a governance boundary.
pub fn compute_production_snapshot_identity(
    project_scope_stable_id: &str,
    governance_event_boundary: usize,
    active_records: &Vec<EvidenceReusableRecord>,
    analysis_snapshots: &Vec<EvidenceAnalysisSnapshot>,
    rules: &ContractRules,
) -> (r: Result<String, OracleDiagnosticV3>)
    ensures
        string_result_view(r) == production_snapshot_identity_spec(
            project_scope_stable_id@,
            governance_event_boundary,
            vec_view(active_records@),
            vec_view(analysis_snapshots@),
            rules@,
        ),
        r matches Ok(id) ==> id@.len() == 102 && forall|i: int|
            38 <= i < 102 ==> crate::text::is_lower_hex_spec(#[trigger] id@[i]),
{
    if !valid_scope_text(project_scope_stable_id) {
        return Err(
            diagnostic(
                OracleViolationCodeV3::ChangedProjectScopeStableId,
                "project_scope.stable_id",
                "project scope stable id is invalid",
            ),
        );
    }
    let ghost recs = vec_view(active_records@);
    let ghost snaps = vec_view(analysis_snapshots@);
    let mut bytes: Vec<u8> = Vec::new();
    push_bytes(&mut bytes, "voxproof-reusable-influence-snapshot-identity-v2".as_bytes());
    push_field(&mut bytes, project_scope_stable_id);
    push_u64(&mut bytes, governance_event_boundary);
    push_field(&mut bytes, REUSABLE_INFLUENCE_PROJECTION_VERSION);
    push_u64(&mut bytes, active_records.len());
    let ghost head = bytes@;
    let ghost mut acc: Seq<u8> = Seq::empty();
    let mut i: usize = 0;
    proof {
        assert(recs.subrange(0, 0) =~= Seq::<EvidenceReusableRecordView>::empty());
        assert(bytes@ =~= head + acc);
    }
    while i < active_records.len()
        invariant
            i <= active_records.len(),
            recs == vec_view(active_records@),
            snaps == vec_view(analysis_snapshots@),
            records_hash_input_spec(recs.subrange(0, i as int), snaps, rules@) == Ok::<Seq<u8>, OracleDiagnosticV3View>(acc),
            bytes@ == head + acc,
            valid_label_text_spec(project_scope_stable_id@),
        decreases active_records.len() - i,
    {
        let record = &active_records[i];
        let ghost before = bytes@;
        proof {
            let sub = recs.subrange(0, i + 1);
            assert(sub.drop_last() =~= recs.subrange(0, i as int));
            assert(sub.last() == record@);
        }
        match hash_active_record(&mut bytes, record, analysis_snapshots, rules) {
            Ok(()) => {},
            Err(e) => {
                proof {
                    let sub = recs.subrange(0, i + 1);
                    assert(sub.drop_last() =~= recs.subrange(0, i as int));
                    assert(sub.last() == record@);
                    assert(record_hash_input_spec(record@, snaps, rules@) == Err::<Seq<u8>, OracleDiagnosticV3View>(e@));
                    assert(records_hash_input_spec(sub, snaps, rules@) == Err::<Seq<u8>, OracleDiagnosticV3View>(e@));
                    lemma_records_err_persists(recs, snaps, rules@, i + 1);
                }
                return Err(e);
            },
        }
        proof {
            let rb = record_hash_input_spec(record@, snaps, rules@)->Ok_0;
            acc = acc + rb;
            assert(bytes@ =~= head + acc);
        }
        i = i + 1;
    }
    proof {
        assert(recs.subrange(0, i as int) =~= recs);
    }
    let digest = sha256(bytes.as_slice());
    let mut out = String::from_str("reusable-influence-snapshot:sha256-v2:");
    push_hex(&mut out, digest.as_slice());
    proof {
        reveal_strlit("reusable-influence-snapshot:sha256-v2:");
        crate::digest::lemma_hex_digits(digest@);
        let pre = "reusable-influence-snapshot:sha256-v2:"@;
        assert(pre.len() == 38);
        assert forall|i: int| 38 <= i < 102 implies crate::text::is_lower_hex_spec(#[trigger] out@[i]) by {
            assert(out@[i] == hex_spec(digest@)[i - 38]);
        }
        assert(head =~= encode_utf8("voxproof-reusable-influence-snapshot-identity-v2"@) + field_spec(
            project_scope_stable_id@,
        ) + le_u64(governance_event_boundary) + field_spec(REUSABLE_INFLUENCE_PROJECTION_VERSION@) + le_u64(
            recs.len() as usize,
        ));
    }
    Ok(out)
}

} // verus!
