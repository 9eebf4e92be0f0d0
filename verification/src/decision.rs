//! Classification of a verification result into a trust decision.
//!
//! The oracle's result space mixes hard cryptographic failures with
//! freshness and policy conditions. The classifier keeps them apart in a
//! three-tier decision — accepted, accepted with a warning, rejected — so
//! that callers can apply their own admission policy. The table is
//! exhaustive and fail-closed: an unrecognized code is rejected, never
//! accepted by default.

use vstd::prelude::*;

use crate::codes::QvResultCode;
use crate::supplemental::{SupplementalInfo, SupplementalInfoView};

verus! {

/// The terminal artifact of one oracle verification call: whether the
/// collateral had expired at the trust-anchor time, the verification
/// result code, and the supplemental fields when a buffer was requested
/// and filled. Never mutated after construction.
#[derive(Debug, PartialEq, Eq)]
pub struct VerificationResult {
    /// Nonzero when the collateral had expired at the trust-anchor time.
    pub collateral_expiration_status: u32,
    /// The oracle's verification result code.
    pub result_code: QvResultCode,
    /// The supplemental fields, present only when a supplemental buffer was
    /// requested from and filled by the oracle.
    pub supplemental: Option<SupplementalInfo>,
}

/// Mathematical model of a [`VerificationResult`].
pub struct VerificationResultView {
    /// Nonzero when the collateral had expired at the trust-anchor time.
    pub collateral_expiration_status: u32,
    /// The oracle's verification result code.
    pub result_code: QvResultCode,
    /// The supplemental fields, when a buffer was requested and filled.
    pub supplemental: Option<SupplementalInfoView>,
}

impl View for VerificationResult {
    type V = VerificationResultView;

    open spec fn view(&self) -> VerificationResultView {
        VerificationResultView {
            collateral_expiration_status: self.collateral_expiration_status,
            result_code: self.result_code,
            supplemental: match self.supplemental {
                Some(info) => Some(info@),
                None => None,
            },
        }
    }
}

/// Why a decision warns or rejects, kept for reporting and audit: the
/// result code, whether the collateral had expired, and the supplemental
/// fields when any were filled.
#[derive(Debug, PartialEq, Eq)]
pub struct DecisionReason {
    /// The verification result code behind the decision.
    pub code: QvResultCode,
    /// Whether the collateral had expired at the trust-anchor time.
    pub collateral_expired: bool,
    /// The supplemental fields, attached for audit when present.
    pub supplemental: Option<SupplementalInfo>,
}

/// Mathematical model of a [`DecisionReason`].
pub struct DecisionReasonView {
    /// The verification result code behind the decision.
    pub code: QvResultCode,
    /// Whether the collateral had expired at the trust-anchor time.
    pub collateral_expired: bool,
    /// The supplemental fields, when any were filled.
    pub supplemental: Option<SupplementalInfoView>,
}

impl View for DecisionReason {
    type V = DecisionReasonView;

    open spec fn view(&self) -> DecisionReasonView {
        DecisionReasonView {
            code: self.code,
            collateral_expired: self.collateral_expired,
            supplemental: match self.supplemental {
                Some(info) => Some(info@),
                None => None,
            },
        }
    }
}

/// The three-tier trust decision: the caller's admission policy needs the
/// distinction between a clean pass, a policy-dependent warning, and a
/// rejection — never a collapsed boolean.
#[derive(Debug, PartialEq, Eq)]
pub enum TrustDecision {
    /// The quote verified cleanly against fresh collateral.
    Accepted,
    /// The quote verified, but under a non-terminal condition the caller's
    /// policy must weigh: expired collateral, an out-of-date TCB, or a
    /// needed configuration or hardening change.
    AcceptedWithWarning(DecisionReason),
    /// The quote failed verification terminally: an invalid signature, a
    /// revocation, an unspecified failure, or an unrecognized result code.
    Rejected(DecisionReason),
}

/// Mathematical model of a [`TrustDecision`].
pub enum TrustDecisionView {
    /// The quote verified cleanly against fresh collateral.
    Accepted,
    /// The quote verified under a non-terminal, policy-dependent condition.
    AcceptedWithWarning(DecisionReasonView),
    /// The quote failed verification terminally.
    Rejected(DecisionReasonView),
}

impl View for TrustDecision {
    type V = TrustDecisionView;

    open spec fn view(&self) -> TrustDecisionView {
        match self {
            TrustDecision::Accepted => TrustDecisionView::Accepted,
            TrustDecision::AcceptedWithWarning(reason) => TrustDecisionView::AcceptedWithWarning(
                reason@,
            ),
            TrustDecision::Rejected(reason) => TrustDecisionView::Rejected(reason@),
        }
    }
}

/// The reason a classification records for a result.
pub open spec fn spec_reason_of(r: VerificationResultView) -> DecisionReasonView {
    DecisionReasonView {
        code: r.result_code,
        collateral_expired: r.collateral_expiration_status != 0,
        supplemental: r.supplemental,
    }
}

/// The classification table. Exhaustive over every code and expiration
/// status, with no fallthrough to an accept: a clean pass against fresh
/// collateral is accepted; a clean pass against expired collateral and
/// every non-terminal condition warn; everything else — including any
/// unrecognized code — is rejected.
pub open spec fn spec_classify(r: VerificationResultView) -> TrustDecisionView {
    if r.result_code is Passed && r.collateral_expiration_status == 0 {
        TrustDecisionView::Accepted
    } else if r.result_code is Passed || r.result_code.is_warning() {
        TrustDecisionView::AcceptedWithWarning(spec_reason_of(r))
    } else {
        TrustDecisionView::Rejected(spec_reason_of(r))
    }
}

/// Classifies a verification result into the three-tier trust decision,
/// following the classification table exactly; the reason attached to a
/// warning or rejection carries the code, the expiration flag and the
/// supplemental fields for audit.
pub fn classify(result: VerificationResult) -> (decision: TrustDecision)
    ensures
        decision@ == spec_classify(result@),
        decision is Accepted <==> (result.result_code is Passed
            && result.collateral_expiration_status == 0),
        decision is Rejected <==> result.result_code.is_terminal(),
{
    let expired = result.collateral_expiration_status != 0;
    match result.result_code {
        QvResultCode::Passed => {
            if !expired {
                TrustDecision::Accepted
            } else {
                TrustDecision::AcceptedWithWarning(DecisionReason {
                    code: result.result_code,
                    collateral_expired: expired,
                    supplemental: result.supplemental,
                })
            }
        },
        QvResultCode::ConfigNeeded
        | QvResultCode::OutOfDate
        | QvResultCode::OutOfDateConfigNeeded
        | QvResultCode::SwHardeningNeeded
        | QvResultCode::ConfigAndSwHardeningNeeded => TrustDecision::AcceptedWithWarning(
            DecisionReason {
                code: result.result_code,
                collateral_expired: expired,
                supplemental: result.supplemental,
            },
        ),
        QvResultCode::InvalidSignature
        | QvResultCode::Revoked
        | QvResultCode::Unspecified
        | QvResultCode::Unrecognized(_) => TrustDecision::Rejected(DecisionReason {
            code: result.result_code,
            collateral_expired: expired,
            supplemental: result.supplemental,
        }),
    }
}

impl TrustDecision {
    /// The tier's name, for reports.
    pub fn verdict_name(&self) -> (name: &'static str)
        ensures
            *self is Accepted ==> name@ == "Accepted"@,
            *self is AcceptedWithWarning ==> name@ == "AcceptedWithWarning"@,
            *self is Rejected ==> name@ == "Rejected"@,
    {
        match *self {
            TrustDecision::Accepted => "Accepted",
            TrustDecision::AcceptedWithWarning(_) => "AcceptedWithWarning",
            TrustDecision::Rejected(_) => "Rejected",
        }
    }

    /// The reason behind a warning or rejection; a clean accept has none.
    pub fn reason(&self) -> (reason: Option<&DecisionReason>)
        ensures
            match *self {
                TrustDecision::Accepted => reason is None,
                TrustDecision::AcceptedWithWarning(r) => reason == Some(&r),
                TrustDecision::Rejected(r) => reason == Some(&r),
            },
    {
        match self {
            TrustDecision::Accepted => None,
            TrustDecision::AcceptedWithWarning(reason) => Some(reason),
            TrustDecision::Rejected(reason) => Some(reason),
        }
    }
}

/// Every classification lands in exactly one tier, and the tier follows the
/// result code and expiration status alone: a clean pass against fresh
/// collateral is accepted, a terminal code is rejected, everything in
/// between warns.
pub proof fn lemma_classification_exclusive(r: VerificationResultView)
    ensures
        spec_classify(r) is Accepted <==> (r.result_code is Passed
            && r.collateral_expiration_status == 0),
        spec_classify(r) is Rejected <==> r.result_code.is_terminal(),
        spec_classify(r) is AcceptedWithWarning <==> ((r.result_code is Passed
            && r.collateral_expiration_status != 0) || r.result_code.is_warning()),
{
}

/// The classifier fails closed: a result code outside the documented nine
/// is always rejected, whatever the expiration status says.
pub proof fn lemma_unrecognized_rejected(r: VerificationResultView)
    requires
        r.result_code is Unrecognized,
    ensures
        spec_classify(r) is Rejected,
{
}

} // verus!
