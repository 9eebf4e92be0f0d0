//! The quote-verification decision procedure.
//!
//! One verification call is a strictly ordered, stateless protocol:
//! negotiate the supplemental-data descriptor, fetch collateral, invoke the
//! verification oracle with a trust-anchor time, classify the result. The
//! oracle and the collateral service are external; the adapter performs
//! their calls and hands the outcomes back as plain values, and every
//! decision taken over those outcomes is made — and verified — here.

use vstd::prelude::*;

use crate::codes::{spec_code_of_raw, QvResultCode};
use crate::decision::{
    classify, spec_classify, TrustDecision, TrustDecisionView, VerificationResult,
    VerificationResultView,
};
use crate::supplemental::{
    extract_supplemental_info, negotiate_supplemental_descriptor, spec_extract_supplemental,
    spec_negotiate, SizeQueryReply, SupplementalDataDescriptor, SupplementalPayload,
    SupplementalPayloadView,
};

verus! {

/// A fatal error of one verification call, distinct by construction from a
/// `Rejected` decision: "could not verify" is never conflated with
/// "verified and failed".
#[derive(Clone, Copy, Debug, PartialEq, Eq, Structural)]
pub enum OracleError {
    /// The quote buffer was empty; nothing was handed to the oracle.
    EmptyQuote,
    /// The oracle's verify call itself failed with this code, as opposed to
    /// returning a rejection-class result.
    VerifyCall(u32),
}

/// What the oracle's verify call reported: the collateral-expiration flag,
/// the raw result code, and the supplemental payload when a buffer was
/// handed in and filled.
#[derive(Debug, PartialEq, Eq)]
pub struct OracleVerdict {
    /// Nonzero when the collateral had expired at the trust-anchor time.
    pub collateral_expiration_status: u32,
    /// The raw verification result code, as the oracle reports it.
    pub result_code: u32,
    /// The filled supplemental payload, when one was requested.
    pub supplemental: Option<SupplementalPayload>,
}

/// Mathematical model of an [`OracleVerdict`].
pub struct OracleVerdictView {
    /// Nonzero when the collateral had expired at the trust-anchor time.
    pub collateral_expiration_status: u32,
    /// The raw verification result code, as the oracle reports it.
    pub result_code: u32,
    /// The filled supplemental payload, when one was requested.
    pub supplemental: Option<SupplementalPayloadView>,
}

impl View for OracleVerdict {
    type V = OracleVerdictView;

    open spec fn view(&self) -> OracleVerdictView {
        OracleVerdictView {
            collateral_expiration_status: self.collateral_expiration_status,
            result_code: self.result_code,
            supplemental: match self.supplemental {
                Some(p) => Some(p@),
                None => None,
            },
        }
    }
}

/// The outcomes of the three external calls one verification makes, in
/// protocol order: the supplemental-size query, the collateral fetch, and
/// the verify call. The adapter performs the calls; the decision procedure
/// consumes their outcomes as values, so the decision is a function of them
/// and of nothing else.
#[derive(Debug, PartialEq, Eq)]
pub struct OracleResponses {
    /// Outcome of the supplemental-data size query.
    pub size_query: Result<SizeQueryReply, u32>,
    /// Outcome of the collateral fetch; the collateral itself stays with
    /// the adapter, only success or failure matters to the decision.
    pub collateral_fetch: Result<(), u32>,
    /// Outcome of the verify call itself.
    pub verification: Result<OracleVerdict, u32>,
}

/// Mathematical model of the [`OracleResponses`].
pub struct OracleResponsesView {
    /// Outcome of the supplemental-data size query.
    pub size_query: Result<SizeQueryReply, u32>,
    /// Outcome of the collateral fetch.
    pub collateral_fetch: Result<(), u32>,
    /// Outcome of the verify call itself.
    pub verification: Result<OracleVerdictView, u32>,
}

impl View for OracleResponses {
    type V = OracleResponsesView;

    open spec fn view(&self) -> OracleResponsesView {
        OracleResponsesView {
            size_query: self.size_query,
            collateral_fetch: self.collateral_fetch,
            verification: match self.verification {
                Result::Ok(v) => Result::Ok(v@),
                Result::Err(e) => Result::Err(e),
            },
        }
    }
}

/// What one verify call hands the oracle: whether to pass the fetched
/// collateral, whether to pass a supplemental buffer and how large, and the
/// trust-anchor time for the freshness checks. A fetch failure is recorded
/// here as an advisory and degrades the request, never aborts it.
#[derive(Clone, Copy, Debug, PartialEq, Eq, Structural)]
pub struct VerifyRequest {
    /// Whether the fetched collateral is handed to the oracle.
    pub use_collateral: bool,
    /// Whether a supplemental buffer is handed to the oracle.
    pub request_supplemental: bool,
    /// Size of the supplemental buffer to hand over; zero when none.
    pub supplemental_size: u32,
    /// The Unix timestamp the oracle evaluates collateral freshness at.
    pub anchor_time: i64,
    /// The fetch stage's error code when collateral could not be fetched.
    pub collateral_error: Option<u32>,
}

/// The request [`plan_verification`] builds from the stage outcomes.
pub open spec fn spec_plan(
    descriptor: SupplementalDataDescriptor,
    collateral_fetch: Result<(), u32>,
    anchor_time: i64,
) -> VerifyRequest {
    VerifyRequest {
        use_collateral: collateral_fetch is Ok,
        request_supplemental: descriptor.is_active(),
        supplemental_size: descriptor.data_size,
        anchor_time,
        collateral_error: match collateral_fetch {
            Result::Ok(_) => None,
            Result::Err(e) => Some(e),
        },
    }
}

/// Plans the oracle's verify call from what the earlier stages produced.
///
/// An empty quote is the one fatal condition: it is rejected here, before
/// anything reaches the oracle. Collateral is passed exactly when the fetch
/// succeeded — a failed fetch degrades the request and is recorded, because
/// the oracle, not the fetch stage, is the authority on whether missing
/// collateral is fatal. A supplemental buffer is requested exactly when the
/// negotiated descriptor is active.
pub fn plan_verification(
    quote: &Vec<u8>,
    descriptor: &SupplementalDataDescriptor,
    collateral_fetch: &Result<(), u32>,
    anchor_time: i64,
) -> (request: Result<VerifyRequest, OracleError>)
    ensures
        request is Err <==> quote@.len() == 0,
        request matches Err(e) ==> e == OracleError::EmptyQuote,
        request matches Ok(req) ==> req == spec_plan(*descriptor, *collateral_fetch, anchor_time),
{
    if quote.len() == 0 {
        return Result::Err(OracleError::EmptyQuote);
    }
    Result::Ok(
        VerifyRequest {
            use_collateral: collateral_fetch.is_ok(),
            request_supplemental: descriptor.active(),
            supplemental_size: descriptor.data_size,
            anchor_time,
            collateral_error: match *collateral_fetch {
                Result::Ok(_) => None,
                Result::Err(e) => Some(e),
            },
        },
    )
}

/// The verification result an oracle verdict amounts to: its raw code as a
/// [`QvResultCode`], and its supplemental payload only when a buffer was
/// active — an inactive descriptor means no supplemental data, whatever the
/// verdict carries.
pub open spec fn spec_interpret(v: OracleVerdictView, buffer_active: bool) -> VerificationResultView {
    VerificationResultView {
        collateral_expiration_status: v.collateral_expiration_status,
        result_code: spec_code_of_raw(v.result_code),
        supplemental: if buffer_active {
            match v.supplemental {
                Some(p) => Some(spec_extract_supplemental(p)),
                None => None,
            }
        } else {
            None
        },
    }
}

/// Reads the oracle's verdict into a [`VerificationResult`], decoding the
/// raw code and distilling the supplemental payload when — and only when —
/// the negotiated descriptor requested a buffer.
pub fn interpret_verdict(
    verdict: &OracleVerdict,
    descriptor: &SupplementalDataDescriptor,
) -> (result: VerificationResult)
    ensures
        result@ == spec_interpret(verdict@, descriptor.is_active()),
        !descriptor.is_active() ==> result.supplemental is None,
{
    let supplemental = if descriptor.active() {
        match &verdict.supplemental {
            Some(payload) => Some(extract_supplemental_info(payload)),
            None => None,
        }
    } else {
        None
    };
    VerificationResult {
        collateral_expiration_status: verdict.collateral_expiration_status,
        result_code: QvResultCode::from_raw(verdict.result_code),
        supplemental,
    }
}

/// The decision the whole procedure reaches for a quote, given the outcomes
/// of the three external calls. An empty quote and a failed verify call are
/// the two fatal errors; every other path ends in a classified decision.
/// The trust-anchor time is handed to the oracle and shapes its outcomes,
/// but given those outcomes the decision is a function of nothing else.
pub open spec fn spec_verify_quote(
    quote: Seq<u8>,
    expected_supp_size: u32,
    responses: OracleResponsesView,
) -> Result<TrustDecisionView, OracleError> {
    if quote.len() == 0 {
        Result::Err(OracleError::EmptyQuote)
    } else {
        match responses.verification {
            Result::Err(e) => Result::Err(OracleError::VerifyCall(e)),
            Result::Ok(v) => {
                let descriptor = spec_negotiate(responses.size_query, expected_supp_size);
                Result::Ok(spec_classify(spec_interpret(v, descriptor.is_active())))
            },
        }
    }
}

/// Decides the trust status of a quote from the outcomes of the external
/// calls one verification made.
///
/// The stages run in protocol order: the supplemental descriptor is
/// negotiated against `expected_supp_size`, the verify call is planned —
/// an empty quote is refused here, before the oracle boundary — and the
/// verdict is interpreted and classified. A failed size query or collateral
/// fetch degrades the call and is recorded in the plan; only an empty quote
/// or a failure of the verify call itself is fatal, and each is reported as
/// an [`OracleError`], never as a rejection and never as an acceptance.
pub fn verify_quote(
    quote: &Vec<u8>,
    anchor_time: i64,
    expected_supp_size: u32,
    responses: &OracleResponses,
) -> (outcome: Result<TrustDecision, OracleError>)
    ensures
        match outcome {
            Result::Ok(decision) => spec_verify_quote(quote@, expected_supp_size, responses@)
                == Result::Ok::<TrustDecisionView, OracleError>(decision@),
            Result::Err(e) => spec_verify_quote(quote@, expected_supp_size, responses@)
                == Result::Err::<TrustDecisionView, OracleError>(e),
        },
        outcome is Err <==> (quote@.len() == 0 || responses.verification is Err),
        quote@.len() == 0 ==> (outcome matches Err(e) && e == OracleError::EmptyQuote),
{
    let descriptor = negotiate_supplemental_descriptor(&responses.size_query, expected_supp_size);
    let request = plan_verification(quote, &descriptor, &responses.collateral_fetch, anchor_time);
    match request {
        Result::Err(e) => Result::Err(e),
        Result::Ok(_planned) => match &responses.verification {
            Result::Err(e) => Result::Err(OracleError::VerifyCall(*e)),
            Result::Ok(verdict) => {
                let result = interpret_verdict(verdict, &descriptor);
                Result::Ok(classify(result))
            },
        },
    }
}

/// A verification outcome is exactly one of the four: accepted, accepted
/// with a warning, rejected, or a fatal oracle error — the tiers never
/// overlap. Together with the contract of [`verify_quote`], whose result
/// always equals [`spec_verify_quote`] of its inputs, every call lands in
/// exactly one of them.
pub proof fn lemma_outcome_exactly_one(outcome: Result<TrustDecisionView, OracleError>)
    ensures
        outcome is Err <==> !(outcome is Ok),
        outcome matches Ok(d) ==> (d is Accepted <==> !(d is AcceptedWithWarning
            || d is Rejected)),
        outcome matches Ok(d) ==> !(d is AcceptedWithWarning && d is Rejected),
{
}

/// Idempotence of the decision procedure: two verifications of the same
/// quote bytes against the same oracle outcomes reach the same decision.
/// Any two results that meet [`verify_quote`]'s contract on equal inputs
/// are equal.
pub proof fn lemma_verify_quote_deterministic(
    quote: Seq<u8>,
    expected_supp_size: u32,
    responses: OracleResponsesView,
    first: Result<TrustDecisionView, OracleError>,
    second: Result<TrustDecisionView, OracleError>,
)
    requires
        first == spec_verify_quote(quote, expected_supp_size, responses),
        second == spec_verify_quote(quote, expected_supp_size, responses),
    ensures
        first == second,
{
}

/// The size-mismatch guard: when the oracle's size query reports a size
/// other than the one this build expects, the descriptor stays inactive,
/// the verification still completes, and the result it classifies carries
/// no supplemental data.
pub proof fn lemma_size_mismatch_no_supplemental(
    quote: Seq<u8>,
    expected_supp_size: u32,
    responses: OracleResponsesView,
)
    requires
        quote.len() > 0,
        responses.size_query matches Ok(q) && q.size != expected_supp_size,
        responses.verification is Ok,
    ensures
        !spec_negotiate(responses.size_query, expected_supp_size).is_active(),
        spec_verify_quote(quote, expected_supp_size, responses) is Ok,
        spec_interpret(
            responses.verification->Ok_0,
            spec_negotiate(responses.size_query, expected_supp_size).is_active(),
        ).supplemental is None,
{
}

/// A failed collateral fetch never aborts the call: the request handed to
/// the oracle simply carries no collateral, the failure is recorded in the
/// request, and the procedure can still only fail for the two fatal
/// reasons — an empty quote (excluded here) or a failed verify call.
pub proof fn lemma_fetch_failure_degrades(
    quote: Seq<u8>,
    expected_supp_size: u32,
    responses: OracleResponsesView,
    anchor_time: i64,
    fetch_error: u32,
)
    requires
        quote.len() > 0,
        responses.collateral_fetch == Result::Err::<(), u32>(fetch_error),
    ensures
        spec_verify_quote(quote, expected_supp_size, responses) is Err
            ==> responses.verification is Err,
        !spec_plan(
            spec_negotiate(responses.size_query, expected_supp_size),
            responses.collateral_fetch,
            anchor_time,
        ).use_collateral,
        spec_plan(
            spec_negotiate(responses.size_query, expected_supp_size),
            responses.collateral_fetch,
            anchor_time,
        ).collateral_error == Some(fetch_error),
{
}

} // verus!
