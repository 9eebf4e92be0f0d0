//! End-to-end scenarios for the quote-verification decision procedure,
//! driving it with mocked oracle outcomes.

use sgx_dcap_quote_verifier::codes::{QvResultCode, RAW_OK, RAW_OUT_OF_DATE, RAW_REVOKED, RAW_UNSPECIFIED};
use sgx_dcap_quote_verifier::decision::TrustDecision;
use sgx_dcap_quote_verifier::pipeline::{
    plan_verification, verify_quote, OracleError, OracleResponses, OracleVerdict,
};
use sgx_dcap_quote_verifier::supplemental::{
    negotiate_supplemental_descriptor, SizeQueryReply, SupplementalPayload,
};

const EXPECTED_SIZE: u32 = 336;
const ANCHOR: i64 = 1_700_000_000;

fn quote() -> Vec<u8> {
    vec![0x03, 0x00, 0x02, 0x00, 0xAA, 0xBB]
}

fn good_size_query() -> Result<SizeQueryReply, u32> {
    Ok(SizeQueryReply { version: 0x0003_0001, size: EXPECTED_SIZE })
}

fn responses(
    size_query: Result<SizeQueryReply, u32>,
    collateral_fetch: Result<(), u32>,
    verification: Result<OracleVerdict, u32>,
) -> OracleResponses {
    OracleResponses { size_query, collateral_fetch, verification }
}

fn plain_verdict(result_code: u32, expiration: u32) -> OracleVerdict {
    OracleVerdict {
        collateral_expiration_status: expiration,
        result_code,
        supplemental: None,
    }
}

#[test]
fn scenario_a_ok_fresh_is_accepted() {
    let r = responses(good_size_query(), Ok(()), Ok(plain_verdict(RAW_OK, 0)));
    let outcome = verify_quote(&quote(), ANCHOR, EXPECTED_SIZE, &r);
    assert_eq!(outcome, Ok(TrustDecision::Accepted));
}

#[test]
fn scenario_b_revoked_is_rejected() {
    let r = responses(good_size_query(), Ok(()), Ok(plain_verdict(RAW_REVOKED, 0)));
    let outcome = verify_quote(&quote(), ANCHOR, EXPECTED_SIZE, &r);
    match outcome {
        Ok(TrustDecision::Rejected(reason)) => {
            assert_eq!(reason.code, QvResultCode::Revoked);
            assert_eq!(reason.code.name(), "REVOKED");
            assert!(!reason.collateral_expired);
        }
        other => panic!("expected a rejection, got {:?}", other),
    }
}

#[test]
fn scenario_c_out_of_date_with_expired_collateral_warns() {
    let r = responses(good_size_query(), Ok(()), Ok(plain_verdict(RAW_OUT_OF_DATE, 1)));
    let outcome = verify_quote(&quote(), ANCHOR, EXPECTED_SIZE, &r);
    match outcome {
        Ok(TrustDecision::AcceptedWithWarning(reason)) => {
            assert_eq!(reason.code, QvResultCode::OutOfDate);
            assert_eq!(reason.code.name(), "OUT_OF_DATE");
            assert!(reason.collateral_expired);
        }
        other => panic!("expected a warning, got {:?}", other),
    }
}

#[test]
fn scenario_d_fetch_failure_degrades_and_still_classifies() {
    // The fetch stage fails; the verify stage is still planned, without
    // collateral, and the oracle's rejection-class result is classified.
    let fetch: Result<(), u32> = Err(0xE011);
    let descriptor = negotiate_supplemental_descriptor(&good_size_query(), EXPECTED_SIZE);
    let request = plan_verification(&quote(), &descriptor, &fetch, ANCHOR)
        .expect("a failed fetch must not abort the call");
    assert!(!request.use_collateral);
    assert_eq!(request.collateral_error, Some(0xE011));

    let r = responses(good_size_query(), fetch, Ok(plain_verdict(RAW_UNSPECIFIED, 1)));
    let outcome = verify_quote(&quote(), ANCHOR, EXPECTED_SIZE, &r);
    match outcome {
        Ok(TrustDecision::Rejected(reason)) => {
            assert_eq!(reason.code, QvResultCode::Unspecified);
        }
        other => panic!("expected a rejection, got {:?}", other),
    }
}

#[test]
fn empty_quote_is_refused_before_the_oracle() {
    let r = responses(good_size_query(), Ok(()), Ok(plain_verdict(RAW_OK, 0)));
    let outcome = verify_quote(&Vec::new(), ANCHOR, EXPECTED_SIZE, &r);
    assert_eq!(outcome, Err(OracleError::EmptyQuote));
}

#[test]
fn verify_call_failure_is_fatal_and_distinct_from_rejection() {
    let r = responses(good_size_query(), Ok(()), Err(0xE002));
    let outcome = verify_quote(&quote(), ANCHOR, EXPECTED_SIZE, &r);
    assert_eq!(outcome, Err(OracleError::VerifyCall(0xE002)));
}

#[test]
fn size_mismatch_keeps_supplemental_out_of_the_result() {
    // The oracle offers a different supplemental size than this build
    // expects: the descriptor stays inactive and the filled payload, even
    // if the mock hands one back, never reaches the decision.
    let skewed = Ok(SizeQueryReply { version: 0x0003_0001, size: EXPECTED_SIZE + 8 });
    let descriptor = negotiate_supplemental_descriptor(&skewed, EXPECTED_SIZE);
    assert!(!descriptor.active());

    let verdict = OracleVerdict {
        collateral_expiration_status: 0,
        result_code: RAW_OUT_OF_DATE,
        supplemental: Some(SupplementalPayload {
            major_version: 3,
            minor_version: 1,
            advisories: String::from("INTEL-SA-00586"),
        }),
    };
    let r = responses(skewed, Ok(()), Ok(verdict));
    let outcome = verify_quote(&quote(), ANCHOR, EXPECTED_SIZE, &r);
    match outcome {
        Ok(TrustDecision::AcceptedWithWarning(reason)) => {
            assert!(reason.supplemental.is_none());
        }
        other => panic!("expected a warning, got {:?}", other),
    }
}

#[test]
fn matched_size_attaches_supplemental_and_advisories() {
    let verdict = OracleVerdict {
        collateral_expiration_status: 0,
        result_code: RAW_OUT_OF_DATE,
        supplemental: Some(SupplementalPayload {
            major_version: 3,
            minor_version: 1,
            advisories: String::from("INTEL-SA-00586,INTEL-SA-00615"),
        }),
    };
    let r = responses(good_size_query(), Ok(()), Ok(verdict));
    let outcome = verify_quote(&quote(), ANCHOR, EXPECTED_SIZE, &r);
    match outcome {
        Ok(TrustDecision::AcceptedWithWarning(reason)) => {
            let info = reason.supplemental.expect("supplemental data was active");
            assert_eq!(info.major_version, 3);
            assert_eq!(info.minor_version, 1);
            assert_eq!(
                info.advisory_ids,
                vec![String::from("INTEL-SA-00586"), String::from("INTEL-SA-00615")]
            );
        }
        other => panic!("expected a warning, got {:?}", other),
    }
}

#[test]
fn size_query_failure_degrades_and_still_completes() {
    // A failed size negotiation is recorded, never propagated: the
    // verification runs without supplemental data and still classifies.
    let failed_query: Result<SizeQueryReply, u32> = Err(0xE001);
    let descriptor = negotiate_supplemental_descriptor(&failed_query, EXPECTED_SIZE);
    assert!(!descriptor.active());
    assert_eq!(descriptor.query_error, Some(0xE001));

    let r = responses(failed_query, Ok(()), Ok(plain_verdict(RAW_OK, 0)));
    let outcome = verify_quote(&quote(), ANCHOR, EXPECTED_SIZE, &r);
    assert_eq!(outcome, Ok(TrustDecision::Accepted));
}

#[test]
fn same_inputs_give_the_same_decision() {
    let make = || {
        responses(
            good_size_query(),
            Ok(()),
            Ok(OracleVerdict {
                collateral_expiration_status: 1,
                result_code: RAW_OUT_OF_DATE,
                supplemental: Some(SupplementalPayload {
                    major_version: 3,
                    minor_version: 1,
                    advisories: String::from("INTEL-SA-00586"),
                }),
            }),
        )
    };
    let first = verify_quote(&quote(), ANCHOR, EXPECTED_SIZE, &make());
    let second = verify_quote(&quote(), ANCHOR, EXPECTED_SIZE, &make());
    assert_eq!(first, second);
}

#[test]
fn decision_ignores_the_anchor_time_once_outcomes_are_fixed() {
    // The anchor time shapes the oracle's outcomes; given those outcomes,
    // the decision is a function of them alone.
    let r = responses(good_size_query(), Ok(()), Ok(plain_verdict(RAW_OK, 0)));
    let early = verify_quote(&quote(), 0, EXPECTED_SIZE, &r);
    let late = verify_quote(&quote(), i64::MAX, EXPECTED_SIZE, &r);
    assert_eq!(early, late);
}
