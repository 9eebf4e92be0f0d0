//! Decision core for SGX/TDX DCAP quote verification.
//!
//! A raw attestation quote is an opaque byte blob; whether it is trustworthy
//! is decided by a fixed protocol: negotiate the supplemental-data schema
//! with the verification oracle, fetch collateral for the quote's issuer,
//! invoke the oracle with a trust-anchor time, and classify the multi-valued
//! result into a three-tier trust decision. This crate holds that protocol
//! as verified, pure decision functions; the oracle and collateral calls
//! themselves are performed by the embedding adapter, which feeds their
//! outcomes back in as plain values.

pub mod codes;
pub mod decision;
pub mod pipeline;
pub mod service;
pub mod supplemental;
