//! A verified core for a Kubernetes admission-policy evaluator.
//!
//! Policies are WebAssembly modules carrying a metadata document in a
//! custom section. The library reads and validates that metadata,
//! marshals admission requests into the guest, routes host capabilities
//! requested by the guest, and normalizes guest verdicts into admission
//! responses.

use vstd::prelude::*;

pub mod json;
pub mod policy_evaluator;
pub mod policy_metadata;
pub mod runtimes;
pub mod sigstore_verification;
pub mod validation_response;

verus! {

/// The status code of the deterministic admission rejection for a
/// request without an `object` member.
pub const CODE_BAD_REQUEST: u16 = 400;

/// The status code of rejections caused by engine or decoding failures.
pub const CODE_INTERNAL_SERVER_ERROR: u16 = 500;

} // verus!
