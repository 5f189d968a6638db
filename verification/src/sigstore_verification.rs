//! The sigstore verification capability: the argument guards and the
//! reading of a verifier's outcome.
//!
//! The Fulcio/Rekor-backed verifier itself performs network I/O and is
//! the embedder's: it is asked only after the guards here pass, and
//! whatever it answers is read back through
//! `trusted_from_verifier_outcome`. An empty key or keyless list is
//! refused before any verifier — and so before any network — is
//! touched.

use vstd::prelude::*;

verus! {

/// One keyless signer: the OIDC issuer and the certificate subject
/// that must both match a signature exactly.
#[derive(Debug, Clone, PartialEq, Eq)]
pub struct KeylessInfo {
    pub issuer: String,
    pub subject: String,
}

/// What can go wrong while establishing trust in an image.
#[derive(Debug, Clone, PartialEq, Eq)]
pub enum SigstoreError {
    /// No public key was handed in.
    NoKeys,
    /// No keyless signer was handed in.
    NoKeylessInfo,
    /// The verifier looked and was not convinced.
    VerificationFailed(String),
}

/// Guard for public-key trust: at least one PEM-encoded key must be
/// handed in before any verifier is asked.
pub fn pub_key_trust_guard(pub_keys: &Vec<String>) -> (r: Result<(), SigstoreError>)
    ensures
        r is Ok <==> pub_keys@.len() > 0,
        r is Err ==> r == Err::<(), SigstoreError>(SigstoreError::NoKeys),
{
    if pub_keys.len() == 0 {
        Err(SigstoreError::NoKeys)
    } else {
        Ok(())
    }
}

/// Guard for keyless trust: at least one issuer/subject pair must be
/// handed in before any verifier is asked.
pub fn keyless_trust_guard(keyless: &Vec<KeylessInfo>) -> (r: Result<(), SigstoreError>)
    ensures
        r is Ok <==> keyless@.len() > 0,
        r is Err ==> r == Err::<(), SigstoreError>(SigstoreError::NoKeylessInfo),
{
    if keyless.len() == 0 {
        Err(SigstoreError::NoKeylessInfo)
    } else {
        Ok(())
    }
}

/// Reads a verifier's outcome: success means the image is trusted,
/// and a failure is surfaced verbatim.
pub fn trusted_from_verifier_outcome(outcome: Result<(), String>) -> (r: Result<
    bool,
    SigstoreError,
>)
    ensures
        outcome is Ok <==> r == Ok::<bool, SigstoreError>(true),
        outcome matches Err(m) ==> r == Err::<bool, SigstoreError>(
            SigstoreError::VerificationFailed(m),
        ),
{
    match outcome {
        Ok(()) => Ok(true),
        Err(m) => Err(SigstoreError::VerificationFailed(m)),
    }
}

} // verus!
