//! Verification of DCAP remote-attestation quotes: binary quote parsing,
//! certificate-chain and revocation checking, TCB status evaluation against
//! published collateral, convergence of the platform and QE trust signals,
//! and a fixed-width wire encoding of the verified result.
use vstd::prelude::*;

pub mod status;
pub mod output;
pub mod tcb;
pub mod qe;
pub mod collateral;
pub mod cert;
pub mod quote;
pub mod der;
pub mod verify;

verus! {

/// Every failure a verification can surface, as a typed value; no path
/// panics on untrusted input.
#[derive(Clone, Copy, Debug, PartialEq, Eq, Structural)]
pub enum Error {
    /// The quote declares a format version other than the expected one.
    UnsupportedVersion,
    /// A declared length reaches past the end of the input buffer.
    TruncatedInput,
    /// The quote is structurally inconsistent (e.g. body kind vs. header).
    MalformedQuote,
    /// A collateral slot required for this quote kind is not set.
    MissingCollateral,
    /// A certificate chain link is broken or a certificate cannot be read.
    CertChainInvalid,
    /// A certificate's validity window ended before the verification time.
    CertExpired,
    /// A certificate's validity window starts after the verification time.
    CertNotYetValid,
    /// A chain certificate's serial number appears on a revocation list.
    CertRevoked,
    /// An ECDSA signature did not verify.
    SignatureInvalid,
    /// The platform TCB level is explicitly revoked.
    TcbRevoked,
    /// No TCB level in the collateral matches the platform's versions.
    TcbEvaluationFailed,
    /// The QE report's identity differs from the enclave-identity collateral.
    QeIdentityMismatch,
    /// A wire-encoded verified output is not decodable.
    InvalidEncoding,
}

} // verus!
