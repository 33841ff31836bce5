//! The TCB status enumeration, its severity order, and the rule that merges
//! the platform status with the quoting enclave's status.
use vstd::prelude::*;

verus! {

/// Trust status of a TCB level, ordered from fully trusted to untrusted.
#[derive(Clone, Copy, Debug, PartialEq, Eq, Structural)]
pub enum TcbStatus {
    OK,
    TcbSwHardeningNeeded,
    TcbConfigurationAndSwHardeningNeeded,
    TcbConfigurationNeeded,
    TcbOutOfDate,
    TcbOutOfDateConfigurationNeeded,
    TcbRevoked,
    TcbUnrecognized,
}

/// Severity rank of a status; larger means less trustworthy. This is also
/// the byte each status is encoded as on the wire.
pub open spec fn severity(s: TcbStatus) -> int {
    match s {
        TcbStatus::OK => 0,
        TcbStatus::TcbSwHardeningNeeded => 1,
        TcbStatus::TcbConfigurationAndSwHardeningNeeded => 2,
        TcbStatus::TcbConfigurationNeeded => 3,
        TcbStatus::TcbOutOfDate => 4,
        TcbStatus::TcbOutOfDateConfigurationNeeded => 5,
        TcbStatus::TcbRevoked => 6,
        TcbStatus::TcbUnrecognized => 7,
    }
}

/// The merged status: the more severe of the two, so an unrecognized input
/// (the maximum severity) is absorbing.
pub open spec fn spec_converge(tcb: TcbStatus, qe: TcbStatus) -> TcbStatus {
    if severity(qe) >= severity(tcb) {
        qe
    } else {
        tcb
    }
}

/// Severity rank of a status as a machine integer.
pub fn status_rank(s: TcbStatus) -> (r: u8)
    ensures
        r as int == severity(s),
{
    match s {
        TcbStatus::OK => 0,
        TcbStatus::TcbSwHardeningNeeded => 1,
        TcbStatus::TcbConfigurationAndSwHardeningNeeded => 2,
        TcbStatus::TcbConfigurationNeeded => 3,
        TcbStatus::TcbOutOfDate => 4,
        TcbStatus::TcbOutOfDateConfigurationNeeded => 5,
        TcbStatus::TcbRevoked => 6,
        TcbStatus::TcbUnrecognized => 7,
    }
}

/// Combine the platform TCB status with the QE's own TCB status: the final
/// status is the more severe of the two.
pub fn converge_tcb_status_with_qe_tcb(tcb_status: TcbStatus, qe_tcb_status: TcbStatus) -> (r: TcbStatus)
    ensures
        r == spec_converge(tcb_status, qe_tcb_status),
{
    if status_rank(qe_tcb_status) >= status_rank(tcb_status) {
        qe_tcb_status
    } else {
        tcb_status
    }
}

/// Convergence is a weakest-link rule: for any pair of non-revoked inputs
/// the merged status is at least as severe as each input, and an
/// unrecognized QE status always forces an unrecognized result.
pub proof fn lemma_converge_monotone(tcb: TcbStatus, qe: TcbStatus)
    requires
        tcb != TcbStatus::TcbRevoked,
        qe != TcbStatus::TcbRevoked,
    ensures
        severity(spec_converge(tcb, qe)) >= severity(tcb),
        severity(spec_converge(tcb, qe)) >= severity(qe),
        spec_converge(tcb, TcbStatus::TcbUnrecognized) == TcbStatus::TcbUnrecognized,
{
}

} // verus!
