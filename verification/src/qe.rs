//! Enclave-identity collateral and the evaluation of the quoting enclave's
//! own report against it.
use vstd::prelude::*;

use crate::status::TcbStatus;
use crate::Error;

verus! {

/// One TCB level of the enclave identity, keyed by a single security
/// version number.
#[derive(Debug)]
pub struct QeTcbLevel {
    pub isvsvn: u16,
    pub tcb_status: TcbStatus,
}

/// Enclave-identity collateral: the expected signer measurement and product
/// identifier of the quoting enclave, and its TCB levels ordered from
/// strictest to most permissive.
#[derive(Debug)]
pub struct EnclaveIdentityV2 {
    pub mrsigner: Vec<u8>,
    pub isvprodid: u16,
    pub tcb_levels: Vec<QeTcbLevel>,
}

impl EnclaveIdentityV2 {
    /// The signer measurement is 32 bytes.
    pub open spec fn wf(self) -> bool {
        self.mrsigner@.len() == 32
    }
}

/// Index of the first level whose minimum version the reported version
/// reaches; the sequence length when there is none.
pub open spec fn qe_match_index(levels: Seq<QeTcbLevel>, isvsvn: u16) -> int
    decreases levels.len(),
{
    if levels.len() == 0 {
        0
    } else if isvsvn >= levels[0].isvsvn {
        0
    } else {
        1 + qe_match_index(levels.drop_first(), isvsvn)
    }
}

/// The QE status derived from the levels: the first matched level's status,
/// or unrecognized when no level matches.
pub open spec fn spec_qe_status(levels: Seq<QeTcbLevel>, isvsvn: u16) -> TcbStatus {
    if qe_match_index(levels, isvsvn) < levels.len() {
        levels[qe_match_index(levels, isvsvn)].tcb_status
    } else {
        TcbStatus::TcbUnrecognized
    }
}

/// Evaluate the quoting enclave's report against the identity collateral:
/// a differing signer measurement or product identifier is rejected as
/// `QeIdentityMismatch`; otherwise the first level whose minimum version
/// the report reaches decides the QE status, and a report below every
/// level is unrecognized.
pub fn evaluate_qe_identity(
    identity: &EnclaveIdentityV2,
    qe_mrsigner: &Vec<u8>,
    qe_isvprodid: u16,
    qe_isvsvn: u16,
) -> (r: Result<TcbStatus, Error>)
    requires
        identity.wf(),
    ensures
        r is Ok <==> (qe_mrsigner@ == identity.mrsigner@ && qe_isvprodid == identity.isvprodid),
        r matches Ok(st) ==> st == spec_qe_status(identity.tcb_levels@, qe_isvsvn),
        r matches Err(e) ==> e == Error::QeIdentityMismatch,
{
    if !bytes_equal(qe_mrsigner, &identity.mrsigner) {
        return Err(Error::QeIdentityMismatch);
    }
    if qe_isvprodid != identity.isvprodid {
        return Err(Error::QeIdentityMismatch);
    }
    proof {
        lemma_qe_match_index(identity.tcb_levels@, qe_isvsvn);
    }
    let levels_len = identity.tcb_levels.len();
    let mut i: usize = 0;
    while i < levels_len
        invariant
            levels_len == identity.tcb_levels@.len(),
            i <= levels_len,
            qe_mrsigner@ == identity.mrsigner@,
            qe_isvprodid == identity.isvprodid,
            qe_match_index(identity.tcb_levels@, qe_isvsvn) >= i,
        decreases levels_len - i,
    {
        if qe_isvsvn >= identity.tcb_levels[i].isvsvn {
            proof {
                lemma_qe_match_index_stops(identity.tcb_levels@, qe_isvsvn, i as int);
            }
            return Ok(identity.tcb_levels[i].tcb_status);
        }
        proof {
            lemma_qe_match_index_skips(identity.tcb_levels@, qe_isvsvn, i as int);
        }
        i += 1;
    }
    Ok(TcbStatus::TcbUnrecognized)
}

/// Byte-for-byte equality of two buffers.
pub(crate) fn bytes_equal(a: &Vec<u8>, b: &Vec<u8>) -> (r: bool)
    ensures
        r == (a@ == b@),
{
    if a.len() != b.len() {
        proof {
            assert(a@ != b@);
        }
        return false;
    }
    let n = a.len();
    let mut i: usize = 0;
    while i < n
        invariant
            n == a@.len(),
            a@.len() == b@.len(),
            i <= n,
            forall|j: int| 0 <= j < i ==> a@[j] == b@[j],
        decreases n - i,
    {
        if a[i] != b[i] {
            return false;
        }
        i += 1;
    }
    proof {
        assert(a@ =~= b@);
    }
    true
}

/// Bounds and first-match facts of `qe_match_index`.
proof fn lemma_qe_match_index(levels: Seq<QeTcbLevel>, isvsvn: u16)
    ensures
        0 <= qe_match_index(levels, isvsvn) <= levels.len(),
        forall|j: int|
            0 <= j < qe_match_index(levels, isvsvn) ==> isvsvn < (#[trigger] levels[j]).isvsvn,
        qe_match_index(levels, isvsvn) < levels.len() ==> isvsvn >= levels[qe_match_index(
            levels,
            isvsvn,
        )].isvsvn,
    decreases levels.len(),
{
    if levels.len() == 0 {
    } else if isvsvn >= levels[0].isvsvn {
    } else {
        lemma_qe_match_index(levels.drop_first(), isvsvn);
        assert forall|j: int| 0 <= j < qe_match_index(levels, isvsvn) implies isvsvn < (
        #[trigger] levels[j]).isvsvn by {
            if j > 0 {
                assert(levels.drop_first()[j - 1] == levels[j]);
            }
        }
        if qe_match_index(levels, isvsvn) < levels.len() {
            assert(levels.drop_first()[qe_match_index(levels.drop_first(), isvsvn)]
                == levels[qe_match_index(levels, isvsvn)]);
        }
    }
}

/// A matching level at `k`, with the first match not before `k`, pins the
/// first match to `k`.
proof fn lemma_qe_match_index_stops(levels: Seq<QeTcbLevel>, isvsvn: u16, k: int)
    requires
        0 <= k < levels.len(),
        qe_match_index(levels, isvsvn) >= k,
        isvsvn >= levels[k].isvsvn,
    ensures
        qe_match_index(levels, isvsvn) == k,
{
    lemma_qe_match_index(levels, isvsvn);
    if qe_match_index(levels, isvsvn) > k {
        assert(isvsvn < levels[k].isvsvn);
    }
}

/// A non-matching level at `k`, with the first match not before `k`, moves
/// the first match past `k`.
proof fn lemma_qe_match_index_skips(levels: Seq<QeTcbLevel>, isvsvn: u16, k: int)
    requires
        0 <= k < levels.len(),
        qe_match_index(levels, isvsvn) >= k,
        isvsvn < levels[k].isvsvn,
    ensures
        qe_match_index(levels, isvsvn) >= k + 1,
{
    lemma_qe_match_index(levels, isvsvn);
}

} // verus!
