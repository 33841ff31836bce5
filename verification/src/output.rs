//! The verified result record and its fixed 135-byte wire encoding.
use vstd::prelude::*;

use crate::status::{severity, TcbStatus};
use crate::Error;

verus! {

/// The canonical record a successful verification produces: the final TCB
/// status, the enclave's measurement and signer, the user report data, and
/// the platform's FMSPC identifier.
#[derive(Debug)]
pub struct VerifiedOutput {
    pub tcb_status: TcbStatus,
    pub mr_enclave: Vec<u8>,
    pub mr_signer: Vec<u8>,
    pub report_data: Vec<u8>,
    pub fmspc: Vec<u8>,
}

impl VerifiedOutput {
    /// Field widths of the wire layout: 32-byte measurement and signer,
    /// 64 bytes of report data, a 6-byte FMSPC.
    pub open spec fn wf(self) -> bool {
        &&& self.mr_enclave@.len() == 32
        &&& self.mr_signer@.len() == 32
        &&& self.report_data@.len() == 64
        &&& self.fmspc@.len() == 6
    }

    /// The 135-byte encoding: status byte, then measurement, signer,
    /// report data and FMSPC.
    pub open spec fn spec_bytes(self) -> Seq<u8> {
        seq![status_byte(self.tcb_status)] + self.mr_enclave@ + self.mr_signer@
            + self.report_data@ + self.fmspc@
    }

    /// Encode this record into its 135-byte wire form.
    pub fn to_bytes(&self) -> (r: Vec<u8>)
        requires
            self.wf(),
        ensures
            r@ == self.spec_bytes(),
            r@.len() == 135,
    {
        let mut out: Vec<u8> = Vec::new();
        out.push(status_to_byte(self.tcb_status));
        push_all(&mut out, &self.mr_enclave);
        push_all(&mut out, &self.mr_signer);
        push_all(&mut out, &self.report_data);
        push_all(&mut out, &self.fmspc);
        proof {
            assert(out@ =~= self.spec_bytes());
        }
        out
    }

    /// Decode a 135-byte wire form back into a record. Succeeds exactly on
    /// inputs of length 135 whose first byte is a status discriminant in
    /// 0..=7; everything else is `InvalidEncoding`.
    pub fn from_bytes(slice: &[u8]) -> (r: Result<VerifiedOutput, Error>)
        ensures
            r is Ok <==> (slice@.len() == 135 && slice@[0] <= 7),
            r matches Ok(v) ==> {
                &&& v.wf()
                &&& status_of_byte(slice@[0]) == Some(v.tcb_status)
                &&& v.mr_enclave@ == slice@.subrange(1, 33)
                &&& v.mr_signer@ == slice@.subrange(33, 65)
                &&& v.report_data@ == slice@.subrange(65, 129)
                &&& v.fmspc@ == slice@.subrange(129, 135)
            },
            r matches Err(e) ==> e == Error::InvalidEncoding,
    {
        if slice.len() != 135 {
            return Err(Error::InvalidEncoding);
        }
        let b0 = *vstd::slice::slice_index_get(slice, 0);
        let tcb_status = match status_from_byte(b0) {
            Some(s) => s,
            None => {
                return Err(Error::InvalidEncoding);
            },
        };
        let mr_enclave = vstd::slice::slice_to_vec(vstd::slice::slice_subrange(slice, 1, 33));
        let mr_signer = vstd::slice::slice_to_vec(vstd::slice::slice_subrange(slice, 33, 65));
        let report_data = vstd::slice::slice_to_vec(vstd::slice::slice_subrange(slice, 65, 129));
        let fmspc = vstd::slice::slice_to_vec(vstd::slice::slice_subrange(slice, 129, 135));
        Ok(VerifiedOutput { tcb_status, mr_enclave, mr_signer, report_data, fmspc })
    }
}

/// The wire byte of a status: its severity rank.
pub open spec fn status_byte(s: TcbStatus) -> u8 {
    severity(s) as u8
}

/// The status a wire byte stands for; bytes above 7 stand for none.
pub open spec fn status_of_byte(b: u8) -> Option<TcbStatus> {
    if b == 0 {
        Some(TcbStatus::OK)
    } else if b == 1 {
        Some(TcbStatus::TcbSwHardeningNeeded)
    } else if b == 2 {
        Some(TcbStatus::TcbConfigurationAndSwHardeningNeeded)
    } else if b == 3 {
        Some(TcbStatus::TcbConfigurationNeeded)
    } else if b == 4 {
        Some(TcbStatus::TcbOutOfDate)
    } else if b == 5 {
        Some(TcbStatus::TcbOutOfDateConfigurationNeeded)
    } else if b == 6 {
        Some(TcbStatus::TcbRevoked)
    } else if b == 7 {
        Some(TcbStatus::TcbUnrecognized)
    } else {
        None
    }
}

/// Encode a status as its wire byte, the literal mapping OK through
/// unrecognized to 0 through 7.
pub fn status_to_byte(s: TcbStatus) -> (r: u8)
    ensures
        r == status_byte(s),
        r <= 7,
{
    crate::status::status_rank(s)
}

/// Decode a wire byte into a status; `None` for bytes above 7.
pub fn status_from_byte(b: u8) -> (r: Option<TcbStatus>)
    ensures
        r == status_of_byte(b),
{
    match b {
        0 => Some(TcbStatus::OK),
        1 => Some(TcbStatus::TcbSwHardeningNeeded),
        2 => Some(TcbStatus::TcbConfigurationAndSwHardeningNeeded),
        3 => Some(TcbStatus::TcbConfigurationNeeded),
        4 => Some(TcbStatus::TcbOutOfDate),
        5 => Some(TcbStatus::TcbOutOfDateConfigurationNeeded),
        6 => Some(TcbStatus::TcbRevoked),
        7 => Some(TcbStatus::TcbUnrecognized),
        _ => None,
    }
}

/// Append every byte of `src` to `dst`.
pub(crate) fn push_all(dst: &mut Vec<u8>, src: &Vec<u8>)
    ensures
        final(dst)@ == old(dst)@ + src@,
{
    let mut i: usize = 0;
    while i < src.len()
        invariant
            i <= src@.len(),
            dst@ == old(dst)@ + src@.subrange(0, i as int),
        decreases src@.len() - i,
    {
        dst.push(src[i]);
        proof {
            assert(dst@ =~= old(dst)@ + src@.subrange(0, i + 1));
        }
        i += 1;
    }
    proof {
        assert(src@.subrange(0, src@.len() as int) =~= src@);
    }
}

/// Round trip: decoding the encoding of any well-formed record recovers the
/// record exactly — the status byte is in range and each field of the
/// encoding reads back as the field it was written from.
pub proof fn lemma_round_trip(v: VerifiedOutput)
    requires
        v.wf(),
    ensures
        v.spec_bytes().len() == 135,
        v.spec_bytes()[0] == status_byte(v.tcb_status),
        status_byte(v.tcb_status) <= 7,
        status_of_byte(v.spec_bytes()[0]) == Some(v.tcb_status),
        v.spec_bytes().subrange(1, 33) == v.mr_enclave@,
        v.spec_bytes().subrange(33, 65) == v.mr_signer@,
        v.spec_bytes().subrange(65, 129) == v.report_data@,
        v.spec_bytes().subrange(129, 135) == v.fmspc@,
{
    assert(v.spec_bytes().subrange(1, 33) =~= v.mr_enclave@);
    assert(v.spec_bytes().subrange(33, 65) =~= v.mr_signer@);
    assert(v.spec_bytes().subrange(65, 129) =~= v.report_data@);
    assert(v.spec_bytes().subrange(129, 135) =~= v.fmspc@);
}

/// Re-encoding a decoded 135-byte buffer yields the same buffer: the five
/// wire fields recompose to the original byte sequence.
pub proof fn lemma_decode_encode(b: Seq<u8>)
    requires
        b.len() == 135,
        b[0] <= 7,
    ensures
        seq![status_byte(status_of_byte(b[0])->0)] + b.subrange(1, 33) + b.subrange(33, 65)
            + b.subrange(65, 129) + b.subrange(129, 135) == b,
{
    assert(seq![status_byte(status_of_byte(b[0])->0)] + b.subrange(1, 33) + b.subrange(33, 65)
        + b.subrange(65, 129) + b.subrange(129, 135) =~= b);
}

} // verus!
