//! The collateral bundle: every document a verification needs, assembled
//! slot by slot by the caller and read-only afterwards.
use vstd::prelude::*;

use crate::qe::EnclaveIdentityV2;
use crate::tcb::TcbInfoV2;

verus! {

/// All collateral for one verification: TCB info, enclave identity, the
/// root CA, the TCB signing certificate, the PCK certificate chain, and
/// revocation lists. Every slot is optional at build time; verification
/// checks the subset it needs and fails with a missing-collateral error
/// rather than panicking.
pub struct IntelCollateralV3 {
    pub tcbinfov2: Option<TcbInfoV2>,
    pub qe_identityv2: Option<EnclaveIdentityV2>,
    pub intel_root_ca_der: Option<Vec<u8>>,
    pub sgx_tcb_signing_der: Option<Vec<u8>>,
    pub sgx_pck_certchain_der: Option<Vec<u8>>,
    pub sgx_intel_root_ca_crl_der: Option<Vec<u8>>,
    pub sgx_pck_processor_crl_der: Option<Vec<u8>>,
    pub sgx_pck_platform_crl_der: Option<Vec<u8>>,
}

impl IntelCollateralV3 {
    /// An empty bundle: every slot unset.
    pub fn new() -> (r: IntelCollateralV3)
        ensures
            r.tcbinfov2 is None,
            r.qe_identityv2 is None,
            r.intel_root_ca_der is None,
            r.sgx_tcb_signing_der is None,
            r.sgx_pck_certchain_der is None,
            r.sgx_intel_root_ca_crl_der is None,
            r.sgx_pck_processor_crl_der is None,
            r.sgx_pck_platform_crl_der is None,
    {
        IntelCollateralV3 {
            tcbinfov2: None,
            qe_identityv2: None,
            intel_root_ca_der: None,
            sgx_tcb_signing_der: None,
            sgx_pck_certchain_der: None,
            sgx_intel_root_ca_crl_der: None,
            sgx_pck_processor_crl_der: None,
            sgx_pck_platform_crl_der: None,
        }
    }

    /// Set the TCB-info document, already parsed into its typed form.
    pub fn set_tcbinfov2(&mut self, tcbinfo: TcbInfoV2)
        ensures
            *final(self) == (IntelCollateralV3 { tcbinfov2: Some(tcbinfo), ..*old(self) }),
    {
        self.tcbinfov2 = Some(tcbinfo);
    }

    /// Set the enclave-identity document, already parsed into its typed form.
    pub fn set_qeidentityv2(&mut self, identity: EnclaveIdentityV2)
        ensures
            *final(self) == (IntelCollateralV3 { qe_identityv2: Some(identity), ..*old(self) }),
    {
        self.qe_identityv2 = Some(identity);
    }

    /// Set the root CA certificate from its DER encoding.
    pub fn set_intel_root_ca_der(&mut self, intel_root_ca_der: &[u8])
        ensures
            *final(self) == (IntelCollateralV3 {
                intel_root_ca_der: final(self).intel_root_ca_der,
                ..*old(self)
            }),
            final(self).intel_root_ca_der matches Some(d) && d@ == intel_root_ca_der@,
    {
        self.intel_root_ca_der = Some(vstd::slice::slice_to_vec(intel_root_ca_der));
    }

    /// Set the TCB signing certificate from its DER encoding.
    pub fn set_sgx_tcb_signing_der(&mut self, sgx_tcb_signing_der: &[u8])
        ensures
            *final(self) == (IntelCollateralV3 {
                sgx_tcb_signing_der: final(self).sgx_tcb_signing_der,
                ..*old(self)
            }),
            final(self).sgx_tcb_signing_der matches Some(d) && d@ == sgx_tcb_signing_der@,
    {
        self.sgx_tcb_signing_der = Some(vstd::slice::slice_to_vec(sgx_tcb_signing_der));
    }

    /// Set the TCB signing certificate from its PEM encoding; the slot
    /// holds the decoded DER, or is cleared when the PEM cannot be read.
    pub fn set_sgx_tcb_signing_pem(&mut self, sgx_tcb_signing_pem: &[u8])
        ensures
            *final(self) == (IntelCollateralV3 {
                sgx_tcb_signing_der: final(self).sgx_tcb_signing_der,
                ..*old(self)
            }),
            match crate::cert::pem_ders_of(sgx_tcb_signing_pem@) {
                Some(ders) => if ders.len() >= 1 {
                    final(self).sgx_tcb_signing_der matches Some(d) && d@ == ders[0]
                } else {
                    final(self).sgx_tcb_signing_der is None
                },
                None => final(self).sgx_tcb_signing_der is None,
            },
    {
        let ders = crate::cert::pem_chain_to_ders(sgx_tcb_signing_pem);
        match ders {
            Some(mut v) => {
                if v.len() == 0 {
                    self.sgx_tcb_signing_der = None;
                } else {
                    let first = v.remove(0);
                    self.sgx_tcb_signing_der = Some(first);
                }
            },
            None => {
                self.sgx_tcb_signing_der = None;
            },
        }
    }

    /// Set the PCK certificate chain from its DER encoding (certificates
    /// concatenated, leaf first), or clear the slot.
    pub fn set_sgx_pck_certchain_der(&mut self, sgx_pck_certchain_der: Option<&[u8]>)
        ensures
            *final(self) == (IntelCollateralV3 {
                sgx_pck_certchain_der: final(self).sgx_pck_certchain_der,
                ..*old(self)
            }),
            match sgx_pck_certchain_der {
                Some(der) => final(self).sgx_pck_certchain_der matches Some(d) && d@ == der@,
                None => final(self).sgx_pck_certchain_der is None,
            },
    {
        match sgx_pck_certchain_der {
            Some(certchain_der) => {
                self.sgx_pck_certchain_der = Some(vstd::slice::slice_to_vec(certchain_der));
            },
            None => {
                self.sgx_pck_certchain_der = None;
            },
        }
    }

    /// Set the PCK certificate chain from its PEM encoding (certificates
    /// concatenated, leaf first), re-encoded as concatenated DER; the slot
    /// is cleared when the PEM cannot be read, or on a `None` argument.
    pub fn set_sgx_pck_certchain_pem(&mut self, sgx_pck_certchain_pem: Option<&[u8]>)
        ensures
            *final(self) == (IntelCollateralV3 {
                sgx_pck_certchain_der: final(self).sgx_pck_certchain_der,
                ..*old(self)
            }),
            match sgx_pck_certchain_pem {
                Some(pem) => match crate::cert::pem_ders_of(pem@) {
                    Some(ders) => if ders.len() >= 1 {
                        final(self).sgx_pck_certchain_der matches Some(d) && d@ == ders.flatten()
                    } else {
                        final(self).sgx_pck_certchain_der is None
                    },
                    None => final(self).sgx_pck_certchain_der is None,
                },
                None => final(self).sgx_pck_certchain_der is None,
            },
    {
        match sgx_pck_certchain_pem {
            Some(certchain_pem) => {
                let ders = crate::cert::pem_chain_to_ders(certchain_pem);
                match ders {
                    Some(v) => {
                        if v.len() == 0 {
                            self.sgx_pck_certchain_der = None;
                        } else {
                            let flat = flatten_bytes(&v);
                            self.sgx_pck_certchain_der = Some(flat);
                        }
                    },
                    None => {
                        self.sgx_pck_certchain_der = None;
                    },
                }
            },
            None => {
                self.sgx_pck_certchain_der = None;
            },
        }
    }

    /// The root CA certificate, decoded into its plain fields; `None`
    /// when the slot is unset or the DER cannot be read.
    pub fn get_intel_root_ca(&self) -> (r: Option<crate::cert::CertFields>)
        ensures
            (match self.intel_root_ca_der {
                Some(d) => r == crate::cert::cert_fields_of(d@),
                None => r is None,
            }),
    {
        match &self.intel_root_ca_der {
            Some(d) => crate::cert::parse_cert(d),
            None => None,
        }
    }

    /// The TCB signing certificate, decoded into its plain fields; `None`
    /// when the slot is unset or the DER cannot be read.
    pub fn get_sgx_tcb_signing(&self) -> (r: Option<crate::cert::CertFields>)
        ensures
            (match self.sgx_tcb_signing_der {
                Some(d) => r == crate::cert::cert_fields_of(d@),
                None => r is None,
            }),
    {
        match &self.sgx_tcb_signing_der {
            Some(d) => crate::cert::parse_cert(d),
            None => None,
        }
    }

    /// The PCK certificate chain, leaf first, each certificate decoded
    /// into its plain fields; `None` when the slot is unset, the buffer is
    /// not a run of complete DER elements, or a certificate cannot be
    /// read.
    #[verifier::loop_isolation(false)]
    pub fn get_sgx_pck_certchain(&self) -> (r: Option<Vec<crate::cert::CertFields>>)
        ensures
            (match self.sgx_pck_certchain_der {
                None => r is None,
                Some(d) => (match crate::der::spec_split_der(d@, 0) {
                    None => r is None,
                    Some(ders) => (match r {
                        Some(v) => v@.len() == ders.len() && forall|i: int|
                            0 <= i < ders.len() ==> Some(#[trigger] v@[i])
                                == crate::cert::cert_fields_of(ders[i]),
                        None => exists|i: int|
                            0 <= i < ders.len() && crate::cert::cert_fields_of(
                                #[trigger] ders[i],
                            ) is None,
                    }),
                }),
            }),
    {
        let der = match &self.sgx_pck_certchain_der {
            Some(d) => d,
            None => {
                return None;
            },
        };
        let ders = match crate::der::split_der_certs(der) {
            Some(v) => v,
            None => {
                return None;
            },
        };
        let mut out: Vec<crate::cert::CertFields> = Vec::new();
        let n = ders.len();
        let mut i: usize = 0;
        while i < n
            invariant
                out@.len() == i,
                i <= n,
                forall|j: int|
                    0 <= j < i ==> Some(#[trigger] out@[j]) == crate::cert::cert_fields_of(
                        ders@[j]@,
                    ),
            decreases n - i,
        {
            let fields = match crate::cert::parse_cert(&ders[i]) {
                Some(f) => f,
                None => {
                    proof {
                        let ders_spec = crate::der::spec_split_der(der@, 0)->0;
                        assert(ders_spec[i as int] == ders@[i as int]@);
                        assert(crate::cert::cert_fields_of(ders_spec[i as int]) is None);
                    }
                    return None;
                },
            };
            out.push(fields);
            i += 1;
        }
        Some(out)
    }

    /// Set the PCK processor revocation list from its DER encoding.
    pub fn set_sgx_processor_crl_der(&mut self, sgx_pck_processor_crl_der: &[u8])
        ensures
            *final(self) == (IntelCollateralV3 {
                sgx_pck_processor_crl_der: final(self).sgx_pck_processor_crl_der,
                ..*old(self)
            }),
            final(self).sgx_pck_processor_crl_der matches Some(d) && d@
                == sgx_pck_processor_crl_der@,
    {
        self.sgx_pck_processor_crl_der = Some(vstd::slice::slice_to_vec(sgx_pck_processor_crl_der));
    }
}

/// Concatenate a list of byte buffers into one.
pub(crate) fn flatten_bytes(parts: &Vec<Vec<u8>>) -> (r: Vec<u8>)
    ensures
        r@ == parts@.map_values(|p: Vec<u8>| p@).flatten(),
{
    let mut out: Vec<u8> = Vec::new();
    let n = parts.len();
    let mut i: usize = 0;
    while i < n
        invariant
            n == parts@.len(),
            i <= n,
            out@ == parts@.map_values(|p: Vec<u8>| p@).subrange(0, i as int).flatten(),
        decreases n - i,
    {
        crate::output::push_all(&mut out, &parts[i]);
        proof {
            let views = parts@.map_values(|p: Vec<u8>| p@);
            assert(views.subrange(0, i as int).push(views[i as int]) =~= views.subrange(
                0,
                i as int + 1,
            ));
            views.subrange(0, i as int).lemma_flatten_push(views[i as int]);
        }
        i += 1;
    }
    proof {
        let views = parts@.map_values(|p: Vec<u8>| p@);
        assert(views.subrange(0, n as int) =~= views);
    }
    out
}

} // verus!
