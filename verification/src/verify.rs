//! The verification pipeline: header checks, certificate-chain and
//! signature trust, TCB and QE-identity evaluation, status convergence,
//! and the construction of the verified output record.
use vstd::prelude::*;

use crate::cert::{check_chain_signatures, parse_cert, parse_crl, validate_cert_chain, CertFields};
use crate::collateral::IntelCollateralV3;
use crate::output::VerifiedOutput;
use crate::qe::{spec_qe_status, EnclaveIdentityV2};
use crate::quote::{EnclaveReport, QuoteHeader, QuoteV3};
use crate::status::{spec_converge, TcbStatus};
use crate::tcb::{match_index, TcbInfoV2};
use crate::Error;

verus! {

impl EnclaveReport {
    /// Field widths of the report layout.
    pub open spec fn wf(self) -> bool {
        &&& self.cpu_svn@.len() == 16
        &&& self.attributes@.len() == 16
        &&& self.mr_enclave@.len() == 32
        &&& self.mr_signer@.len() == 32
        &&& self.report_data@.len() == 64
    }
}

impl QuoteV3 {
    /// Field widths of the quote layout: both reports well formed, and
    /// the fixed-size cryptographic material at its exact sizes.
    pub open spec fn wf(self) -> bool {
        &&& self.isv_enclave_report.wf()
        &&& self.signature.qe_report.wf()
        &&& self.signed_message@.len() == 432
        &&& self.signature.isv_enclave_report_signature@.len() == 64
        &&& self.signature.ecdsa_attestation_key@.len() == 64
        &&& self.signature.qe_report_signature@.len() == 64
    }
}

impl IntelCollateralV3 {
    /// Every slot that is set holds a well-formed document.
    pub open spec fn wf(self) -> bool {
        &&& self.tcbinfov2 matches Some(t) ==> t.wf()
        &&& self.qe_identityv2 matches Some(q) ==> q.wf()
    }
}

/// The DER certificates of the PCK chain a verification uses, leaf first:
/// the collateral's concatenated-DER slot when it is set, else the quote's
/// certification data when it carries a PEM chain.
pub open spec fn spec_chain_ders(collaterals: IntelCollateralV3, quote: QuoteV3) -> Option<
    Seq<Seq<u8>>,
> {
    match collaterals.sgx_pck_certchain_der {
        Some(d) => crate::der::spec_split_der(d@, 0),
        None => if quote.signature.qe_cert_data_type == 5 {
            crate::cert::pem_ders_of(quote.signature.qe_cert_data@)
        } else {
            None
        },
    }
}

/// The attestation key type tag of an ECDSA P-256 attestation key.
pub open spec fn spec_ecdsa_p256_key_type() -> int {
    2
}

/// The revoked serial numbers a revocation-list slot contributes: the
/// empty list for an unset slot; for a set slot, the serials of the
/// decoded list when it is authentic under the anchor, and `None` when
/// the list cannot be read or is not the anchor's.
pub open spec fn spec_slot_serials(slot: Option<Vec<u8>>, root: CertFields) -> Option<
    Seq<Seq<u8>>,
> {
    match slot {
        None => Some(Seq::empty()),
        Some(d) => match crate::cert::crl_fields_of(d@) {
            Some(c) => if crate::cert::spec_crl_ok(c, root) {
                Some(c.serials@.map_values(|x: Vec<u8>| x@))
            } else {
                None
            },
            None => None,
        },
    }
}

/// The outcome `verify_quote_dcapv3` owes on every input, with the checks
/// in the order they are made: the header, the presence of the typed
/// collateral and the root, the root's decoding, the authenticity of the
/// supplied revocation lists (at least one must be supplied), the source
/// and decoding of the PCK chain, its validation and signature linkage,
/// the two quote signatures, the SGX extension and its FMSPC against the
/// collateral's, the QE identity, and the platform TCB match with its
/// revocation stop. `None` exactly when verification succeeds.
pub open spec fn spec_verify_err(
    quote: QuoteV3,
    collaterals: IntelCollateralV3,
    current_time: u64,
) -> Option<Error> {
    if quote.header.version != 3 {
        Some(Error::UnsupportedVersion)
    } else if quote.header.att_key_type != spec_ecdsa_p256_key_type() || quote.header.tee_type
        != crate::quote::spec_sgx_tee_type() {
        Some(Error::MalformedQuote)
    } else if collaterals.tcbinfov2 is None || collaterals.qe_identityv2 is None
        || collaterals.intel_root_ca_der is None {
        Some(Error::MissingCollateral)
    } else {
        let ti = collaterals.tcbinfov2->0;
        let qi = collaterals.qe_identityv2->0;
        match crate::cert::cert_fields_of(collaterals.intel_root_ca_der->0@) {
            None => Some(Error::CertChainInvalid),
            Some(root) => {
                if spec_slot_serials(collaterals.sgx_pck_processor_crl_der, root) is None
                    || spec_slot_serials(collaterals.sgx_pck_platform_crl_der, root) is None {
                    Some(Error::CertChainInvalid)
                } else if collaterals.sgx_pck_processor_crl_der is None
                    && collaterals.sgx_pck_platform_crl_der is None {
                    Some(Error::MissingCollateral)
                } else {
                    let crl = spec_slot_serials(collaterals.sgx_pck_processor_crl_der, root)->0
                        + spec_slot_serials(collaterals.sgx_pck_platform_crl_der, root)->0;
                    if collaterals.sgx_pck_certchain_der is None
                        && quote.signature.qe_cert_data_type != 5 {
                        Some(Error::MalformedQuote)
                    } else {
                        match spec_chain_ders(collaterals, quote) {
                            None => Some(Error::CertChainInvalid),
                            Some(ders) => spec_chain_err(quote, ti, qi, root, crl, ders, current_time),
                        }
                    }
                }
            },
        }
    }
}

/// The outcome from the decoded chain on: chain decoding and validation,
/// signature linkage, the two quote signatures, the extension, the QE
/// identity and the TCB match.
pub open spec fn spec_chain_err(
    quote: QuoteV3,
    ti: TcbInfoV2,
    qi: EnclaveIdentityV2,
    root: CertFields,
    crl: Seq<Seq<u8>>,
    ders: Seq<Seq<u8>>,
    current_time: u64,
) -> Option<Error> {
    match crate::cert::spec_parse_chain(ders) {
        None => Some(Error::CertChainInvalid),
        Some(chain) => {
            if crate::cert::spec_validate_chain(chain, root, crl, current_time) is Some {
                crate::cert::spec_validate_chain(chain, root, crl, current_time)
            } else if !crate::cert::spec_chain_sigs_ok(chain, root) {
                Some(Error::CertChainInvalid)
            } else if !crate::cert::p256_raw_sig_ok(
                quote.signature.qe_report_raw@,
                quote.signature.qe_report_signature@,
                chain[0].pubkey@,
            ) {
                Some(Error::SignatureInvalid)
            } else if !crate::cert::p256_raw_sig_ok(
                quote.signed_message@,
                quote.signature.isv_enclave_report_signature@,
                seq![4u8] + quote.signature.ecdsa_attestation_key@,
            ) {
                Some(Error::SignatureInvalid)
            } else {
                match crate::der::spec_sgx_ext(crate::cert::sgx_ext_of(ders[0])) {
                    None => Some(Error::TcbEvaluationFailed),
                    Some(ext) => {
                        if ext.0 != ti.fmspc@ {
                            Some(Error::TcbEvaluationFailed)
                        } else if !ti.levels_ordered() {
                            Some(Error::TcbEvaluationFailed)
                        } else if quote.signature.qe_report.mr_signer@ != qi.mrsigner@
                            || quote.signature.qe_report.isv_prod_id != qi.isvprodid {
                            Some(Error::QeIdentityMismatch)
                        } else {
                            let mi = match_index(ti.tcb_levels@, ext.1, ext.2);
                            if mi >= ti.tcb_levels@.len() {
                                Some(Error::TcbEvaluationFailed)
                            } else if ti.tcb_levels@[mi].tcb_status == TcbStatus::TcbRevoked {
                                Some(Error::TcbRevoked)
                            } else {
                                None
                            }
                        }
                    },
                }
            }
        },
    }
}

/// Check the quote header: the expected format version, the ECDSA P-256
/// attestation key type, and the SGX TEE type tag.
pub fn check_quote_header(header: &QuoteHeader, expected_version: u16) -> (r: bool)
    ensures
        r == (header.version == expected_version && header.att_key_type
            == spec_ecdsa_p256_key_type() && header.tee_type == crate::quote::spec_sgx_tee_type()),
{
    header.version == expected_version && header.att_key_type == 2 && header.tee_type == 0
}

/// Copy a byte buffer.
pub(crate) fn copy_bytes(v: &Vec<u8>) -> (r: Vec<u8>)
    ensures
        r@ == v@,
{
    vstd::slice::slice_to_vec(v.as_slice())
}

/// Derive the verified output from the evaluated plain values: the QE
/// report's identity must equal the collateral's, some TCB level must
/// match the platform's reported versions, and a revoked platform level is
/// a hard failure; otherwise the output carries the converged status, the
/// enclave's measurement, signer and report data, and the collateral's
/// FMSPC.
pub fn derive_output(
    tcb_info: &TcbInfoV2,
    identity: &EnclaveIdentityV2,
    isv_report: &EnclaveReport,
    qe_report: &EnclaveReport,
    comps: &Vec<u8>,
    pcesvn: u16,
) -> (r: Result<VerifiedOutput, Error>)
    requires
        tcb_info.wf(),
        identity.wf(),
        isv_report.wf(),
        comps@.len() == 16,
    ensures
        ({
            let mi = match_index(tcb_info.tcb_levels@, comps@, pcesvn);
            let n = tcb_info.tcb_levels@.len();
            let qe_ok = qe_report.mr_signer@ == identity.mrsigner@ && qe_report.isv_prod_id
                == identity.isvprodid;
            let platform = tcb_info.tcb_levels@[mi].tcb_status;
            &&& (r == Err::<VerifiedOutput, Error>(Error::QeIdentityMismatch) <==> !qe_ok)
            &&& (r == Err::<VerifiedOutput, Error>(Error::TcbEvaluationFailed) <==> qe_ok && mi
                >= n)
            &&& (r == Err::<VerifiedOutput, Error>(Error::TcbRevoked) <==> qe_ok && mi < n
                && platform == TcbStatus::TcbRevoked)
            &&& (r is Ok <==> qe_ok && mi < n && platform != TcbStatus::TcbRevoked)
            &&& (r matches Ok(out) ==> {
                &&& out.tcb_status == spec_converge(
                    platform,
                    spec_qe_status(identity.tcb_levels@, qe_report.isv_svn),
                )
                &&& out.mr_enclave@ == isv_report.mr_enclave@
                &&& out.mr_signer@ == isv_report.mr_signer@
                &&& out.report_data@ == isv_report.report_data@
                &&& out.fmspc@ == tcb_info.fmspc@
                &&& out.wf()
            })
        }),
{
    let qe_tcb_status = crate::qe::evaluate_qe_identity(
        identity,
        &qe_report.mr_signer,
        qe_report.isv_prod_id,
        qe_report.isv_svn,
    )?;
    let (platform_status, _level_index) = crate::tcb::get_sgx_fmspc_tcbstatus(
        tcb_info,
        comps,
        pcesvn,
    )?;
    if platform_status == TcbStatus::TcbRevoked {
        return Err(Error::TcbRevoked);
    }
    let tcb_status = crate::status::converge_tcb_status_with_qe_tcb(platform_status, qe_tcb_status);
    Ok(
        VerifiedOutput {
            tcb_status,
            mr_enclave: copy_bytes(&isv_report.mr_enclave),
            mr_signer: copy_bytes(&isv_report.mr_signer),
            report_data: copy_bytes(&isv_report.report_data),
            fmspc: copy_bytes(&tcb_info.fmspc),
        },
    )
}

/// Verify a parsed version-3 quote against the collateral bundle at the
/// given verification time. Establishes certificate-chain trust (validity
/// windows, revocation, issuer linkage and signature linkage to the root),
/// verifies the QE report's signature under the PCK leaf key and the quote
/// body's signature under the attestation key, evaluates the platform TCB
/// and the QE identity, and converges the two statuses. A revoked platform
/// TCB level is an error, never an output.
#[verifier::loop_isolation(false)]
pub fn verify_quote_dcapv3(
    quote: &QuoteV3,
    collaterals: &IntelCollateralV3,
    current_time: u64,
) -> (r: Result<VerifiedOutput, Error>)
    requires
        quote.wf(),
        collaterals.wf(),
    ensures
        (match r {
            Ok(out) => {
                &&& spec_verify_err(*quote, *collaterals, current_time) is None
                &&& out.wf()
                &&& out.mr_enclave@ == quote.isv_enclave_report.mr_enclave@
                &&& out.mr_signer@ == quote.isv_enclave_report.mr_signer@
                &&& out.report_data@ == quote.isv_enclave_report.report_data@
                &&& collaterals.tcbinfov2 matches Some(ti) && collaterals.qe_identityv2 matches Some(
                    qi,
                ) && collaterals.intel_root_ca_der matches Some(rd)
                    && crate::cert::cert_fields_of(rd@) matches Some(root) && spec_chain_ders(
                    *collaterals,
                    *quote,
                ) matches Some(ders) && crate::cert::spec_parse_chain(ders) matches Some(chain)
                    && {
                    &&& chain.len() > 0
                    &&& crate::cert::spec_validate_chain(
                        chain,
                        root,
                        spec_slot_serials(collaterals.sgx_pck_processor_crl_der, root)->0
                            + spec_slot_serials(collaterals.sgx_pck_platform_crl_der, root)->0,
                        current_time,
                    ) is None
                    &&& crate::cert::spec_chain_sigs_ok(chain, root)
                    &&& crate::cert::p256_raw_sig_ok(
                        quote.signature.qe_report_raw@,
                        quote.signature.qe_report_signature@,
                        chain[0].pubkey@,
                    )
                    &&& crate::cert::p256_raw_sig_ok(
                        quote.signed_message@,
                        quote.signature.isv_enclave_report_signature@,
                        seq![4u8] + quote.signature.ecdsa_attestation_key@,
                    )
                    &&& crate::der::spec_sgx_ext(crate::cert::sgx_ext_of(ders[0])) matches Some(
                        ext,
                    ) && {
                        let mi = match_index(ti.tcb_levels@, ext.1, ext.2);
                        &&& out.fmspc@ == ext.0
                        &&& out.fmspc@ == ti.fmspc@
                        &&& ti.levels_ordered()
                        &&& mi < ti.tcb_levels@.len()
                        &&& ti.tcb_levels@[mi].tcb_status != TcbStatus::TcbRevoked
                        &&& out.tcb_status == spec_converge(
                            ti.tcb_levels@[mi].tcb_status,
                            spec_qe_status(qi.tcb_levels@, quote.signature.qe_report.isv_svn),
                        )
                    }
                }
            },
            Err(e) => spec_verify_err(*quote, *collaterals, current_time) == Some(e),
        }),
{
    if quote.header.version != 3 {
        return Err(Error::UnsupportedVersion);
    }
    if !check_quote_header(&quote.header, 3) {
        return Err(Error::MalformedQuote);
    }
    let tcb_info = match &collaterals.tcbinfov2 {
        Some(t) => t,
        None => {
            return Err(Error::MissingCollateral);
        },
    };
    let identity = match &collaterals.qe_identityv2 {
        Some(q) => q,
        None => {
            return Err(Error::MissingCollateral);
        },
    };
    let root_der = match &collaterals.intel_root_ca_der {
        Some(d) => d,
        None => {
            return Err(Error::MissingCollateral);
        },
    };
    let root_fields = match parse_cert(root_der) {
        Some(f) => f,
        None => {
            return Err(Error::CertChainInvalid);
        },
    };
    let ghost proc_serials = spec_slot_serials(
        collaterals.sgx_pck_processor_crl_der,
        root_fields,
    );
    let ghost plat_serials = spec_slot_serials(
        collaterals.sgx_pck_platform_crl_der,
        root_fields,
    );
    let mut crl_serials: Vec<Vec<u8>> = Vec::new();
    let mut any_crl = false;
    if let Some(crl_der) = &collaterals.sgx_pck_processor_crl_der {
        let crl = match parse_crl(crl_der) {
            Some(c) => c,
            None => {
                return Err(Error::CertChainInvalid);
            },
        };
        if !crate::cert::check_crl(&crl, &root_fields) {
            return Err(Error::CertChainInvalid);
        }
        let mut serials = crl.serials;
        crl_serials.append(&mut serials);
        any_crl = true;
    }
    proof {
        assert(proc_serials is Some);
        assert(crl_serials@.map_values(|x: Vec<u8>| x@) =~= proc_serials->0);
    }
    if let Some(crl_der) = &collaterals.sgx_pck_platform_crl_der {
        let crl = match parse_crl(crl_der) {
            Some(c) => c,
            None => {
                return Err(Error::CertChainInvalid);
            },
        };
        if !crate::cert::check_crl(&crl, &root_fields) {
            return Err(Error::CertChainInvalid);
        }
        let ghost before = crl_serials@;
        let mut serials = crl.serials;
        crl_serials.append(&mut serials);
        proof {
            assert(crl_serials@.map_values(|x: Vec<u8>| x@) =~= before.map_values(|x: Vec<u8>| x@)
                + crl.serials@.map_values(|x: Vec<u8>| x@));
        }
        any_crl = true;
    }
    proof {
        assert(plat_serials is Some);
        assert(crl_serials@.map_values(|x: Vec<u8>| x@) =~= proc_serials->0 + plat_serials->0);
    }
    if !any_crl {
        return Err(Error::MissingCollateral);
    }
    let chain_ders = match &collaterals.sgx_pck_certchain_der {
        Some(ccder) => {
            match crate::der::split_der_certs(ccder) {
                Some(v) => v,
                None => {
                    return Err(Error::CertChainInvalid);
                },
            }
        },
        None => {
            if quote.signature.qe_cert_data_type != 5 {
                return Err(Error::MalformedQuote);
            }
            match crate::cert::pem_chain_to_ders(quote.signature.qe_cert_data.as_slice()) {
                Some(v) => v,
                None => {
                    return Err(Error::CertChainInvalid);
                },
            }
        },
    };
    let mut chain: Vec<CertFields> = Vec::new();
    let n_certs = chain_ders.len();
    let mut i: usize = 0;
    while i < n_certs
        invariant
            n_certs == chain_ders@.len(),
            i <= n_certs,
            chain@.len() == i,
            forall|j: int|
                0 <= j < i ==> Some(#[trigger] chain@[j]) == crate::cert::cert_fields_of(
                    chain_ders@[j]@,
                ),
        decreases n_certs - i,
    {
        let fields = match parse_cert(&chain_ders[i]) {
            Some(f) => f,
            None => {
                proof {
                    let ders_spec = chain_ders@.map_values(|c: Vec<u8>| c@);
                    assert forall|j: int| 0 <= j < i implies crate::cert::cert_fields_of(
                        #[trigger] ders_spec[j],
                    ) is Some by {
                        assert(ders_spec[j] == chain_ders@[j]@);
                        assert(Some(chain@[j]) == crate::cert::cert_fields_of(chain_ders@[j]@));
                    }
                    assert(ders_spec[i as int] == chain_ders@[i as int]@);
                    crate::cert::lemma_parse_chain_none(ders_spec, i as int);
                }
                return Err(Error::CertChainInvalid);
            },
        };
        chain.push(fields);
        i += 1;
    }
    proof {
        let ders_spec = chain_ders@.map_values(|c: Vec<u8>| c@);
        assert forall|j: int| 0 <= j < ders_spec.len() implies Some(#[trigger] chain@[j])
            == crate::cert::cert_fields_of(ders_spec[j]) by {
            assert(ders_spec[j] == chain_ders@[j]@);
        }
        crate::cert::lemma_parse_chain_some(ders_spec, chain@);
    }
    validate_cert_chain(&chain, &root_fields, &crl_serials, current_time)?;
    if !check_chain_signatures(&chain, &root_fields) {
        return Err(Error::CertChainInvalid);
    }
    let leaf = &chain[0];
    if !crate::cert::verify_p256_signature_raw(
        &quote.signature.qe_report_raw,
        &quote.signature.qe_report_signature,
        &leaf.pubkey,
    ) {
        return Err(Error::SignatureInvalid);
    }
    let mut attestation_pk: Vec<u8> = Vec::new();
    attestation_pk.push(0x04);
    crate::output::push_all(&mut attestation_pk, &quote.signature.ecdsa_attestation_key);
    if !crate::cert::verify_p256_signature_raw(
        &quote.signed_message,
        &quote.signature.isv_enclave_report_signature,
        &attestation_pk,
    ) {
        return Err(Error::SignatureInvalid);
    }
    let leaf_ext = crate::cert::sgx_ext_bytes(&chain_ders[0]);
    let (fmspc_ext, comps, pcesvn) = match crate::der::parse_sgx_extension(&leaf_ext) {
        Some(e) => e,
        None => {
            return Err(Error::TcbEvaluationFailed);
        },
    };
    if !crate::qe::bytes_equal(&fmspc_ext, &tcb_info.fmspc) {
        return Err(Error::TcbEvaluationFailed);
    }
    if !crate::tcb::check_levels_ordered(tcb_info) {
        return Err(Error::TcbEvaluationFailed);
    }
    proof {
        assert(spec_chain_ders(*collaterals, *quote) == Some(
            chain_ders@.map_values(|c: Vec<u8>| c@),
        ));
        assert(chain_ders@.map_values(|c: Vec<u8>| c@)[0] == chain_ders@[0]@);
        assert(attestation_pk@ =~= seq![4u8] + quote.signature.ecdsa_attestation_key@);
    }
    derive_output(
        tcb_info,
        identity,
        &quote.isv_enclave_report,
        &quote.signature.qe_report,
        &comps,
        pcesvn,
    )
}

} // verus!
