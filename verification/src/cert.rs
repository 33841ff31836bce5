//! Certificates as plain data: trusted decoding of DER and PEM material
//! into byte-level fields, trusted elliptic-curve signature checks, and the
//! verified validation of a certificate chain over those fields.
use vstd::prelude::*;

use p256::ecdsa::signature::Verifier;

use crate::Error;

verus! {

/// The fields of one parsed certificate, as plain values: serial number
/// bytes, raw issuer and subject names, the validity window as UNIX
/// seconds, the SEC1 public key point, and the raw to-be-signed bytes with
/// their signature.
#[derive(Debug)]
pub struct CertFields {
    pub serial: Vec<u8>,
    pub issuer: Vec<u8>,
    pub subject: Vec<u8>,
    pub not_before: u64,
    pub not_after: u64,
    pub pubkey: Vec<u8>,
    pub tbs: Vec<u8>,
    pub signature: Vec<u8>,
}

pub uninterp spec fn cert_fields_of(der: Seq<u8>) -> Option<CertFields>;

/// Relies on x509_parser::parse_x509_certificate: decodes one DER
/// certificate into its plain fields; the result depends on the input
/// bytes alone.
#[verifier::external_body]
pub(crate) fn parse_cert(der: &Vec<u8>) -> (r: Option<CertFields>)
    ensures
        r == cert_fields_of(der@),
{
    let (_, c) = x509_parser::parse_x509_certificate(der.as_slice()).ok()?;
    let t = &c.tbs_certificate;
    Some(CertFields {
        serial: t.serial.to_bytes_be(),
        issuer: t.issuer.as_raw().to_vec(),
        subject: t.subject.as_raw().to_vec(),
        not_before: u64::try_from(t.validity.not_before.timestamp()).unwrap_or(0),
        not_after: u64::try_from(t.validity.not_after.timestamp()).unwrap_or(0),
        pubkey: t.subject_pki.subject_public_key.data.to_vec(),
        tbs: t.as_ref().to_vec(),
        signature: c.signature_value.data.to_vec(),
    })
}

pub uninterp spec fn sgx_ext_of(der: Seq<u8>) -> Seq<u8>;

/// Relies on TbsCertificate::get_extension_unique (after
/// x509_parser::parse_x509_certificate): the raw value of the SGX vendor
/// extension of a DER certificate, empty when the certificate cannot be
/// read or carries no such extension; the result depends on the input
/// bytes alone.
#[verifier::external_body]
pub(crate) fn sgx_ext_bytes(der: &Vec<u8>) -> (r: Vec<u8>)
    ensures
        r@ == sgx_ext_of(der@),
{
    let Ok((_, c)) = x509_parser::parse_x509_certificate(der.as_slice()) else {
        return Vec::new();
    };
    let oid_bytes: &[u8] = &[0x2A, 0x86, 0x48, 0x86, 0xF8, 0x4D, 0x01, 0x0D, 0x01];
    let oid = x509_parser::asn1_rs::Oid::new(std::borrow::Cow::Borrowed(oid_bytes));
    match c.tbs_certificate.get_extension_unique(&oid) {
        Ok(Some(e)) => e.value.to_vec(),
        _ => Vec::new(),
    }
}

pub uninterp spec fn pem_ders_of(pem: Seq<u8>) -> Option<Seq<Seq<u8>>>;

/// Relies on x509_parser::pem::Pem::iter_from_buffer: decodes every PEM
/// block of the buffer into its DER contents, in order (none at all gives
/// the empty list); the result depends on the input bytes alone.
#[verifier::external_body]
pub(crate) fn pem_chain_to_ders(pem: &[u8]) -> (r: Option<Vec<Vec<u8>>>)
    ensures
        (match r {
            Some(v) => pem_ders_of(pem@) == Some(v@.map_values(|d: Vec<u8>| d@)),
            None => pem_ders_of(pem@) is None,
        }),
{
    let mut out: Vec<Vec<u8>> = Vec::new();
    for block in x509_parser::pem::Pem::iter_from_buffer(pem) {
        out.push(block.ok()?.contents);
    }
    Some(out)
}

/// A parsed revocation list as plain values: the raw issuer name, the raw
/// to-be-signed bytes with their signature, and the serial numbers of the
/// revoked certificates.
#[derive(Debug)]
pub struct CrlFields {
    pub issuer: Vec<u8>,
    pub tbs: Vec<u8>,
    pub signature: Vec<u8>,
    pub serials: Vec<Vec<u8>>,
}

pub uninterp spec fn crl_fields_of(der: Seq<u8>) -> Option<CrlFields>;

/// Relies on x509_parser::parse_x509_crl: decodes a DER revocation list
/// into its issuer, its signed bytes and signature, and the serial numbers
/// of its revoked certificates; the result depends on the input bytes
/// alone.
#[verifier::external_body]
pub(crate) fn parse_crl(der: &Vec<u8>) -> (r: Option<CrlFields>)
    ensures
        r == crl_fields_of(der@),
{
    let (_, crl) = x509_parser::parse_x509_crl(der.as_slice()).ok()?;
    Some(CrlFields {
        issuer: crl.tbs_cert_list.issuer.as_raw().to_vec(),
        tbs: crl.tbs_cert_list.as_ref().to_vec(),
        signature: crl.signature_value.data.to_vec(),
        serials: crl.iter_revoked_certificates().map(|c| c.user_certificate.to_bytes_be()).collect(),
    })
}

/// Whether a revocation list is authentic under the trust anchor: it names
/// the anchor's subject as its issuer and its signature verifies under the
/// anchor's key.
pub open spec fn spec_crl_ok(c: CrlFields, root: CertFields) -> bool {
    &&& c.issuer@ == root.subject@
    &&& p256_der_sig_ok(c.tbs@, c.signature@, root.pubkey@)
}

/// Check a revocation list's authenticity under the trust anchor.
pub fn check_crl(c: &CrlFields, root: &CertFields) -> (r: bool)
    ensures
        r == spec_crl_ok(*c, *root),
{
    crate::qe::bytes_equal(&c.issuer, &root.subject) && verify_p256_signature_der(
        &c.tbs,
        &c.signature,
        &root.pubkey,
    )
}

/// The certificates of a DER list, each decoded into its plain fields;
/// `None` when any of them cannot be read.
pub open spec fn spec_parse_chain(ders: Seq<Seq<u8>>) -> Option<Seq<CertFields>>
    decreases ders.len(),
{
    if ders.len() == 0 {
        Some(Seq::empty())
    } else {
        match cert_fields_of(ders[0]) {
            Some(f) => match spec_parse_chain(ders.drop_first()) {
                Some(rest) => Some(seq![f] + rest),
                None => None,
            },
            None => None,
        }
    }
}

/// A list whose certificates all decode has `spec_parse_chain` equal to
/// exactly those decoded fields.
pub proof fn lemma_parse_chain_some(ders: Seq<Seq<u8>>, fields: Seq<CertFields>)
    requires
        fields.len() == ders.len(),
        forall|j: int|
            0 <= j < ders.len() ==> Some(#[trigger] fields[j]) == cert_fields_of(ders[j]),
    ensures
        spec_parse_chain(ders) == Some(fields),
    decreases ders.len(),
{
    if ders.len() == 0 {
        assert(fields =~= Seq::<CertFields>::empty());
    } else {
        lemma_parse_chain_some(ders.drop_first(), fields.drop_first());
        assert forall|j: int| 0 <= j < ders.drop_first().len() implies Some(
            #[trigger] fields.drop_first()[j],
        ) == cert_fields_of(ders.drop_first()[j]) by {
            assert(fields.drop_first()[j] == fields[j + 1]);
            assert(ders.drop_first()[j] == ders[j + 1]);
        }
        assert(fields =~= seq![fields[0]] + fields.drop_first());
    }
}

/// A list with an undecodable certificate, every one before it decoding,
/// has no `spec_parse_chain` result.
pub proof fn lemma_parse_chain_none(ders: Seq<Seq<u8>>, k: int)
    requires
        0 <= k < ders.len(),
        cert_fields_of(ders[k]) is None,
        forall|j: int| 0 <= j < k ==> cert_fields_of(#[trigger] ders[j]) is Some,
    ensures
        spec_parse_chain(ders) is None,
    decreases ders.len(),
{
    if k == 0 {
    } else {
        assert forall|j: int| 0 <= j < k - 1 implies cert_fields_of(
            #[trigger] ders.drop_first()[j],
        ) is Some by {
            assert(ders.drop_first()[j] == ders[j + 1]);
        }
        assert(ders.drop_first()[k - 1] == ders[k]);
        lemma_parse_chain_none(ders.drop_first(), k - 1);
    }
}

/// The validity-window failure of one certificate at one instant, if any:
/// a window is inclusive at both ends, so an end equal to the instant is
/// still valid.
pub open spec fn spec_window_err(c: CertFields, t: u64) -> Option<Error> {
    if t < c.not_before {
        Some(Error::CertNotYetValid)
    } else if t > c.not_after {
        Some(Error::CertExpired)
    } else {
        None
    }
}

/// Whether the certificate's serial number appears among the revoked
/// serials.
pub open spec fn spec_revoked(c: CertFields, crl: Seq<Seq<u8>>) -> bool {
    exists|k: int| 0 <= k < crl.len() && crl[k] == c.serial@
}

/// Whether `c` names `issuer`'s subject as its issuer.
pub open spec fn spec_linked(c: CertFields, issuer: CertFields) -> bool {
    c.issuer@ == issuer.subject@
}

/// The first failure along the chain, leaf first, each certificate checked
/// in the order validity window, revocation, issuer linkage; the last
/// chain certificate must link to the anchor.
pub open spec fn spec_links_err(
    chain: Seq<CertFields>,
    root: CertFields,
    crl: Seq<Seq<u8>>,
    t: u64,
) -> Option<Error>
    decreases chain.len(),
{
    if chain.len() == 0 {
        None
    } else if spec_window_err(chain[0], t) is Some {
        spec_window_err(chain[0], t)
    } else if spec_revoked(chain[0], crl) {
        Some(Error::CertRevoked)
    } else if !spec_linked(chain[0], if chain.len() > 1 {
        chain[1]
    } else {
        root
    }) {
        Some(Error::CertChainInvalid)
    } else {
        spec_links_err(chain.drop_first(), root, crl, t)
    }
}

/// The outcome of validating a chain against an anchor: an empty chain is
/// invalid, the anchor's own window must contain the instant, and then the
/// chain is walked leaf first.
pub open spec fn spec_validate_chain(
    chain: Seq<CertFields>,
    root: CertFields,
    crl: Seq<Seq<u8>>,
    t: u64,
) -> Option<Error> {
    if chain.len() == 0 {
        Some(Error::CertChainInvalid)
    } else if spec_window_err(root, t) is Some {
        spec_window_err(root, t)
    } else {
        spec_links_err(chain, root, crl, t)
    }
}

/// Whether one buffer appears in a list of buffers.
pub(crate) fn contains_bytes(list: &Vec<Vec<u8>>, needle: &Vec<u8>) -> (r: bool)
    ensures
        r == exists|k: int| 0 <= k < list@.len() && list@[k]@ == needle@,
{
    let n = list.len();
    let mut i: usize = 0;
    while i < n
        invariant
            n == list@.len(),
            i <= n,
            forall|k: int| 0 <= k < i ==> list@[k]@ != needle@,
        decreases n - i,
    {
        if crate::qe::bytes_equal(&list[i], needle) {
            return true;
        }
        i += 1;
    }
    false
}

/// Validate a certificate chain, leaf first, against a trust anchor at one
/// instant: every certificate's validity window must contain the instant
/// (inclusive at both ends), no chain certificate's serial may appear on
/// the revocation list, and each certificate's issuer must be the subject
/// of the next one, terminating at the anchor. The first failure, walking
/// the chain leaf first, is the error.
pub fn validate_cert_chain(
    chain: &Vec<CertFields>,
    root: &CertFields,
    crl_serials: &Vec<Vec<u8>>,
    current_time: u64,
) -> (r: Result<(), Error>)
    ensures
        (match r {
            Ok(()) => spec_validate_chain(
                chain@,
                *root,
                crl_serials@.map_values(|s: Vec<u8>| s@),
                current_time,
            ) is None,
            Err(e) => spec_validate_chain(
                chain@,
                *root,
                crl_serials@.map_values(|s: Vec<u8>| s@),
                current_time,
            ) == Some(e),
        }),
{
    let ghost crl = crl_serials@.map_values(|s: Vec<u8>| s@);
    let n = chain.len();
    if n == 0 {
        return Err(Error::CertChainInvalid);
    }
    if current_time < root.not_before {
        return Err(Error::CertNotYetValid);
    }
    if current_time > root.not_after {
        return Err(Error::CertExpired);
    }
    let mut i: usize = 0;
    proof {
        assert(chain@.skip(0) =~= chain@);
    }
    while i < n
        invariant
            n == chain@.len(),
            n > 0,
            i <= n,
            crl == crl_serials@.map_values(|s: Vec<u8>| s@),
            spec_window_err(*root, current_time) is None,
            spec_links_err(chain@, *root, crl, current_time) == spec_links_err(
                chain@.skip(i as int),
                *root,
                crl,
                current_time,
            ),
        decreases n - i,
    {
        proof {
            assert(chain@.skip(i as int)[0] == chain@[i as int]);
        }
        let c = &chain[i];
        if current_time < c.not_before {
            return Err(Error::CertNotYetValid);
        }
        if current_time > c.not_after {
            return Err(Error::CertExpired);
        }
        if contains_bytes(crl_serials, &c.serial) {
            proof {
                let k = choose|k: int| 0 <= k < crl_serials@.len() && crl_serials@[k]@ == c.serial@;
                assert(crl[k] == c.serial@);
            }
            return Err(Error::CertRevoked);
        }
        proof {
            assert(!spec_revoked(chain@[i as int], crl)) by {
                assert forall|k: int| 0 <= k < crl.len() implies crl[k] != chain@[i as int].serial@
                by {
                    assert(crl[k] == crl_serials@[k]@);
                }
            }
        }
        let linked = if i + 1 < n {
            proof {
                assert(chain@.skip(i as int)[1] == chain@[i as int + 1]);
            }
            crate::qe::bytes_equal(&c.issuer, &chain[i + 1].subject)
        } else {
            crate::qe::bytes_equal(&c.issuer, &root.subject)
        };
        if !linked {
            return Err(Error::CertChainInvalid);
        }
        proof {
            assert(chain@.skip(i as int).drop_first() =~= chain@.skip(i as int + 1));
        }
        i += 1;
    }
    proof {
        assert(chain@.skip(n as int) =~= Seq::<CertFields>::empty());
    }
    Ok(())
}

/// Whether the signature of the chain certificate at `i` verifies under
/// the public key of the next certificate (the anchor, for the last one).
pub open spec fn link_sig_ok(chain: Seq<CertFields>, root: CertFields, i: int) -> bool {
    p256_der_sig_ok(
        chain[i].tbs@,
        chain[i].signature@,
        if i + 1 < chain.len() {
            chain[i + 1].pubkey@
        } else {
            root.pubkey@
        },
    )
}

/// Whether every signature along the chain verifies under its issuer's
/// key, terminating at the anchor.
pub open spec fn spec_chain_sigs_ok(chain: Seq<CertFields>, root: CertFields) -> bool {
    forall|i: int| 0 <= i < chain.len() ==> #[trigger] link_sig_ok(chain, root, i)
}

/// Check every signature along the chain, leaf first, under the next
/// certificate's public key, the anchor's for the last.
pub fn check_chain_signatures(chain: &Vec<CertFields>, root: &CertFields) -> (r: bool)
    ensures
        r == spec_chain_sigs_ok(chain@, *root),
{
    let n = chain.len();
    let mut i: usize = 0;
    while i < n
        invariant
            n == chain@.len(),
            i <= n,
            forall|j: int| 0 <= j < i ==> #[trigger] link_sig_ok(chain@, *root, j),
        decreases n - i,
    {
        let ok = if i + 1 < n {
            verify_p256_signature_der(&chain[i].tbs, &chain[i].signature, &chain[i + 1].pubkey)
        } else {
            verify_p256_signature_der(&chain[i].tbs, &chain[i].signature, &root.pubkey)
        };
        if !ok {
            proof {
                assert(!link_sig_ok(chain@, *root, i as int));
            }
            return false;
        }
        i += 1;
    }
    true
}

pub uninterp spec fn p256_raw_sig_ok(msg: Seq<u8>, sig: Seq<u8>, pk: Seq<u8>) -> bool;

/// Relies on p256::ecdsa::VerifyingKey::verify with a fixed-width 64-byte
/// signature and a SEC1-encoded public key point: whether the ECDSA P-256
/// signature over the SHA-256 digest of the message verifies;
/// deterministic in its arguments.
#[verifier::external_body]
pub(crate) fn verify_p256_signature_raw(msg: &Vec<u8>, sig: &Vec<u8>, pk: &Vec<u8>) -> (r: bool)
    ensures
        r == p256_raw_sig_ok(msg@, sig@, pk@),
{
    let Ok(vk) = p256::ecdsa::VerifyingKey::from_sec1_bytes(pk.as_slice()) else {
        return false;
    };
    let Ok(s) = p256::ecdsa::Signature::from_slice(sig.as_slice()) else {
        return false;
    };
    vk.verify(msg.as_slice(), &s).is_ok()
}

pub uninterp spec fn p256_der_sig_ok(msg: Seq<u8>, sig: Seq<u8>, pk: Seq<u8>) -> bool;

/// Relies on p256::ecdsa::VerifyingKey::verify with a DER-encoded
/// signature and a SEC1-encoded public key point: whether the ECDSA P-256
/// signature over the SHA-256 digest of the message verifies;
/// deterministic in its arguments.
#[verifier::external_body]
pub(crate) fn verify_p256_signature_der(msg: &Vec<u8>, sig: &Vec<u8>, pk: &Vec<u8>) -> (r: bool)
    ensures
        r == p256_der_sig_ok(msg@, sig@, pk@),
{
    let Ok(vk) = p256::ecdsa::VerifyingKey::from_sec1_bytes(pk.as_slice()) else {
        return false;
    };
    let Ok(s) = p256::ecdsa::Signature::from_der(sig.as_slice()) else {
        return false;
    };
    vk.verify(msg.as_slice(), &s).is_ok()
}

} // verus!
