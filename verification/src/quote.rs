//! The attestation quote wire format and its parser: a fixed header, an
//! enclave report body, and a trailing signature section with two
//! length-prefixed variable parts. The parser returns a typed quote or a
//! typed error; it never panics on malformed input.
use vstd::prelude::*;

use crate::Error;

verus! {

/// The fixed 48-byte quote header.
#[derive(Debug)]
pub struct QuoteHeader {
    pub version: u16,
    pub att_key_type: u16,
    pub tee_type: u32,
    pub qe_svn: u16,
    pub pce_svn: u16,
    pub qe_vendor_id: Vec<u8>,
    pub user_data: Vec<u8>,
}

/// A 384-byte enclave report: the measured identity of an enclave and its
/// 64 bytes of user report data.
#[derive(Debug)]
pub struct EnclaveReport {
    pub cpu_svn: Vec<u8>,
    pub misc_select: u32,
    pub attributes: Vec<u8>,
    pub mr_enclave: Vec<u8>,
    pub mr_signer: Vec<u8>,
    pub isv_prod_id: u16,
    pub isv_svn: u16,
    pub report_data: Vec<u8>,
}

/// The quote's signature section: the body signature, the ephemeral
/// attestation key, the embedded QE report with its own signature, and the
/// two length-prefixed trailing parts (QE authentication data and QE
/// certification data).
#[derive(Debug)]
pub struct QuoteSignatureDataV3 {
    pub isv_enclave_report_signature: Vec<u8>,
    pub ecdsa_attestation_key: Vec<u8>,
    pub qe_report: EnclaveReport,
    pub qe_report_raw: Vec<u8>,
    pub qe_report_signature: Vec<u8>,
    pub qe_auth_data: Vec<u8>,
    pub qe_cert_data_type: u16,
    pub qe_cert_data: Vec<u8>,
}

/// A parsed version-3 quote. `signed_message` keeps the first 432 raw
/// bytes (header and body), the message the body signature covers.
#[derive(Debug)]
pub struct QuoteV3 {
    pub header: QuoteHeader,
    pub isv_enclave_report: EnclaveReport,
    pub signed_message: Vec<u8>,
    pub signature: QuoteSignatureDataV3,
}

/// The little-endian 16-bit integer at offset `i`.
pub open spec fn le16(b: Seq<u8>, i: int) -> int {
    (b[i] as int) + (b[i + 1] as int) * 0x100
}

/// The little-endian 32-bit integer at offset `i`.
pub open spec fn le32(b: Seq<u8>, i: int) -> int {
    (b[i] as int) + (b[i + 1] as int) * 0x100 + (b[i + 2] as int) * 0x10000 + (b[i + 3] as int)
        * 0x1000000
}

/// The one TEE type tag a version-3 quote may carry (an SGX enclave
/// report).
pub open spec fn spec_sgx_tee_type() -> int {
    0
}

/// The error, if any, that parsing a quote of the given bytes must yield,
/// in the order the checks are made: enough bytes for the fixed sections,
/// the expected format version, the matching TEE type, and the declared
/// lengths of the signature section and of its two variable parts, each of
/// which must lie inside the buffer.
pub open spec fn spec_quote_err(b: Seq<u8>, expected_version: u16) -> Option<Error> {
    let n = b.len() as int;
    if n < 436 {
        Some(Error::TruncatedInput)
    } else if le16(b, 0) != expected_version {
        Some(Error::UnsupportedVersion)
    } else if le32(b, 4) != spec_sgx_tee_type() {
        Some(Error::MalformedQuote)
    } else {
        let sig_len = le32(b, 432);
        if sig_len > n - 436 || sig_len < 578 {
            Some(Error::TruncatedInput)
        } else {
            let auth_len = le16(b, 1012);
            if 578 + auth_len + 6 > sig_len {
                Some(Error::TruncatedInput)
            } else {
                let cert_len = le32(b, 1016 + auth_len);
                if 578 + auth_len + 6 + cert_len > sig_len {
                    Some(Error::TruncatedInput)
                } else {
                    None
                }
            }
        }
    }
}

/// The header's relation to the quote bytes.
pub open spec fn header_matches(h: QuoteHeader, b: Seq<u8>) -> bool {
    &&& h.version as int == le16(b, 0)
    &&& h.att_key_type as int == le16(b, 2)
    &&& h.tee_type as int == le32(b, 4)
    &&& h.qe_svn as int == le16(b, 8)
    &&& h.pce_svn as int == le16(b, 10)
    &&& h.qe_vendor_id@ == b.subrange(12, 28)
    &&& h.user_data@ == b.subrange(28, 48)
}

/// An enclave report's relation to its 384 bytes starting at offset `o`.
pub open spec fn report_matches(r: EnclaveReport, b: Seq<u8>, o: int) -> bool {
    &&& r.cpu_svn@ == b.subrange(o, o + 16)
    &&& r.misc_select as int == le32(b, o + 16)
    &&& r.attributes@ == b.subrange(o + 48, o + 64)
    &&& r.mr_enclave@ == b.subrange(o + 64, o + 96)
    &&& r.mr_signer@ == b.subrange(o + 128, o + 160)
    &&& r.isv_prod_id as int == le16(b, o + 256)
    &&& r.isv_svn as int == le16(b, o + 258)
    &&& r.report_data@ == b.subrange(o + 320, o + 384)
}

/// A parsed quote's relation to the quote bytes: every field equals the
/// span or the little-endian integer the wire layout assigns to it.
pub open spec fn quote_matches(q: QuoteV3, b: Seq<u8>) -> bool {
    let auth_len = le16(b, 1012);
    let cert_len = le32(b, 1016 + auth_len);
    &&& header_matches(q.header, b)
    &&& report_matches(q.isv_enclave_report, b, 48)
    &&& q.signed_message@ == b.subrange(0, 432)
    &&& q.signature.isv_enclave_report_signature@ == b.subrange(436, 500)
    &&& q.signature.ecdsa_attestation_key@ == b.subrange(500, 564)
    &&& report_matches(q.signature.qe_report, b, 564)
    &&& q.signature.qe_report_raw@ == b.subrange(564, 948)
    &&& q.signature.qe_report_signature@ == b.subrange(948, 1012)
    &&& q.signature.qe_auth_data@ == b.subrange(1014, 1014 + auth_len)
    &&& q.signature.qe_cert_data_type as int == le16(b, 1014 + auth_len)
    &&& q.signature.qe_cert_data@ == b.subrange(1020 + auth_len, 1020 + auth_len + cert_len)
}

/// Copy the bytes of `raw` from `off` to `off + n` into a fresh buffer.
pub(crate) fn read_bytes_of(raw: &Vec<u8>, off: usize, n: usize) -> (r: Vec<u8>)
    requires
        off + n <= raw@.len(),
    ensures
        r@ == raw@.subrange(off as int, off as int + n as int),
{
    proof {
        assert(raw.len() == raw@.len());
    }
    vstd::slice::slice_to_vec(vstd::slice::slice_subrange(raw.as_slice(), off, off + n))
}

/// Read the little-endian 16-bit integer at `off`.
fn read_u16(raw: &Vec<u8>, off: usize) -> (r: u16)
    requires
        off + 2 <= raw@.len(),
    ensures
        r as int == le16(raw@, off as int),
{
    proof {
        assert(raw.len() == raw@.len());
    }
    (raw[off] as u16) + (raw[off + 1] as u16) * 0x100
}

/// Read the little-endian 32-bit integer at `off`.
fn read_u32(raw: &Vec<u8>, off: usize) -> (r: u32)
    requires
        off + 4 <= raw@.len(),
    ensures
        r as int == le32(raw@, off as int),
{
    proof {
        assert(raw.len() == raw@.len());
    }
    (raw[off] as u32) + (raw[off + 1] as u32) * 0x100 + (raw[off + 2] as u32) * 0x10000 + (raw[off
        + 3] as u32) * 0x1000000
}

/// Parse the 384-byte enclave report starting at `off`.
fn parse_enclave_report(raw: &Vec<u8>, off: usize) -> (r: EnclaveReport)
    requires
        off + 384 <= raw@.len(),
    ensures
        report_matches(r, raw@, off as int),
{
    proof {
        assert(raw.len() == raw@.len());
    }
    EnclaveReport {
        cpu_svn: read_bytes_of(raw, off, 16),
        misc_select: read_u32(raw, off + 16),
        attributes: read_bytes_of(raw, off + 48, 16),
        mr_enclave: read_bytes_of(raw, off + 64, 32),
        mr_signer: read_bytes_of(raw, off + 128, 32),
        isv_prod_id: read_u16(raw, off + 256),
        isv_svn: read_u16(raw, off + 258),
        report_data: read_bytes_of(raw, off + 320, 64),
    }
}

/// Parse a raw version-3 quote. Succeeds exactly when the buffer holds the
/// expected format version, the SGX TEE type, and declared lengths that
/// stay inside the buffer; each parsed field then equals the span the wire
/// layout assigns to it. Malformed input yields a typed error, never a
/// panic.
pub fn parse_quote_v3(raw: &Vec<u8>, expected_version: u16) -> (r: Result<QuoteV3, Error>)
    ensures
        (match r {
            Ok(q) => spec_quote_err(raw@, expected_version) is None && quote_matches(q, raw@),
            Err(e) => spec_quote_err(raw@, expected_version) == Some(e),
        }),
{
    if raw.len() < 436 {
        return Err(Error::TruncatedInput);
    }
    let version = read_u16(raw, 0);
    if version != expected_version {
        return Err(Error::UnsupportedVersion);
    }
    let tee_type = read_u32(raw, 4);
    if tee_type != 0 {
        return Err(Error::MalformedQuote);
    }
    let sig_len = read_u32(raw, 432) as u64;
    if sig_len > (raw.len() - 436) as u64 || sig_len < 578 {
        return Err(Error::TruncatedInput);
    }
    let auth_len = read_u16(raw, 1012) as u64;
    if 578 + auth_len + 6 > sig_len {
        return Err(Error::TruncatedInput);
    }
    let auth_len = auth_len as usize;
    let cert_len = read_u32(raw, 1016 + auth_len) as u64;
    if 578 + (auth_len as u64) + 6 + cert_len > sig_len {
        return Err(Error::TruncatedInput);
    }
    let cert_len = cert_len as usize;
    let header = QuoteHeader {
        version,
        att_key_type: read_u16(raw, 2),
        tee_type,
        qe_svn: read_u16(raw, 8),
        pce_svn: read_u16(raw, 10),
        qe_vendor_id: read_bytes_of(raw, 12, 16),
        user_data: read_bytes_of(raw, 28, 20),
    };
    let isv_enclave_report = parse_enclave_report(raw, 48);
    let signature = QuoteSignatureDataV3 {
        isv_enclave_report_signature: read_bytes_of(raw, 436, 64),
        ecdsa_attestation_key: read_bytes_of(raw, 500, 64),
        qe_report: parse_enclave_report(raw, 564),
        qe_report_raw: read_bytes_of(raw, 564, 384),
        qe_report_signature: read_bytes_of(raw, 948, 64),
        qe_auth_data: read_bytes_of(raw, 1014, auth_len),
        qe_cert_data_type: read_u16(raw, 1014 + auth_len),
        qe_cert_data: read_bytes_of(raw, 1020 + auth_len, cert_len),
    };
    Ok(QuoteV3 { header, isv_enclave_report, signed_message: read_bytes_of(raw, 0, 432), signature })
}

} // verus!
