use dcap_verify::quote::parse_quote_v3;
use dcap_verify::Error;

fn le16(v: u16) -> Vec<u8> {
    v.to_le_bytes().to_vec()
}

fn le32(v: u32) -> Vec<u8> {
    v.to_le_bytes().to_vec()
}

fn report(mr_enclave: u8, mr_signer: u8, prodid: u16, isvsvn: u16, rd: u8) -> Vec<u8> {
    let mut b = Vec::new();
    b.extend_from_slice(&[7u8; 16]);
    b.extend_from_slice(&le32(0));
    b.extend_from_slice(&[0u8; 28]);
    b.extend_from_slice(&[1u8; 16]);
    b.extend_from_slice(&[mr_enclave; 32]);
    b.extend_from_slice(&[0u8; 32]);
    b.extend_from_slice(&[mr_signer; 32]);
    b.extend_from_slice(&[0u8; 96]);
    b.extend_from_slice(&le16(prodid));
    b.extend_from_slice(&le16(isvsvn));
    b.extend_from_slice(&[0u8; 60]);
    b.extend_from_slice(&[rd; 64]);
    assert_eq!(b.len(), 384);
    b
}

fn build_quote(version: u16, tee_type: u32) -> Vec<u8> {
    let mut q = Vec::new();
    q.extend_from_slice(&le16(version));
    q.extend_from_slice(&le16(2));
    q.extend_from_slice(&le32(tee_type));
    q.extend_from_slice(&le16(1));
    q.extend_from_slice(&le16(2));
    q.extend_from_slice(&[0x33u8; 16]);
    q.extend_from_slice(&[0x44u8; 20]);
    q.extend_from_slice(&report(0xAA, 0xBB, 9, 11, 0xCC));
    let auth = [1u8, 2, 3, 4];
    let cert_data = [0x55u8; 10];
    let mut sig = Vec::new();
    sig.extend_from_slice(&[0x61u8; 64]);
    sig.extend_from_slice(&[0x62u8; 64]);
    sig.extend_from_slice(&report(0xEE, 0xDD, 1, 2, 0x11));
    sig.extend_from_slice(&[0x63u8; 64]);
    sig.extend_from_slice(&le16(auth.len() as u16));
    sig.extend_from_slice(&auth);
    sig.extend_from_slice(&le16(5));
    sig.extend_from_slice(&le32(cert_data.len() as u32));
    sig.extend_from_slice(&cert_data);
    q.extend_from_slice(&le32(sig.len() as u32));
    q.extend_from_slice(&sig);
    q
}

#[test]
fn parse_extracts_every_field() {
    let raw = build_quote(3, 0);
    let q = parse_quote_v3(&raw, 3).unwrap();
    assert_eq!(q.header.version, 3);
    assert_eq!(q.header.att_key_type, 2);
    assert_eq!(q.header.tee_type, 0);
    assert_eq!(q.header.qe_svn, 1);
    assert_eq!(q.header.pce_svn, 2);
    assert_eq!(q.header.qe_vendor_id, vec![0x33; 16]);
    assert_eq!(q.header.user_data, vec![0x44; 20]);
    assert_eq!(q.isv_enclave_report.mr_enclave, vec![0xAA; 32]);
    assert_eq!(q.isv_enclave_report.mr_signer, vec![0xBB; 32]);
    assert_eq!(q.isv_enclave_report.isv_prod_id, 9);
    assert_eq!(q.isv_enclave_report.isv_svn, 11);
    assert_eq!(q.isv_enclave_report.report_data, vec![0xCC; 64]);
    assert_eq!(q.signed_message, raw[0..432].to_vec());
    assert_eq!(q.signature.isv_enclave_report_signature, vec![0x61; 64]);
    assert_eq!(q.signature.ecdsa_attestation_key, vec![0x62; 64]);
    assert_eq!(q.signature.qe_report.mr_signer, vec![0xDD; 32]);
    assert_eq!(q.signature.qe_report.isv_prod_id, 1);
    assert_eq!(q.signature.qe_report.isv_svn, 2);
    assert_eq!(q.signature.qe_report_signature, vec![0x63; 64]);
    assert_eq!(q.signature.qe_auth_data, vec![1, 2, 3, 4]);
    assert_eq!(q.signature.qe_cert_data_type, 5);
    assert_eq!(q.signature.qe_cert_data, vec![0x55; 10]);
}

#[test]
fn wrong_version_is_rejected() {
    let raw = build_quote(4, 0);
    assert_eq!(parse_quote_v3(&raw, 3).unwrap_err(), Error::UnsupportedVersion);
    let raw3 = build_quote(3, 0);
    assert_eq!(parse_quote_v3(&raw3, 4).unwrap_err(), Error::UnsupportedVersion);
}

#[test]
fn wrong_tee_type_is_rejected() {
    let raw = build_quote(3, 0x81);
    assert_eq!(parse_quote_v3(&raw, 3).unwrap_err(), Error::MalformedQuote);
}

#[test]
fn truncation_anywhere_yields_a_typed_error() {
    let raw = build_quote(3, 0);
    for cut in [0, 1, 47, 48, 431, 432, 435, 436, 500, 948, 1012, 1013, 1016, raw.len() - 1] {
        let short = raw[0..cut].to_vec();
        let err = parse_quote_v3(&short, 3).unwrap_err();
        assert!(
            err == Error::TruncatedInput,
            "cut at {} gave {:?}",
            cut,
            err
        );
    }
}

#[test]
fn oversized_declared_lengths_are_rejected() {
    let mut raw = build_quote(3, 0);
    let sig_len = u32::from_le_bytes([raw[432], raw[433], raw[434], raw[435]]);
    raw[432..436].copy_from_slice(&(sig_len + 1).to_le_bytes());
    assert_eq!(parse_quote_v3(&raw, 3).unwrap_err(), Error::TruncatedInput);

    let mut raw = build_quote(3, 0);
    raw[1012..1014].copy_from_slice(&u16::MAX.to_le_bytes());
    assert_eq!(parse_quote_v3(&raw, 3).unwrap_err(), Error::TruncatedInput);

    let mut raw = build_quote(3, 0);
    let auth_len = u16::from_le_bytes([raw[1012], raw[1013]]) as usize;
    let cert_len_off = 1016 + auth_len;
    raw[cert_len_off..cert_len_off + 4].copy_from_slice(&u32::MAX.to_le_bytes());
    assert_eq!(parse_quote_v3(&raw, 3).unwrap_err(), Error::TruncatedInput);
}

#[test]
fn empty_and_tiny_inputs_are_rejected() {
    assert_eq!(parse_quote_v3(&Vec::new(), 3).unwrap_err(), Error::TruncatedInput);
    assert_eq!(parse_quote_v3(&vec![3, 0], 3).unwrap_err(), Error::TruncatedInput);
}
