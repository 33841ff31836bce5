//! A small DER reader: tag-length-value headers, splitting a buffer of
//! concatenated certificates, and the SGX vendor extension that carries
//! the platform's FMSPC and TCB component versions.
use vstd::prelude::*;

verus! {

/// The DER header at offset `i` inside `[i, end)`: the content's start and
/// length, for short-form lengths and long forms of one or two length
/// bytes; `None` when the header or its content reaches past `end`.
pub open spec fn spec_hdr(b: Seq<u8>, i: int, end: int) -> Option<(int, int)> {
    if i + 2 > end {
        None
    } else {
        let l0 = b[i + 1] as int;
        if l0 < 0x80 {
            if i + 2 + l0 <= end {
                Some((i + 2, l0))
            } else {
                None
            }
        } else if l0 == 0x81 {
            if i + 3 <= end && i + 3 + (b[i + 2] as int) <= end {
                Some((i + 3, b[i + 2] as int))
            } else {
                None
            }
        } else if l0 == 0x82 {
            if i + 4 <= end && i + 4 + (b[i + 2] as int) * 0x100 + (b[i + 3] as int) <= end {
                Some((i + 4, (b[i + 2] as int) * 0x100 + (b[i + 3] as int)))
            } else {
                None
            }
        } else {
            None
        }
    }
}

/// Read the DER header at `i` inside `[i, end)`.
pub(crate) fn read_hdr(b: &Vec<u8>, i: usize, end: usize) -> (r: Option<(usize, usize)>)
    requires
        end <= b@.len(),
        i <= end,
    ensures
        (match r {
            Some((cs, cl)) => {
                &&& spec_hdr(b@, i as int, end as int) == Some((cs as int, cl as int))
                &&& i < cs
                &&& cs + cl <= end
            },
            None => spec_hdr(b@, i as int, end as int) is None,
        }),
{
    proof {
        assert(b.len() == b@.len());
    }
    if end - i < 2 {
        return None;
    }
    let l0 = b[i + 1];
    if l0 < 0x80 {
        if (l0 as usize) <= end - (i + 2) {
            Some((i + 2, l0 as usize))
        } else {
            None
        }
    } else if l0 == 0x81 {
        if end - i < 3 {
            return None;
        }
        let l = b[i + 2] as usize;
        if l <= end - (i + 3) {
            Some((i + 3, l))
        } else {
            None
        }
    } else if l0 == 0x82 {
        if end - i < 4 {
            return None;
        }
        let l = (b[i + 2] as usize) * 0x100 + (b[i + 3] as usize);
        if l <= end - (i + 4) {
            Some((i + 4, l))
        } else {
            None
        }
    } else {
        None
    }
}

/// The buffer from `i` on, split into consecutive complete DER SEQUENCE
/// elements; `None` when anything other than such an element follows.
pub open spec fn spec_split_der(b: Seq<u8>, i: int) -> Option<Seq<Seq<u8>>>
    decreases b.len() - i,
{
    if i == b.len() {
        Some(Seq::empty())
    } else {
        match spec_hdr(b, i, b.len() as int) {
            Some((cs, cl)) => {
                if b[i] == 0x30 {
                    match spec_split_der(b, cs + cl) {
                        Some(rest) => Some(seq![b.subrange(i, cs + cl)] + rest),
                        None => None,
                    }
                } else {
                    None
                }
            },
            None => None,
        }
    }
}

/// Split a buffer of concatenated DER certificates into the certificates,
/// in order; `None` when the buffer is not exactly a run of complete DER
/// SEQUENCE elements.
pub fn split_der_certs(der: &Vec<u8>) -> (r: Option<Vec<Vec<u8>>>)
    ensures
        (match r {
            Some(v) => spec_split_der(der@, 0) == Some(v@.map_values(|c: Vec<u8>| c@)),
            None => spec_split_der(der@, 0) is None,
        }),
{
    proof {
        assert(der.len() == der@.len());
    }
    let n = der.len();
    let mut out: Vec<Vec<u8>> = Vec::new();
    let mut pos: usize = 0;
    while pos < n
        invariant
            n == der@.len(),
            pos <= n,
            (match spec_split_der(der@, pos as int) {
                Some(rest) => spec_split_der(der@, 0) == Some(
                    out@.map_values(|c: Vec<u8>| c@) + rest,
                ),
                None => spec_split_der(der@, 0) is None,
            }),
        decreases n - pos,
    {
        let hdr = read_hdr(der, pos, n);
        match hdr {
            Some((cs, cl)) => {
                if der[pos] != 0x30 {
                    return None;
                }
                let ghost prev = out@.map_values(|c: Vec<u8>| c@);
                let piece = crate::quote::read_bytes_of(der, pos, cs + cl - pos);
                out.push(piece);
                proof {
                    assert(out@.map_values(|c: Vec<u8>| c@) =~= prev + seq![
                        der@.subrange(pos as int, cs as int + cl as int),
                    ]);
                    let sp = spec_split_der(der@, cs as int + cl as int);
                    if sp is Some {
                        let r2 = sp->0;
                        assert(prev + (seq![
                            der@.subrange(pos as int, cs as int + cl as int),
                        ] + r2) =~= (prev + seq![
                            der@.subrange(pos as int, cs as int + cl as int),
                        ]) + r2);
                    }
                }
                pos = cs + cl;
            },
            None => {
                return None;
            },
        }
    }
    proof {
        assert(out@.map_values(|c: Vec<u8>| c@) + Seq::<Seq<u8>>::empty() =~= out@.map_values(
            |c: Vec<u8>| c@,
        ));
    }
    Some(out)
}

/// The DER OID content naming the SGX TCB entry of the vendor extension.
pub open spec fn tcb_oid() -> Seq<u8> {
    seq![0x2A, 0x86, 0x48, 0x86, 0xF8, 0x4D, 0x01, 0x0D, 0x01, 0x02]
}

/// The DER OID content naming the FMSPC entry of the vendor extension.
pub open spec fn fmspc_oid() -> Seq<u8> {
    seq![0x2A, 0x86, 0x48, 0x86, 0xF8, 0x4D, 0x01, 0x0D, 0x01, 0x04]
}

/// The value of a big-endian DER INTEGER content of one to three bytes.
pub open spec fn spec_be_int(b: Seq<u8>, cs: int, cl: int) -> int {
    if cl == 1 {
        b[cs] as int
    } else if cl == 2 {
        (b[cs] as int) * 0x100 + (b[cs + 1] as int)
    } else if cl == 3 {
        (b[cs] as int) * 0x10000 + (b[cs + 1] as int) * 0x100 + (b[cs + 2] as int)
    } else {
        -1
    }
}

/// Scan the extension entries in `[i, end)` for the one whose OID content
/// is `oid`: each entry is a SEQUENCE holding an OID and a value; the
/// result is the start of the value element and the entry's end.
pub open spec fn spec_find_entry(b: Seq<u8>, i: int, end: int, oid: Seq<u8>) -> Option<(int, int)>
    decreases end - i,
{
    if i >= end {
        None
    } else {
        match spec_hdr(b, i, end) {
            Some((cs, cl)) => {
                if b[i] != 0x30 {
                    None
                } else {
                    match spec_hdr(b, cs, cs + cl) {
                        Some((ocs, ocl)) => {
                            if b[cs] != 0x06 {
                                None
                            } else if b.subrange(ocs, ocs + ocl) == oid {
                                Some((ocs + ocl, cs + cl))
                            } else {
                                spec_find_entry(b, cs + cl, end, oid)
                            }
                        },
                        None => None,
                    }
                }
            },
            None => None,
        }
    }
}

/// Find the extension entry with the given OID content in `[i, end)`.
pub(crate) fn find_entry(b: &Vec<u8>, i: usize, end: usize, oid: &Vec<u8>) -> (r: Option<(usize, usize)>)
    requires
        end <= b@.len(),
        i <= end,
    ensures
        (match r {
            Some((vs, ve)) => {
                &&& spec_find_entry(b@, i as int, end as int, oid@) == Some((vs as int, ve as int))
                &&& vs <= ve <= end
            },
            None => spec_find_entry(b@, i as int, end as int, oid@) is None,
        }),
{
    proof {
        assert(b.len() == b@.len());
    }
    let mut pos: usize = i;
    while pos < end
        invariant
            end <= b@.len(),
            pos <= end,
            spec_find_entry(b@, i as int, end as int, oid@) == spec_find_entry(
                b@,
                pos as int,
                end as int,
                oid@,
            ),
        decreases end - pos,
    {
        let hdr = read_hdr(b, pos, end);
        match hdr {
            Some((cs, cl)) => {
                if b[pos] != 0x30 {
                    return None;
                }
                let ohdr = read_hdr(b, cs, cs + cl);
                match ohdr {
                    Some((ocs, ocl)) => {
                        if b[cs] != 0x06 {
                            return None;
                        }
                        let oid_here = crate::quote::read_bytes_of(b, ocs, ocl);
                        if crate::qe::bytes_equal(&oid_here, oid) {
                            return Some((ocs + ocl, cs + cl));
                        }
                        pos = cs + cl;
                    },
                    None => {
                        return None;
                    },
                }
            },
            None => {
                return None;
            },
        }
    }
    None
}

/// The TCB entries `k` through 17 read from exactly `[i, end)`: each a
/// SEQUENCE of the OID for component `k` and an INTEGER below 2^16, in
/// ascending component order with nothing in between or after.
pub open spec fn spec_tcb_comps(b: Seq<u8>, i: int, end: int, k: int) -> Option<Seq<int>>
    decreases 18 - k,
{
    if k >= 18 {
        if i == end {
            Some(Seq::empty())
        } else {
            None
        }
    } else {
        match spec_hdr(b, i, end) {
            Some((cs, cl)) => {
                if b[i] != 0x30 || i + 2 != cs {
                    None
                } else {
                    match spec_hdr(b, cs, cs + cl) {
                        Some((ocs, ocl)) => {
                            if b[cs] != 0x06 || b.subrange(ocs, ocs + ocl) != tcb_oid().push(
                                k as u8,
                            ) {
                                None
                            } else {
                                match spec_hdr(b, ocs + ocl, cs + cl) {
                                    Some((vs, vl)) => {
                                        if b[ocs + ocl] != 0x02 || vs + vl != cs + cl || !(1 <= vl
                                            <= 3) || !(0 <= spec_be_int(b, vs, vl) < 0x10000) {
                                            None
                                        } else {
                                            match spec_tcb_comps(b, cs + cl, end, k + 1) {
                                                Some(rest) => Some(
                                                    seq![spec_be_int(b, vs, vl)] + rest,
                                                ),
                                                None => None,
                                            }
                                        }
                                    },
                                    None => None,
                                }
                            }
                        },
                        None => None,
                    }
                }
            },
            None => None,
        }
    }
}

/// Read the 17 TCB component INTEGERs filling exactly `[i, end)`.
pub(crate) fn read_tcb_comps(b: &Vec<u8>, i: usize, end: usize) -> (r: Option<Vec<u16>>)
    requires
        end <= b@.len(),
        i <= end,
    ensures
        (match r {
            Some(v) => spec_tcb_comps(b@, i as int, end as int, 1) == Some(
                v@.map_values(|x: u16| x as int),
            ) && v@.len() == 17,
            None => spec_tcb_comps(b@, i as int, end as int, 1) is None,
        }),
{
    proof {
        assert(b.len() == b@.len());
    }
    let mut out: Vec<u16> = Vec::new();
    let mut pos: usize = i;
    let mut k: usize = 1;
    while k < 18
        invariant
            end <= b@.len(),
            pos <= end,
            1 <= k <= 18,
            out@.len() == k - 1,
            (match spec_tcb_comps(b@, pos as int, end as int, k as int) {
                Some(rest) => spec_tcb_comps(b@, i as int, end as int, 1) == Some(
                    out@.map_values(|x: u16| x as int) + rest,
                ),
                None => spec_tcb_comps(b@, i as int, end as int, 1) is None,
            }),
        decreases 18 - k,
    {
        let hdr = read_hdr(b, pos, end);
        let Some((cs, cl)) = hdr else {
            return None;
        };
        if b[pos] != 0x30 || pos + 2 != cs {
            return None;
        }
        let ohdr = read_hdr(b, cs, cs + cl);
        let Some((ocs, ocl)) = ohdr else {
            return None;
        };
        let oid_here = crate::quote::read_bytes_of(b, ocs, ocl);
        let mut want: Vec<u8> = tcb_oid_bytes();
        want.push(k as u8);
        proof {
            assert(want@ =~= tcb_oid().push(k as u8));
        }
        if b[cs] != 0x06 || !crate::qe::bytes_equal(&oid_here, &want) {
            return None;
        }
        let vhdr = read_hdr(b, ocs + ocl, cs + cl);
        let Some((vs, vl)) = vhdr else {
            return None;
        };
        if b[ocs + ocl] != 0x02 || vs + vl != cs + cl || vl < 1 || vl > 3 {
            return None;
        }
        let value: u32 = if vl == 1 {
            b[vs] as u32
        } else if vl == 2 {
            (b[vs] as u32) * 0x100 + (b[vs + 1] as u32)
        } else {
            (b[vs] as u32) * 0x10000 + (b[vs + 1] as u32) * 0x100 + (b[vs + 2] as u32)
        };
        if value >= 0x10000 {
            return None;
        }
        let ghost prev = out@.map_values(|x: u16| x as int);
        out.push(value as u16);
        proof {
            assert(out@.map_values(|x: u16| x as int) =~= prev + seq![
                spec_be_int(b@, vs as int, vl as int),
            ]);
            let sp = spec_tcb_comps(b@, cs as int + cl as int, end as int, k as int + 1);
            if sp is Some {
                let r2 = sp->0;
                assert(prev + (seq![spec_be_int(b@, vs as int, vl as int)] + r2) =~= (prev + seq![
                    spec_be_int(b@, vs as int, vl as int),
                ]) + r2);
            }
        }
        pos = cs + cl;
        k += 1;
    }
    if pos != end {
        return None;
    }
    proof {
        assert(out@.map_values(|x: u16| x as int) + Seq::<int>::empty() =~= out@.map_values(
            |x: u16| x as int,
        ));
    }
    Some(out)
}

/// The FMSPC OID content as a buffer.
pub(crate) fn fmspc_oid_bytes() -> (r: Vec<u8>)
    ensures
        r@ == fmspc_oid(),
{
    let mut v: Vec<u8> = Vec::new();
    v.push(0x2A);
    v.push(0x86);
    v.push(0x48);
    v.push(0x86);
    v.push(0xF8);
    v.push(0x4D);
    v.push(0x01);
    v.push(0x0D);
    v.push(0x01);
    v.push(0x04);
    proof {
        assert(v@ =~= fmspc_oid());
    }
    v
}

/// The TCB OID content as a buffer.
pub(crate) fn tcb_oid_bytes() -> (r: Vec<u8>)
    ensures
        r@ == tcb_oid(),
{
    let mut v: Vec<u8> = Vec::new();
    v.push(0x2A);
    v.push(0x86);
    v.push(0x48);
    v.push(0x86);
    v.push(0xF8);
    v.push(0x4D);
    v.push(0x01);
    v.push(0x0D);
    v.push(0x01);
    v.push(0x02);
    proof {
        assert(v@ =~= tcb_oid());
    }
    v
}

/// What the SGX vendor extension of a PCK certificate yields: the 6-byte
/// FMSPC, the 16 TCB component versions, and the PCE security version.
/// The extension must be one SEQUENCE spanning the whole buffer; the FMSPC
/// entry must hold an OCTET STRING of exactly 6 bytes filling its entry;
/// the TCB entry must hold a SEQUENCE of the 17 component INTEGERs, the
/// first 16 of which must fit a byte, the last being the PCE version.
pub open spec fn spec_sgx_ext(b: Seq<u8>) -> Option<(Seq<u8>, Seq<u8>, u16)> {
    let n = b.len() as int;
    match spec_hdr(b, 0, n) {
        Some((cs, cl)) => {
            if b[0] != 0x30 || cs + cl != n {
                None
            } else {
                match spec_find_entry(b, cs, cs + cl, fmspc_oid()) {
                    Some((fvs, fve)) => {
                        match spec_hdr(b, fvs, fve) {
                            Some((fcs, fcl)) => {
                                if b[fvs] != 0x04 || fcl != 6 || fcs + fcl != fve {
                                    None
                                } else {
                                    match spec_find_entry(b, cs, cs + cl, tcb_oid()) {
                                        Some((tvs, tve)) => {
                                            match spec_hdr(b, tvs, tve) {
                                                Some((tcs, tcl)) => {
                                                    if b[tvs] != 0x30 || tcs + tcl != tve {
                                                        None
                                                    } else {
                                                        match spec_tcb_comps(b, tcs, tcs + tcl, 1) {
                                                            Some(vals) => {
                                                                if forall|j: int|
                                                                    0 <= j < 16 ==> 0 <= #[trigger] vals[j] < 0x100 {
                                                                    Some(
                                                                        (
                                                                            b.subrange(fcs, fcs + 6),
                                                                            Seq::new(16, |j: int| vals[j] as u8),
                                                                            vals[16] as u16,
                                                                        ),
                                                                    )
                                                                } else {
                                                                    None
                                                                }
                                                            },
                                                            None => None,
                                                        }
                                                    }
                                                },
                                                None => None,
                                            }
                                        },
                                        None => None,
                                    }
                                }
                            },
                            None => None,
                        }
                    },
                    None => None,
                }
            }
        },
        None => None,
    }
}

/// Parse the SGX vendor extension of a PCK certificate into the FMSPC, the
/// 16 TCB component versions, and the PCE security version.
#[verifier::loop_isolation(false)]
pub fn parse_sgx_extension(ext: &Vec<u8>) -> (r: Option<(Vec<u8>, Vec<u8>, u16)>)
    ensures
        (match r {
            Some((fmspc, comps, pcesvn)) => {
                &&& spec_sgx_ext(ext@) == Some((fmspc@, comps@, pcesvn))
                &&& fmspc@.len() == 6
                &&& comps@.len() == 16
            },
            None => spec_sgx_ext(ext@) is None,
        }),
{
    proof {
        assert(ext.len() == ext@.len());
    }
    let n = ext.len();
    let hdr = read_hdr(ext, 0, n);
    let Some((cs, cl)) = hdr else {
        return None;
    };
    if n == 0 || ext[0] != 0x30 || cs + cl != n {
        return None;
    }
    let foid = fmspc_oid_bytes();
    let fentry = find_entry(ext, cs, cs + cl, &foid);
    let Some((fvs, fve)) = fentry else {
        return None;
    };
    let fhdr = read_hdr(ext, fvs, fve);
    let Some((fcs, fcl)) = fhdr else {
        return None;
    };
    if ext[fvs] != 0x04 || fcl != 6 || fcs + fcl != fve {
        return None;
    }
    let fmspc = crate::quote::read_bytes_of(ext, fcs, 6);
    let toid = tcb_oid_bytes();
    let tentry = find_entry(ext, cs, cs + cl, &toid);
    let Some((tvs, tve)) = tentry else {
        return None;
    };
    let thdr = read_hdr(ext, tvs, tve);
    let Some((tcs, tcl)) = thdr else {
        return None;
    };
    if ext[tvs] != 0x30 || tcs + tcl != tve {
        return None;
    }
    let comps17 = read_tcb_comps(ext, tcs, tcs + tcl);
    let Some(vals) = comps17 else {
        return None;
    };
    let mut comps: Vec<u8> = Vec::new();
    let mut j: usize = 0;
    while j < 16
        invariant
            vals@.len() == 17,
            j <= 16,
            comps@.len() == j,
            forall|m: int| 0 <= m < j ==> #[trigger] comps@[m] == vals@[m] as u8,
            forall|m: int| 0 <= m < j ==> #[trigger] vals@[m] < 0x100,
        decreases 16 - j,
    {
        if vals[j] >= 0x100 {
            proof {
                let gvals = vals@.map_values(|x: u16| x as int);
                assert(gvals[j as int] >= 0x100);
            }
            return None;
        }
        comps.push(vals[j] as u8);
        j += 1;
    }
    let pcesvn = vals[16];
    proof {
        let gvals = vals@.map_values(|x: u16| x as int);
        assert forall|m: int| 0 <= m < 16 implies 0 <= #[trigger] gvals[m] < 0x100 by {
            assert(vals@[m] < 0x100);
        }
        assert(comps@ =~= Seq::new(16, |m: int| gvals[m] as u8));
        assert(gvals[16] as u16 == pcesvn);
    }
    Some((fmspc, comps, pcesvn))
}

} // verus!
