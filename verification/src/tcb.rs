//! TCB-info collateral and the greedy, order-dependent matching of a
//! platform's reported security versions against its levels.
use vstd::prelude::*;

use crate::status::{severity, TcbStatus};
use crate::Error;

verus! {

/// One TCB level of the collateral: the minimum component security
/// versions, the minimum PCE security version, and the status plus the
/// advisories that apply when this level is the platform's best match.
#[derive(Debug)]
pub struct TcbLevel {
    pub tcb_components: Vec<u8>,
    pub pcesvn: u16,
    pub tcb_status: TcbStatus,
    pub advisory_ids: Vec<String>,
}

/// TCB-info collateral: the platform family it speaks for (FMSPC and PCE
/// identifier) and its TCB levels, ordered from strictest to most
/// permissive.
#[derive(Debug)]
pub struct TcbInfoV2 {
    pub fmspc: Vec<u8>,
    pub pce_id: Vec<u8>,
    pub tcb_levels: Vec<TcbLevel>,
}

impl TcbLevel {
    /// A level carries exactly the 16 component versions.
    pub open spec fn wf(self) -> bool {
        self.tcb_components@.len() == 16
    }
}

impl TcbInfoV2 {
    /// A 6-byte FMSPC and well-formed levels.
    pub open spec fn wf(self) -> bool {
        &&& self.fmspc@.len() == 6
        &&& forall|i: int| 0 <= i < self.tcb_levels@.len() ==> (#[trigger] self.tcb_levels@[i]).wf()
    }

    /// The levels are declared from strictest to most permissive: their
    /// status severity never decreases along the list.
    pub open spec fn levels_ordered(self) -> bool {
        forall|i: int, j: int|
            0 <= i <= j < self.tcb_levels@.len() ==> severity(self.tcb_levels@[i].tcb_status)
                <= severity(self.tcb_levels@[j].tcb_status)
    }
}

/// Severity of two levels at consecutive positions never decreases
/// pairwise exactly when it never decreases between any two positions.
proof fn lemma_ordered_pair(levels: Seq<TcbLevel>, i: int, j: int)
    requires
        forall|k: int|
            1 <= k < levels.len() ==> severity(levels[k - 1].tcb_status) <= severity(
                (#[trigger] levels[k]).tcb_status,
            ),
        0 <= i <= j < levels.len(),
    ensures
        severity(levels[i].tcb_status) <= severity(levels[j].tcb_status),
    decreases j - i,
{
    if i < j {
        lemma_ordered_pair(levels, i, j - 1);
    }
}

/// Decide whether the level list is declared from strictest to most
/// permissive: its status severity never decreases along the list.
#[verifier::rlimit(60)]
pub fn check_levels_ordered(tcb_info: &TcbInfoV2) -> (r: bool)
    ensures
        r == tcb_info.levels_ordered(),
{
    let n = tcb_info.tcb_levels.len();
    let mut i: usize = 1;
    while i < n
        invariant
            n == tcb_info.tcb_levels@.len(),
            1 <= i || n == 0,
            i <= n || (n == 0 && i == 1),
            forall|k: int|
                1 <= k < i ==> severity(tcb_info.tcb_levels@[k - 1].tcb_status) <= severity(
                    (#[trigger] tcb_info.tcb_levels@[k]).tcb_status,
                ),
        decreases n - i,
    {
        if crate::status::status_rank(tcb_info.tcb_levels[i - 1].tcb_status)
            > crate::status::status_rank(tcb_info.tcb_levels[i].tcb_status) {
            proof {
                assert(!tcb_info.levels_ordered()) by {
                    assert(severity(tcb_info.tcb_levels@[i - 1].tcb_status) > severity(
                        tcb_info.tcb_levels@[i as int].tcb_status,
                    ));
                }
            }
            return false;
        }
        i += 1;
    }
    proof {
        assert forall|a: int, b: int|
            0 <= a <= b < tcb_info.tcb_levels@.len() implies severity(
            tcb_info.tcb_levels@[a].tcb_status,
        ) <= severity(tcb_info.tcb_levels@[b].tcb_status) by {
            lemma_ordered_pair(tcb_info.tcb_levels@, a, b);
        }
    }
    true
}

/// A platform satisfies a level when every one of its 16 reported component
/// versions reaches the level's minimum, and so does its PCE version.
pub open spec fn level_matches(level: TcbLevel, comps: Seq<u8>, pcesvn: u16) -> bool {
    &&& forall|i: int| 0 <= i < 16 ==> comps[i] >= #[trigger] level.tcb_components@[i]
    &&& pcesvn >= level.pcesvn
}

/// Index of the first level the platform satisfies; the sequence length
/// when it satisfies none.
pub open spec fn match_index(levels: Seq<TcbLevel>, comps: Seq<u8>, pcesvn: u16) -> int
    decreases levels.len(),
{
    if levels.len() == 0 {
        0
    } else if level_matches(levels[0], comps, pcesvn) {
        0
    } else {
        1 + match_index(levels.drop_first(), comps, pcesvn)
    }
}

/// The first match index is within bounds exactly when some level matches,
/// levels before it do not match, and the level at it (if any) does.
pub proof fn lemma_match_index(levels: Seq<TcbLevel>, comps: Seq<u8>, pcesvn: u16)
    ensures
        0 <= match_index(levels, comps, pcesvn) <= levels.len(),
        forall|j: int|
            0 <= j < match_index(levels, comps, pcesvn) ==> !level_matches(
                #[trigger] levels[j],
                comps,
                pcesvn,
            ),
        match_index(levels, comps, pcesvn) < levels.len() ==> level_matches(
            levels[match_index(levels, comps, pcesvn)],
            comps,
            pcesvn,
        ),
    decreases levels.len(),
{
    if levels.len() == 0 {
    } else if level_matches(levels[0], comps, pcesvn) {
    } else {
        lemma_match_index(levels.drop_first(), comps, pcesvn);
        assert forall|j: int| 0 <= j < match_index(levels, comps, pcesvn) implies !level_matches(
            #[trigger] levels[j],
            comps,
            pcesvn,
        ) by {
            if j > 0 {
                assert(levels.drop_first()[j - 1] == levels[j]);
            }
        }
        if match_index(levels, comps, pcesvn) < levels.len() {
            assert(levels.drop_first()[match_index(levels.drop_first(), comps, pcesvn)]
                == levels[match_index(levels, comps, pcesvn)]);
        }
    }
}

/// Find the first (strictest) TCB level of the collateral that the
/// platform's reported component versions and PCE version satisfy. Returns
/// that level's status and its index, or `TcbEvaluationFailed` when no
/// level matches.
pub fn get_sgx_fmspc_tcbstatus(tcb_info: &TcbInfoV2, comps: &Vec<u8>, pcesvn: u16) -> (r: Result<
    (TcbStatus, usize),
    Error,
>)
    requires
        tcb_info.wf(),
        comps@.len() == 16,
    ensures
        r is Ok <==> match_index(tcb_info.tcb_levels@, comps@, pcesvn) < tcb_info.tcb_levels@.len(),
        r matches Ok((st, i)) ==> {
            &&& i == match_index(tcb_info.tcb_levels@, comps@, pcesvn)
            &&& st == tcb_info.tcb_levels@[i as int].tcb_status
        },
        r matches Err(e) ==> e == Error::TcbEvaluationFailed,
{
    proof {
        lemma_match_index(tcb_info.tcb_levels@, comps@, pcesvn);
    }
    let levels_len = tcb_info.tcb_levels.len();
    let mut i: usize = 0;
    while i < levels_len
        invariant
            tcb_info.wf(),
            comps@.len() == 16,
            levels_len == tcb_info.tcb_levels@.len(),
            i <= levels_len,
            match_index(tcb_info.tcb_levels@, comps@, pcesvn) >= i,
        decreases levels_len - i,
    {
        let level = &tcb_info.tcb_levels[i];
        if level_satisfied(level, comps, pcesvn) {
            proof {
                lemma_match_index_stops(tcb_info.tcb_levels@, comps@, pcesvn, i as int);
            }
            return Ok((level.tcb_status, i));
        }
        proof {
            lemma_match_index_skips(tcb_info.tcb_levels@, comps@, pcesvn, i as int);
        }
        i += 1;
    }
    Err(Error::TcbEvaluationFailed)
}

/// Decide whether the platform satisfies one level.
fn level_satisfied(level: &TcbLevel, comps: &Vec<u8>, pcesvn: u16) -> (r: bool)
    requires
        level.wf(),
        comps@.len() == 16,
    ensures
        r == level_matches(*level, comps@, pcesvn),
{
    if pcesvn < level.pcesvn {
        return false;
    }
    let mut i: usize = 0;
    while i < 16
        invariant
            level.wf(),
            comps@.len() == 16,
            i <= 16,
            pcesvn >= level.pcesvn,
            forall|j: int| 0 <= j < i ==> comps@[j] >= #[trigger] level.tcb_components@[j],
        decreases 16 - i,
    {
        if comps[i] < level.tcb_components[i] {
            return false;
        }
        i += 1;
    }
    true
}

/// If no level before `k` matches and the level at `k` matches, the first
/// match index is `k`.
proof fn lemma_match_index_stops(levels: Seq<TcbLevel>, comps: Seq<u8>, pcesvn: u16, k: int)
    requires
        0 <= k < levels.len(),
        match_index(levels, comps, pcesvn) >= k,
        level_matches(levels[k], comps, pcesvn),
    ensures
        match_index(levels, comps, pcesvn) == k,
    decreases levels.len(),
{
    lemma_match_index(levels, comps, pcesvn);
    if match_index(levels, comps, pcesvn) > k {
        assert(!level_matches(levels[k], comps, pcesvn));
    }
}

/// If the first match index is at least `k` and the level at `k` does not
/// match, the first match index is past `k`.
proof fn lemma_match_index_skips(levels: Seq<TcbLevel>, comps: Seq<u8>, pcesvn: u16, k: int)
    requires
        0 <= k < levels.len(),
        match_index(levels, comps, pcesvn) >= k,
        !level_matches(levels[k], comps, pcesvn),
    ensures
        match_index(levels, comps, pcesvn) >= k + 1,
{
    lemma_match_index(levels, comps, pcesvn);
    if match_index(levels, comps, pcesvn) == k {
        assert(level_matches(levels[k], comps, pcesvn));
    }
}

/// A platform that improves never matches later: raising component or PCE
/// versions can only move the first match earlier in the list.
pub proof fn lemma_match_index_monotone(
    levels: Seq<TcbLevel>,
    c1: Seq<u8>,
    p1: u16,
    c2: Seq<u8>,
    p2: u16,
)
    requires
        forall|i: int| 0 <= i < 16 ==> c1[i] <= c2[i],
        p1 <= p2,
    ensures
        match_index(levels, c2, p2) <= match_index(levels, c1, p1),
    decreases levels.len(),
{
    if levels.len() == 0 {
    } else if level_matches(levels[0], c2, p2) {
        lemma_match_index(levels, c1, p1);
    } else {
        assert(!level_matches(levels[0], c1, p1));
        lemma_match_index_monotone(levels.drop_first(), c1, p1, c2, p2);
    }
}

/// TCB matching is monotone in the platform: when every reported component
/// and the PCE version increase or stay equal, and the level list is
/// ordered from strictest to most permissive, the matched level's severity
/// never increases.
pub proof fn lemma_tcb_matching_monotone(
    tcb_info: TcbInfoV2,
    c1: Seq<u8>,
    p1: u16,
    c2: Seq<u8>,
    p2: u16,
)
    requires
        tcb_info.wf(),
        tcb_info.levels_ordered(),
        c1.len() == 16,
        c2.len() == 16,
        forall|i: int| 0 <= i < 16 ==> c1[i] <= c2[i],
        p1 <= p2,
        match_index(tcb_info.tcb_levels@, c1, p1) < tcb_info.tcb_levels@.len(),
    ensures
        match_index(tcb_info.tcb_levels@, c2, p2) < tcb_info.tcb_levels@.len(),
        severity(
            tcb_info.tcb_levels@[match_index(tcb_info.tcb_levels@, c2, p2)].tcb_status,
        ) <= severity(tcb_info.tcb_levels@[match_index(tcb_info.tcb_levels@, c1, p1)].tcb_status),
{
    lemma_match_index(tcb_info.tcb_levels@, c1, p1);
    lemma_match_index(tcb_info.tcb_levels@, c2, p2);
    lemma_match_index_monotone(tcb_info.tcb_levels@, c1, p1, c2, p2);
}

} // verus!
