//! Fingerprint scorer.
//!
//! Matches a captured TCP/ICMP probe fingerprint against a reference
//! signature database and returns the best-scoring entry.  A captured
//! SYN-ACK sample earns one point for a matching TCP window size and four
//! points for a matching TCP option ordering, summed over the paired
//! samples; the ECN probe earns one point each for the ECN-support flag,
//! the IP don't-fragment flag and the window size, and four points for
//! its option ordering.  An entry is a candidate only when its score
//! reaches the acceptance threshold; among candidates the first entry
//! with the highest score wins.

use vstd::prelude::*;

verus! {

/// Acceptance threshold for a signature match.
pub const SCORE_THRESHOLD: u32 = 20;

/// One TCP option, in the order observed on the wire.
#[derive(Clone, Copy, Debug, PartialEq, Eq, Structural)]
pub enum TcpOptionKind {
    Eol,
    Nop,
    Mss,
    Wscale,
    SackPermitted,
    Sack,
    Timestamp,
    Unknown,
}

/// Observed properties of one SYN-ACK response.
#[derive(Debug)]
pub struct SynAckFingerprint {
    pub tcp_window_size: u16,
    pub tcp_option_order: Vec<TcpOptionKind>,
}

/// Observed properties of the ECN probe response.
#[derive(Debug)]
pub struct EcnFingerprint {
    pub tcp_ecn_support: bool,
    pub ip_df: bool,
    pub tcp_window_size: u16,
    pub tcp_option_order: Vec<TcpOptionKind>,
}

/// A fingerprint captured from a live probe.
#[derive(Debug)]
pub struct TcpFingerprint {
    pub syn_ack_samples: Vec<SynAckFingerprint>,
    pub ecn: EcnFingerprint,
}

/// One row of the OS signature database: a human-readable OS name and
/// CPE identifier with the fingerprint this OS is expected to show.
#[derive(Debug)]
pub struct SignatureEntry {
    pub os_name: String,
    pub cpe: String,
    pub syn_fingerprints: Vec<SynAckFingerprint>,
    pub ecn_fingerprint: EcnFingerprint,
}

/// Same window size and option ordering.
pub open spec fn syn_equiv(a: SynAckFingerprint, b: SynAckFingerprint) -> bool {
    &&& a.tcp_window_size == b.tcp_window_size
    &&& a.tcp_option_order@ == b.tcp_option_order@
}

/// Same SYN-ACK samples, pairwise.
pub open spec fn syn_list_equiv(a: Seq<SynAckFingerprint>, b: Seq<SynAckFingerprint>) -> bool {
    &&& a.len() == b.len()
    &&& forall|i: int| 0 <= i < a.len() ==> syn_equiv(#[trigger] a[i], #[trigger] b[i])
}

/// Same ECN probe observations.
pub open spec fn ecn_equiv(a: EcnFingerprint, b: EcnFingerprint) -> bool {
    &&& a.tcp_ecn_support == b.tcp_ecn_support
    &&& a.ip_df == b.ip_df
    &&& a.tcp_window_size == b.tcp_window_size
    &&& a.tcp_option_order@ == b.tcp_option_order@
}

/// A captured fingerprint identical to what the entry expects.
pub open spec fn fingerprint_matches_entry(c: TcpFingerprint, e: SignatureEntry) -> bool {
    &&& syn_list_equiv(c.syn_ack_samples@, e.syn_fingerprints@)
    &&& ecn_equiv(c.ecn, e.ecn_fingerprint)
}

/// Same OS name, CPE and expected fingerprint.
pub open spec fn entry_equiv(a: SignatureEntry, b: SignatureEntry) -> bool {
    &&& a.os_name@ == b.os_name@
    &&& a.cpe@ == b.cpe@
    &&& syn_list_equiv(a.syn_fingerprints@, b.syn_fingerprints@)
    &&& ecn_equiv(a.ecn_fingerprint, b.ecn_fingerprint)
}

/// Points earned by one captured SYN-ACK sample against one expected
/// sample: one for the window size, four for the option ordering.
pub open spec fn spec_syn_sample_score(c: SynAckFingerprint, e: SynAckFingerprint) -> nat {
    (if c.tcp_window_size == e.tcp_window_size {
        1nat
    } else {
        0nat
    }) + (if c.tcp_option_order@ == e.tcp_option_order@ {
        4nat
    } else {
        0nat
    })
}

/// Points earned by the first `n` paired SYN-ACK samples.
pub open spec fn spec_syn_score_upto(
    cs: Seq<SynAckFingerprint>,
    es: Seq<SynAckFingerprint>,
    n: int,
) -> nat
    decreases n,
{
    if n <= 0 {
        0
    } else {
        spec_syn_score_upto(cs, es, n - 1) + spec_syn_sample_score(cs[n - 1], es[n - 1])
    }
}

/// The smaller of two sequence lengths.
pub open spec fn spec_min_len(a: nat, b: nat) -> int {
    if a <= b {
        a as int
    } else {
        b as int
    }
}

/// Points earned by the captured SYN-ACK samples against the expected
/// ones, summed over the paired samples.
pub open spec fn spec_syn_score(cs: Seq<SynAckFingerprint>, es: Seq<SynAckFingerprint>) -> nat {
    spec_syn_score_upto(cs, es, spec_min_len(cs.len(), es.len()))
}

/// Points earned by the captured ECN probe against the expected one.
pub open spec fn spec_ecn_score(c: EcnFingerprint, e: EcnFingerprint) -> nat {
    (if c.tcp_ecn_support == e.tcp_ecn_support {
        1nat
    } else {
        0nat
    }) + (if c.ip_df == e.ip_df {
        1nat
    } else {
        0nat
    }) + (if c.tcp_window_size == e.tcp_window_size {
        1nat
    } else {
        0nat
    }) + (if c.tcp_option_order@ == e.tcp_option_order@ {
        4nat
    } else {
        0nat
    })
}

/// Total points of one signature entry against a captured fingerprint.
pub open spec fn spec_entry_score(c: TcpFingerprint, e: SignatureEntry) -> nat {
    spec_syn_score(c.syn_ack_samples@, e.syn_fingerprints@) + spec_ecn_score(
        c.ecn,
        e.ecn_fingerprint,
    )
}

/// Index of the winning entry among the first `n` rows: the first entry
/// with the highest score among those reaching the threshold, or none.
pub open spec fn spec_best_index(c: TcpFingerprint, db: Seq<SignatureEntry>, n: int) -> Option<
    int,
>
    decreases n,
{
    if n <= 0 {
        Option::None
    } else {
        let prev = spec_best_index(c, db, n - 1);
        let sc = spec_entry_score(c, db[n - 1]);
        if sc < SCORE_THRESHOLD as nat {
            prev
        } else {
            match prev {
                Option::None => Option::Some(n - 1),
                Option::Some(j) => if sc > spec_entry_score(c, db[j]) {
                    Option::Some(n - 1)
                } else {
                    Option::Some(j)
                },
            }
        }
    }
}

/// What the selection rule guarantees: a winner reaches the threshold,
/// no entry scores higher, and no earlier entry scores as high; with no
/// winner, every entry is below the threshold.
pub proof fn lemma_best_index_props(c: TcpFingerprint, db: Seq<SignatureEntry>, n: int)
    requires
        0 <= n <= db.len(),
    ensures
        match spec_best_index(c, db, n) {
            Option::Some(j) => {
                &&& 0 <= j < n
                &&& spec_entry_score(c, db[j]) >= SCORE_THRESHOLD
                &&& forall|i: int|
                    0 <= i < n ==> spec_entry_score(c, #[trigger] db[i]) <= spec_entry_score(
                        c,
                        db[j],
                    )
                &&& forall|i: int|
                    0 <= i < j ==> spec_entry_score(c, #[trigger] db[i]) < spec_entry_score(
                        c,
                        db[j],
                    )
            },
            Option::None => forall|i: int|
                0 <= i < n ==> spec_entry_score(c, #[trigger] db[i]) < SCORE_THRESHOLD,
        },
    decreases n,
{
    if n > 0 {
        lemma_best_index_props(c, db, n - 1);
    }
}

/// The SYN-ACK score of `n` paired samples is at most five points per
/// sample.
proof fn lemma_syn_score_upto_bound(cs: Seq<SynAckFingerprint>, es: Seq<SynAckFingerprint>, n: int)
    requires
        n >= 0,
    ensures
        spec_syn_score_upto(cs, es, n) <= 5 * n,
    decreases n,
{
    if n > 0 {
        lemma_syn_score_upto_bound(cs, es, n - 1);
    }
}

/// A captured fingerprint identical to an entry's expected fingerprint
/// earns five points per SYN-ACK sample plus seven ECN points, and no
/// entry can earn more against that capture.
pub proof fn lemma_identical_fingerprint_scores_max(c: TcpFingerprint, e: SignatureEntry)
    requires
        fingerprint_matches_entry(c, e),
    ensures
        spec_entry_score(c, e) == 5 * c.syn_ack_samples@.len() + 7,
        forall|other: SignatureEntry|
            #[trigger] spec_entry_score(c, other) <= 5 * c.syn_ack_samples@.len() + 7,
{
    lemma_syn_score_matched(c.syn_ack_samples@, e.syn_fingerprints@, c.syn_ack_samples@.len() as int);
    assert forall|other: SignatureEntry|
        #[trigger] spec_entry_score(c, other) <= 5 * c.syn_ack_samples@.len() + 7 by {
        let m = spec_min_len(c.syn_ack_samples@.len(), other.syn_fingerprints@.len());
        lemma_syn_score_upto_bound(c.syn_ack_samples@, other.syn_fingerprints@, m);
    }
}

/// A captured fingerprint identical to a database entry's expected one
/// is matched, provided the full score reaches the acceptance
/// threshold: the scorer returns an entry carrying that same maximal
/// score (the entry itself, unless an earlier entry ties it, in which
/// case the earlier of the two wins by insertion order).
pub proof fn lemma_identical_entry_is_matched(c: TcpFingerprint, db: Seq<SignatureEntry>, j: int)
    requires
        0 <= j < db.len(),
        fingerprint_matches_entry(c, db[j]),
        5 * c.syn_ack_samples@.len() + 7 >= SCORE_THRESHOLD,
    ensures
        spec_best_index(c, db, db.len() as int) matches Some(k) && 0 <= k < db.len()
            && spec_entry_score(c, db[k]) == 5 * c.syn_ack_samples@.len() + 7,
{
    lemma_identical_fingerprint_scores_max(c, db[j]);
    lemma_best_index_props(c, db, db.len() as int);
    match spec_best_index(c, db, db.len() as int) {
        Option::Some(k) => {
            assert(spec_entry_score(c, db[j]) <= spec_entry_score(c, db[k]));
            assert(spec_entry_score(c, db[k]) <= 5 * c.syn_ack_samples@.len() + 7);
        },
        Option::None => {
            assert(spec_entry_score(c, db[j]) < SCORE_THRESHOLD);
            assert(false);
        },
    }
}

/// Pairwise-identical samples earn the full five points each.
proof fn lemma_syn_score_matched(cs: Seq<SynAckFingerprint>, es: Seq<SynAckFingerprint>, n: int)
    requires
        syn_list_equiv(cs, es),
        0 <= n <= cs.len(),
    ensures
        spec_syn_score_upto(cs, es, n) == 5 * n,
    decreases n,
{
    if n > 0 {
        lemma_syn_score_matched(cs, es, n - 1);
    }
}

/// A captured fingerprint that shares no feature with an entry, in any
/// paired sample or the ECN probe, earns that entry no points at all.
pub proof fn lemma_disjoint_fingerprint_scores_zero(c: TcpFingerprint, e: SignatureEntry)
    requires
        forall|i: int|
            0 <= i < spec_min_len(c.syn_ack_samples@.len(), e.syn_fingerprints@.len()) ==> {
                &&& (#[trigger] c.syn_ack_samples@[i]).tcp_window_size
                    != e.syn_fingerprints@[i].tcp_window_size
                &&& c.syn_ack_samples@[i].tcp_option_order@
                    != e.syn_fingerprints@[i].tcp_option_order@
            },
        c.ecn.tcp_ecn_support != e.ecn_fingerprint.tcp_ecn_support,
        c.ecn.ip_df != e.ecn_fingerprint.ip_df,
        c.ecn.tcp_window_size != e.ecn_fingerprint.tcp_window_size,
        c.ecn.tcp_option_order@ != e.ecn_fingerprint.tcp_option_order@,
    ensures
        spec_entry_score(c, e) == 0,
{
    lemma_syn_score_mismatched(
        c.syn_ack_samples@,
        e.syn_fingerprints@,
        spec_min_len(c.syn_ack_samples@.len(), e.syn_fingerprints@.len()),
    );
}

/// Pairwise-mismatched samples earn no points.
proof fn lemma_syn_score_mismatched(cs: Seq<SynAckFingerprint>, es: Seq<SynAckFingerprint>, n: int)
    requires
        forall|i: int|
            0 <= i < n ==> {
                &&& (#[trigger] cs[i]).tcp_window_size != es[i].tcp_window_size
                &&& cs[i].tcp_option_order@ != es[i].tcp_option_order@
            },
        n >= 0,
    ensures
        spec_syn_score_upto(cs, es, n) == 0,
    decreases n,
{
    if n > 0 {
        lemma_syn_score_mismatched(cs, es, n - 1);
    }
}

/// Every entry below the threshold leaves the scorer without a match.
pub proof fn lemma_no_candidate_no_match(c: TcpFingerprint, db: Seq<SignatureEntry>)
    requires
        forall|i: int|
            0 <= i < db.len() ==> spec_entry_score(c, #[trigger] db[i]) < SCORE_THRESHOLD,
    ensures
        spec_best_index(c, db, db.len() as int) is None,
    decreases db.len(),
{
    lemma_no_candidate_prefix(c, db, db.len() as int);
}

proof fn lemma_no_candidate_prefix(c: TcpFingerprint, db: Seq<SignatureEntry>, n: int)
    requires
        0 <= n <= db.len(),
        forall|i: int|
            0 <= i < db.len() ==> spec_entry_score(c, #[trigger] db[i]) < SCORE_THRESHOLD,
    ensures
        spec_best_index(c, db, n) is None,
    decreases n,
{
    if n > 0 {
        lemma_no_candidate_prefix(c, db, n - 1);
    }
}

/// True when the two option orderings are equal.
fn options_eq(a: &Vec<TcpOptionKind>, b: &Vec<TcpOptionKind>) -> (r: bool)
    ensures
        r == (a@ == b@),
{
    if a.len() != b.len() {
        assert(a@ != b@);
        return false;
    }
    let mut i: usize = 0;
    while i < a.len()
        invariant
            i <= a@.len(),
            a@.len() == b@.len(),
            forall|j: int| 0 <= j < i ==> a@[j] == b@[j],
        decreases a@.len() - i,
    {
        if a[i] != b[i] {
            return false;
        }
        i += 1;
    }
    assert(a@ =~= b@);
    true
}

/// Points earned by one captured SYN-ACK sample against one expected
/// sample.
fn syn_sample_score(c: &SynAckFingerprint, e: &SynAckFingerprint) -> (r: u32)
    ensures
        r == spec_syn_sample_score(*c, *e),
        r <= 5,
{
    let mut r: u32 = 0;
    if c.tcp_window_size == e.tcp_window_size {
        r += 1;
    }
    if options_eq(&c.tcp_option_order, &e.tcp_option_order) {
        r += 4;
    }
    r
}

/// Points earned by the captured ECN probe against the expected one.
fn ecn_score(c: &EcnFingerprint, e: &EcnFingerprint) -> (r: u32)
    ensures
        r == spec_ecn_score(*c, *e),
        r <= 7,
{
    let mut r: u32 = 0;
    if c.tcp_ecn_support == e.tcp_ecn_support {
        r += 1;
    }
    if c.ip_df == e.ip_df {
        r += 1;
    }
    if c.tcp_window_size == e.tcp_window_size {
        r += 1;
    }
    if options_eq(&c.tcp_option_order, &e.tcp_option_order) {
        r += 4;
    }
    r
}

/// Total points of one signature entry against a captured fingerprint.
pub fn entry_score(c: &TcpFingerprint, e: &SignatureEntry) -> (r: u128)
    ensures
        r == spec_entry_score(*c, *e),
{
    let cs = &c.syn_ack_samples;
    let es = &e.syn_fingerprints;
    let m = if cs.len() <= es.len() {
        cs.len()
    } else {
        es.len()
    };
    let mut score: u128 = 0;
    let mut i: usize = 0;
    while i < m
        invariant
            0 <= i <= m,
            m == spec_min_len(cs@.len(), es@.len()),
            m <= cs@.len() && m <= es@.len(),
            score == spec_syn_score_upto(cs@, es@, i as int),
            score <= 5 * i,
        decreases m - i,
    {
        let s = syn_sample_score(&cs[i], &es[i]);
        score = score + s as u128;
        i += 1;
    }
    score + ecn_score(&c.ecn, &e.ecn_fingerprint) as u128
}

/// Copy of an option ordering.
fn copy_options(v: &Vec<TcpOptionKind>) -> (r: Vec<TcpOptionKind>)
    ensures
        r@ == v@,
{
    let mut r: Vec<TcpOptionKind> = Vec::new();
    let mut i: usize = 0;
    while i < v.len()
        invariant
            i <= v@.len(),
            r@ == v@.subrange(0, i as int),
        decreases v@.len() - i,
    {
        r.push(v[i]);
        i += 1;
        assert(r@ =~= v@.subrange(0, i as int));
    }
    assert(r@ =~= v@);
    r
}

/// Copy of one SYN-ACK sample.
fn copy_syn(s: &SynAckFingerprint) -> (r: SynAckFingerprint)
    ensures
        syn_equiv(r, *s),
{
    SynAckFingerprint {
        tcp_window_size: s.tcp_window_size,
        tcp_option_order: copy_options(&s.tcp_option_order),
    }
}

/// Copy of a signature entry.
fn copy_entry(e: &SignatureEntry) -> (r: SignatureEntry)
    ensures
        entry_equiv(r, *e),
{
    let mut syns: Vec<SynAckFingerprint> = Vec::new();
    let mut i: usize = 0;
    while i < e.syn_fingerprints.len()
        invariant
            i <= e.syn_fingerprints@.len(),
            syns@.len() == i,
            forall|j: int| 0 <= j < i ==> syn_equiv(#[trigger] syns@[j], e.syn_fingerprints@[j]),
        decreases e.syn_fingerprints@.len() - i,
    {
        syns.push(copy_syn(&e.syn_fingerprints[i]));
        i += 1;
    }
    SignatureEntry {
        os_name: e.os_name.clone(),
        cpe: e.cpe.clone(),
        syn_fingerprints: syns,
        ecn_fingerprint: EcnFingerprint {
            tcp_ecn_support: e.ecn_fingerprint.tcp_ecn_support,
            ip_df: e.ecn_fingerprint.ip_df,
            tcp_window_size: e.ecn_fingerprint.tcp_window_size,
            tcp_option_order: copy_options(&e.ecn_fingerprint.tcp_option_order),
        },
    }
}

/// Scores a captured fingerprint against every entry of the signature
/// database and returns the best match: the first entry with the highest
/// score among those reaching the acceptance threshold, or none when no
/// entry reaches it.
pub fn verify_fingerprints(fingerprint: &TcpFingerprint, fingerprints: &Vec<SignatureEntry>) -> (r:
    Option<SignatureEntry>)
    ensures
        match spec_best_index(*fingerprint, fingerprints@, fingerprints@.len() as int) {
            Option::Some(j) => r matches Some(e) && entry_equiv(e, fingerprints@[j]),
            Option::None => r is None,
        },
{
    let mut best: Option<usize> = None;
    let mut best_score: u128 = 0;
    let mut n: usize = 0;
    while n < fingerprints.len()
        invariant
            n <= fingerprints@.len(),
            match best {
                Option::Some(j) => {
                    &&& j < n
                    &&& spec_best_index(*fingerprint, fingerprints@, n as int) == Option::Some(
                        j as int,
                    )
                    &&& best_score == spec_entry_score(*fingerprint, fingerprints@[j as int])
                },
                Option::None => spec_best_index(*fingerprint, fingerprints@, n as int) is None,
            },
        decreases fingerprints@.len() - n,
    {
        let sc = entry_score(fingerprint, &fingerprints[n]);
        if sc >= SCORE_THRESHOLD as u128 {
            match best {
                None => {
                    best = Some(n);
                    best_score = sc;
                },
                Some(_) => {
                    if sc > best_score {
                        best = Some(n);
                        best_score = sc;
                    }
                },
            }
        }
        n += 1;
    }
    match best {
        Some(j) => Some(copy_entry(&fingerprints[j])),
        None => None,
    }
}

} // verus!
