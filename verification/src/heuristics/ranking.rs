//! Candidates for testing and their ranking.

use vstd::prelude::*;

verus! {

/// Intermediate representation of one changed file, ready for scoring.
/// Constructed from `ImpactedFile` by the tool handler before entering the
/// heuristics pipeline.
///
/// `P` is the type of a coverage percentage; the library carries such values
/// through and never computes with them.
pub struct FileCandidate<P> {
    pub file_path: String,
    pub patch_coverage_pct: Option<P>,
    /// Total lines added in the patch (0 if the file was deleted-only).
    pub patch_lines: i64,
    /// Uncovered lines in the patch.
    pub patch_misses: i64,
    pub head_coverage_pct: Option<P>,
    /// `None` when the file is newly created (no prior baseline).
    pub base_coverage_pct: Option<P>,
}

/// Scored and ranked output for a single file.
pub struct RankedFile<P> {
    pub rank: usize,
    pub file_path: String,
    /// Weighted score.
    pub score: P,
    pub patch_coverage_pct: Option<P>,
    pub uncovered_added_lines: i64,
    pub total_added_lines: i64,
    pub is_new_file: bool,
    pub reason: String,
}

/// A candidate together with what scoring made of it.
pub struct ScoredCandidate<P> {
    pub candidate: FileCandidate<P>,
    /// The weighted score.
    pub score: P,
    /// An integer that orders candidates as their scores do: of two
    /// candidates, the one with the higher score has the higher key, and
    /// equal scores have equal keys.
    pub score_key: u64,
    /// Human-readable explanation of the dominant scoring factor.
    pub reason: String,
}

/// A file is new when it has a head coverage but no base coverage.
pub open spec fn spec_is_new_file<P>(c: FileCandidate<P>) -> bool {
    c.base_coverage_pct is None && c.head_coverage_pct is Some
}

/// Whether the candidate is a newly created file (no prior baseline).
pub fn is_new_file<P>(c: &FileCandidate<P>) -> (r: bool)
    ensures
        r == spec_is_new_file(*c),
        r == (c.base_coverage_pct is None && c.head_coverage_pct is Some),
{
    c.base_coverage_pct.is_none() && c.head_coverage_pct.is_some()
}

/// The ranked entry that a scored candidate becomes at `rank`.
pub open spec fn ranked_entry<P>(s: ScoredCandidate<P>, rank: int) -> RankedFile<P> {
    RankedFile {
        rank: rank as usize,
        file_path: s.candidate.file_path,
        score: s.score,
        patch_coverage_pct: s.candidate.patch_coverage_pct,
        uncovered_added_lines: s.candidate.patch_misses,
        total_added_lines: s.candidate.patch_lines,
        is_new_file: spec_is_new_file(s.candidate),
        reason: s.reason,
    }
}

/// `p` lists each of `0..n` exactly once.
pub open spec fn is_permutation(p: Seq<int>, n: nat) -> bool {
    &&& p.len() == n
    &&& forall|k: int| 0 <= k < p.len() ==> 0 <= #[trigger] p[k] < n
    &&& forall|k1: int, k2: int| 0 <= k1 < k2 < p.len() ==> p[k1] != p[k2]
}

/// Taking the scored candidates in the order `p` gives non-increasing score
/// keys, and candidates with equal keys keep their input order.
pub open spec fn stable_descending<P>(scored: Seq<ScoredCandidate<P>>, p: Seq<int>) -> bool {
    forall|k1: int, k2: int|
        0 <= k1 < k2 < p.len() ==> {
            &&& scored[p[k1]].score_key >= scored[p[k2]].score_key
            &&& (scored[p[k1]].score_key == scored[p[k2]].score_key ==> p[k1] < p[k2])
        }
}

/// `ranked` is `scored` sorted by descending score, stable for equal scores,
/// with ranks 1, 2, ... in that order.
pub open spec fn is_ranking_of<P>(scored: Seq<ScoredCandidate<P>>, ranked: Seq<RankedFile<P>>) -> bool {
    exists|p: Seq<int>|
        {
            &&& #[trigger] is_permutation(p, scored.len())
            &&& stable_descending(scored, p)
            &&& ranked.len() == scored.len()
            &&& forall|k: int| 0 <= k < ranked.len() ==> #[trigger] ranked[k] == ranked_entry(scored[p[k]], k + 1)
        }
}

/// Sort descending by score, keeping the input order among equal scores,
/// and assign ranks from 1.
pub fn rank_scored<P>(scored: Vec<ScoredCandidate<P>>) -> (r: Vec<RankedFile<P>>)
    ensures
        is_ranking_of(scored@, r@),
        r@.len() == scored@.len(),
        forall|k: int| 0 <= k < r@.len() ==> #[trigger] r@[k].rank == k + 1,
{
    let ghost all = scored@;
    let mut sorted: Vec<ScoredCandidate<P>> = Vec::new();
    let ghost mut p: Seq<int> = Seq::empty();
    for s in it: scored
        invariant
            all == it.seq(),
            sorted@.len() == it.index(),
            is_permutation(p, it.index() as nat),
            forall|k: int| 0 <= k < sorted@.len() ==> #[trigger] sorted@[k] == all[p[k]],
            stable_descending(all, p),
    {
        let ghost i = it.index();
        let key = s.score_key;
        let mut pos: usize = 0;
        while pos < sorted.len() && sorted[pos].score_key >= key
            invariant
                pos <= sorted@.len(),
                forall|k: int| 0 <= k < pos ==> #[trigger] sorted@[k].score_key >= key,
            decreases sorted@.len() - pos,
        {
            pos = pos + 1;
        }
        proof {
            assert forall|k: int| pos <= k < sorted@.len() implies #[trigger] sorted@[k].score_key < key by {
                assert(sorted@[pos as int].score_key < key);
                if k > pos {
                    assert(all[p[pos as int]].score_key >= all[p[k]].score_key);
                }
            }
        }
        let ghost old_sorted = sorted@;
        let ghost old_p = p;
        sorted.insert(pos, s);
        proof {
            p = old_p.insert(pos as int, i as int);
            assert forall|k: int| 0 <= k < sorted@.len() implies #[trigger] sorted@[k] == all[p[k]] by {
                if k < pos {
                    assert(sorted@[k] == old_sorted[k]);
                } else if k > pos {
                    assert(sorted@[k] == old_sorted[k - 1]);
                }
            }
            assert forall|k1: int, k2: int| 0 <= k1 < k2 < p.len() implies {
                &&& all[p[k1]].score_key >= all[p[k2]].score_key
                &&& (all[p[k1]].score_key == all[p[k2]].score_key ==> p[k1] < p[k2])
            } by {
                assert(sorted@[k1] == all[p[k1]]);
                assert(sorted@[k2] == all[p[k2]]);
                if k1 < pos && k2 < pos {
                    assert(old_sorted[k1] == sorted@[k1]);
                } else if k1 < pos && k2 == pos {
                    assert(old_sorted[k1] == sorted@[k1]);
                } else if k1 < pos && k2 > pos {
                    assert(old_sorted[k2 - 1] == sorted@[k2]);
                } else if k1 == pos {
                    assert(old_sorted[k2 - 1] == sorted@[k2]);
                } else {
                    assert(old_sorted[k1 - 1] == sorted@[k1]);
                    assert(old_sorted[k2 - 1] == sorted@[k2]);
                }
            }
            assert(is_permutation(p, (i + 1) as nat));
        }
    }
    let ghost sorted_all = sorted@;
    let n = sorted.len();
    let mut ranked: Vec<RankedFile<P>> = Vec::new();
    let mut k: usize = 0;
    for s in it2: sorted
        invariant
            k == it2.index(),
            sorted_all == it2.seq(),
            sorted_all.len() == n,
            sorted_all.len() == all.len(),
            ranked@.len() == it2.index(),
            forall|k: int| 0 <= k < ranked@.len() ==> #[trigger] ranked@[k] == ranked_entry(sorted_all[k], k + 1),
    {
        let new_file = is_new_file(&s.candidate);
        let entry = RankedFile {
            rank: k + 1,
            file_path: s.candidate.file_path,
            score: s.score,
            patch_coverage_pct: s.candidate.patch_coverage_pct,
            uncovered_added_lines: s.candidate.patch_misses,
            total_added_lines: s.candidate.patch_lines,
            is_new_file: new_file,
            reason: s.reason,
        };
        ranked.push(entry);
        k = k + 1;
    }
    proof {
        assert forall|k: int| 0 <= k < ranked@.len() implies #[trigger] ranked@[k] == ranked_entry(all[p[k]], k + 1) by {
            assert(sorted_all[k] == all[p[k]]);
        }
        assert(is_permutation(p, all.len()));
    }
    ranked
}


/// A permutation of `0..n` lists every index of `0..n`.
pub proof fn lemma_permutation_covers(p: Seq<int>, n: nat, v: int)
    requires
        is_permutation(p, n),
        0 <= v < n,
    ensures
        exists|k: int| 0 <= k < p.len() && p[k] == v,
{
    broadcast use vstd::seq_lib::seq_to_set_is_finite;
    assert(p.no_duplicates()) by {
        assert forall|i: int, j: int| 0 <= i < p.len() && 0 <= j < p.len() && i != j implies p[i] != p[j] by {
            if i < j {
                assert(p[i] != p[j]);
            } else {
                assert(p[j] != p[i]);
            }
        }
    }
    p.unique_seq_to_set();
    let range = vstd::set_lib::set_int_range(0, n as int);
    vstd::set_lib::lemma_int_range(0, n as int);
    assert(p.to_set().subset_of(range)) by {
        assert forall|x: int| p.to_set().contains(x) implies range.contains(x) by {
            let k = choose|k: int| 0 <= k < p.len() && p[k] == x;
            assert(0 <= p[k] < n);
        }
    }
    vstd::set_lib::lemma_subset_equality(p.to_set(), range);
    assert(range.contains(v));
    assert(p.to_set().contains(v));
}

/// A scored candidate comes before another in the ranking order: its key is
/// higher, or the keys are equal and it came first.
pub open spec fn ranks_before<P>(scored: Seq<ScoredCandidate<P>>, i: int, j: int) -> bool {
    scored[i].score_key > scored[j].score_key || (scored[i].score_key == scored[j].score_key && i < j)
}

/// There is only one stable descending order of a sequence of scored
/// candidates.
pub proof fn lemma_stable_order_unique<P>(scored: Seq<ScoredCandidate<P>>, p1: Seq<int>, p2: Seq<int>)
    requires
        is_permutation(p1, scored.len()),
        is_permutation(p2, scored.len()),
        stable_descending(scored, p1),
        stable_descending(scored, p2),
    ensures
        p1 == p2,
{
    assert forall|k: int| 0 <= k < p1.len() implies p1[k] == p2[k] by {
        lemma_stable_order_prefix(scored, p1, p2, k);
    }
    assert(p1 =~= p2);
}

/// The two stable descending orders agree up to position `k`.
proof fn lemma_stable_order_prefix<P>(scored: Seq<ScoredCandidate<P>>, p1: Seq<int>, p2: Seq<int>, k: int)
    requires
        is_permutation(p1, scored.len()),
        is_permutation(p2, scored.len()),
        stable_descending(scored, p1),
        stable_descending(scored, p2),
        0 <= k < p1.len(),
    ensures
        forall|j: int| 0 <= j <= k ==> p1[j] == p2[j],
    decreases k,
{
    if k > 0 {
        lemma_stable_order_prefix(scored, p1, p2, k - 1);
    }
    let a = p1[k];
    let b = p2[k];
    if a != b {
        lemma_permutation_covers(p1, scored.len(), b);
        lemma_permutation_covers(p2, scored.len(), a);
        let m = choose|m: int| 0 <= m < p1.len() && p1[m] == b;
        let m2 = choose|m: int| 0 <= m < p2.len() && p2[m] == a;
        if m < k {
            assert(p2[m] == p1[m]);
            assert(false);
        }
        if m2 < k {
            assert(p1[m2] == p2[m2]);
            assert(false);
        }
        assert(ranks_before(scored, a, b));
        assert(ranks_before(scored, b, a));
        assert(false);
    }
}

/// The ranking of a sequence of scored candidates is unique: the contract
/// of `rank_scored` determines its result.
pub proof fn lemma_ranking_unique<P>(
    scored: Seq<ScoredCandidate<P>>,
    r1: Seq<RankedFile<P>>,
    r2: Seq<RankedFile<P>>,
)
    requires
        is_ranking_of(scored, r1),
        is_ranking_of(scored, r2),
    ensures
        r1 == r2,
{
    let p1 = choose|p: Seq<int>|
        {
            &&& #[trigger] is_permutation(p, scored.len())
            &&& stable_descending(scored, p)
            &&& r1.len() == scored.len()
            &&& forall|k: int| 0 <= k < r1.len() ==> #[trigger] r1[k] == ranked_entry(scored[p[k]], k + 1)
        };
    let p2 = choose|p: Seq<int>|
        {
            &&& #[trigger] is_permutation(p, scored.len())
            &&& stable_descending(scored, p)
            &&& r2.len() == scored.len()
            &&& forall|k: int| 0 <= k < r2.len() ==> #[trigger] r2[k] == ranked_entry(scored[p[k]], k + 1)
        };
    lemma_stable_order_unique(scored, p1, p2);
    assert forall|k: int| 0 <= k < r1.len() implies r1[k] == r2[k] by {
        assert(r1[k] == ranked_entry(scored[p1[k]], k + 1));
        assert(r2[k] == ranked_entry(scored[p2[k]], k + 1));
    }
    assert(r1 =~= r2);
}


/// A file is new exactly when it has no base coverage and has a head
/// coverage, whatever its patch counts.
pub proof fn lemma_new_file_meaning<P>(c: FileCandidate<P>)
    ensures
        spec_is_new_file(c) <==> (c.base_coverage_pct is None && c.head_coverage_pct is Some),
{
}

/// Two candidates that agree on whether they have base and head coverage
/// agree on being new files.
pub proof fn lemma_new_file_depends_on_coverage_only<P>(c1: FileCandidate<P>, c2: FileCandidate<P>)
    requires
        (c1.base_coverage_pct is None) == (c2.base_coverage_pct is None),
        (c1.head_coverage_pct is Some) == (c2.head_coverage_pct is Some),
    ensures
        spec_is_new_file(c1) == spec_is_new_file(c2),
{
}

/// The ranked entry of a scored candidate reports the candidate's own path,
/// patch coverage, uncovered count as its uncovered added lines, line count
/// as its total added lines, its score, its reason and its newness.
pub proof fn lemma_ranked_entry_fields<P>(s: ScoredCandidate<P>, rank: int)
    requires
        0 <= rank <= usize::MAX,
    ensures
        ranked_entry(s, rank).rank == rank,
        ranked_entry(s, rank).file_path == s.candidate.file_path,
        ranked_entry(s, rank).score == s.score,
        ranked_entry(s, rank).patch_coverage_pct == s.candidate.patch_coverage_pct,
        ranked_entry(s, rank).uncovered_added_lines == s.candidate.patch_misses,
        ranked_entry(s, rank).total_added_lines == s.candidate.patch_lines,
        ranked_entry(s, rank).is_new_file == (s.candidate.base_coverage_pct is None
            && s.candidate.head_coverage_pct is Some),
        ranked_entry(s, rank).reason == s.reason,
{
}

} // verus!
