//! Finding node kinds by a few typed characters.
//!
//! Every label of the catalog is scored against the query. The kinds that
//! match are ranked by their score; those that score well against the
//! average are offered.

use vstd::prelude::*;
use vstd::string::*;
use crate::graph::node_types::{all_kinds, catalog, NodeKind};

verus! {

/// The longest query that is scored. No label is as long, and a query
/// matches only labels that hold all its characters.
pub const MAX_QUERY_LEN: usize = 64;

/// The score that the matcher gives to `target` for `query`, or nothing if
/// the query does not match.
pub uninterp spec fn fuzzy_score(target: Seq<char>, query: Seq<char>) -> Option<usize>;

/// Calls `code_fuzzy_match::fuzzy_match`. The score is a function of the
/// two strings alone; the contract gives it its name and claims nothing
/// else. Both strings are kept short, so that no sum inside the matcher can
/// overflow.
#[verifier::external_body]
fn fuzzy_match(target: &str, query: &str) -> (score: Option<usize>)
    requires
        target@.len() <= MAX_QUERY_LEN,
        query@.len() <= MAX_QUERY_LEN,
    ensures
        score == fuzzy_score(target@, query@),
{
    code_fuzzy_match::fuzzy_match(target, query)
}

/// No label is longer than the longest query.
pub proof fn lemma_labels_are_short(kind: NodeKind)
    ensures
        kind.spec_label().len() <= MAX_QUERY_LEN,
{
    reveal_strlit("Terrain Output");
    reveal_strlit("Heightmap Terrain");
    reveal_strlit("Fractal Noise Terrain");
    reveal_strlit("Blob Cave Terrain");
    reveal_strlit("Spaghetti Cave Terrain");
    reveal_strlit("Invert Terrain");
    reveal_strlit("Erode Terrain");
    reveal_strlit("Terrain Union");
    reveal_strlit("Terrain Intersection");
    reveal_strlit("Terrain to SDF");
    reveal_strlit("SDF To Terrain");
    reveal_strlit("Noise Heightmap");
    reveal_strlit("Ridge Heightmap");
    reveal_strlit("Add");
    reveal_strlit("Subtract");
    reveal_strlit("Multiply");
    reveal_strlit("Divide");
    reveal_strlit("Power");
    reveal_strlit("Log");
    reveal_strlit("Min");
    reveal_strlit("Max");
    reveal_strlit("Greater Than");
    reveal_strlit("Less Than");
    reveal_strlit("Equal");
    reveal_strlit("Floor");
    reveal_strlit("Round");
    reveal_strlit("Ceil");
    reveal_strlit("Frac");
    reveal_strlit("Abs");
    reveal_strlit("Sign");
    reveal_strlit("Clamp");
    reveal_strlit("Lerp");
    reveal_strlit("Map Range");
    reveal_strlit("Combine XYZ");
    reveal_strlit("Separate XYZ");
    reveal_strlit("Vector Add");
    reveal_strlit("Vector Subtract");
    reveal_strlit("Vector Scale");
    reveal_strlit("Vector Multiply");
    reveal_strlit("Dot Product");
    reveal_strlit("Cross Product");
    reveal_strlit("Length");
    reveal_strlit("Distance");
    reveal_strlit("Normalize");
    reveal_strlit("Position");
    reveal_strlit("Noise 3D");
    reveal_strlit("Noise 2D");
    reveal_strlit("Sin");
    reveal_strlit("Cos");
    reveal_strlit("Tan");
    reveal_strlit("Asin");
    reveal_strlit("Acos");
    reveal_strlit("Atan");
    reveal_strlit("Biome Parameter");
    reveal_strlit("Biome Weight");
}

/// The score of each kind of the catalog for `query`. A query longer than
/// [`MAX_QUERY_LEN`] matches no kind.
pub open spec fn spec_scores(query: Seq<char>) -> Seq<Option<usize>> {
    Seq::new(
        catalog().len(),
        |i: int|
            if query.len() <= MAX_QUERY_LEN {
                fuzzy_score(catalog()[i].spec_label(), query)
            } else {
                None
            },
    )
}

/// A score as a number: a kind that does not match counts as -2.
pub open spec fn score_of(score: Option<usize>) -> int {
    match score {
        Some(s) => s as int,
        None => -2,
    }
}

/// The sum of the first `n` scores.
pub open spec fn score_sum(scores: Seq<Option<usize>>, n: int) -> int
    decreases n,
{
    if n <= 0 {
        0
    } else {
        score_sum(scores, n - 1) + score_of(scores[n - 1])
    }
}

/// Whether the entry `i` is offered: it matches, and its score is more than
/// half a point under the average of all scores.
pub open spec fn is_shown(scores: Seq<Option<usize>>, i: int) -> bool {
    scores[i] is Some && 2 * scores.len() * score_of(scores[i]) > 2 * score_sum(
        scores,
        scores.len() as int,
    ) - scores.len()
}

/// Whether the entry `i` ranks before the entry `j`: by the greater score,
/// and among equal scores by the order of the entries.
pub open spec fn ranks_before(scores: Seq<Option<usize>>, i: int, j: int) -> bool {
    score_of(scores[i]) > score_of(scores[j]) || (score_of(scores[i]) == score_of(scores[j]) && i
        < j)
}

/// `shown` holds the first `n` entries that are offered, each once, best
/// first.
pub open spec fn is_ranking_of(scores: Seq<Option<usize>>, shown: Seq<usize>, n: int) -> bool {
    &&& forall|a: int| 0 <= a < shown.len() ==> (#[trigger] shown[a]) < n && is_shown(scores, shown[a] as int)
    &&& forall|i: int|
        0 <= i < n && is_shown(scores, i) ==> exists|a: int|
            0 <= a < shown.len() && #[trigger] shown[a] == i
    &&& forall|a: int, b: int|
        0 <= a < b < shown.len() ==> ranks_before(scores, #[trigger] shown[a] as int, #[trigger] shown[b] as int)
}

/// `shown` holds the entries that are offered, each once, best first.
pub open spec fn is_ranking(scores: Seq<Option<usize>>, shown: Seq<usize>) -> bool {
    is_ranking_of(scores, shown, scores.len() as int)
}

fn score_value(score: Option<usize>) -> (v: i128)
    ensures
        v == score_of(score),
{
    match score {
        Some(s) => s as i128,
        None => -2,
    }
}

/// The entries that are offered, best first.
pub fn rank_matches(scores: &Vec<Option<usize>>) -> (shown: Vec<usize>)
    requires
        scores@.len() <= u32::MAX,
    ensures
        is_ranking(scores@, shown@),
{
    let n = scores.len();
    let mut sum: i128 = 0;
    let mut i: usize = 0;
    while i < n
        invariant
            i <= n,
            n == scores@.len(),
            n <= u32::MAX,
            sum == score_sum(scores@, i as int),
            -2 * i <= sum <= i * 0x1_0000_0000_0000_0000,
        decreases n - i,
    {
        sum = sum + score_value(scores[i]);
        i += 1;
    }
    let len = n as i128;
    let bound: i128 = 2 * sum - len;
    let mut shown: Vec<usize> = Vec::new();
    let mut i: usize = 0;
    while i < n
        invariant
            i <= n,
            n == scores@.len(),
            n <= u32::MAX,
            len == n,
            sum == score_sum(scores@, n as int),
            bound == 2 * sum - len,
            -2 * n <= sum <= n * 0x1_0000_0000_0000_0000,
            is_ranking_of(scores@, shown@, i as int),
        decreases n - i,
    {
        let v = score_value(scores[i]);
        assert(0 <= 2 * len * 0x1_0000_0000_0000_0000 <= 0x2_0000_0000_0000_0000_0000_0000)
            by (nonlinear_arith)
            requires
                0 <= len <= 0xffff_ffff,
        ;
        assert(-4 * len <= 2 * len * v <= 2 * len * 0x1_0000_0000_0000_0000) by (nonlinear_arith)
            requires
                0 <= len,
                -2 <= v <= 0x1_0000_0000_0000_0000,
        ;
        let offered = scores[i].is_some() && 2 * len * v > bound;
        assert(offered == is_shown(scores@, i as int));
        if offered {
            let ghost before = shown@;
            let mut p: usize = shown.len();
            while p > 0 && score_value(scores[shown[p - 1]]) < v
                invariant
                    p <= shown.len(),
                    shown@ == before,
                    i < n,
                    n == scores@.len(),
                    v == score_of(scores@[i as int]),
                    is_ranking_of(scores@, shown@, i as int),
                    forall|b: int|
                        p <= b < shown.len() ==> score_of(scores@[(#[trigger] shown@[b]) as int]) < v,
                decreases p,
            {
                p -= 1;
            }
            shown.insert(p, i);
            proof {
                let after = shown@;
                assert forall|a: int| 0 <= a < after.len() implies (#[trigger] after[a]) < i + 1
                    && is_shown(scores@, after[a] as int) by {
                    if a < p {
                        assert(after[a] == before[a]);
                    } else if a > p {
                        assert(after[a] == before[a - 1]);
                    }
                }
                assert forall|x: int| 0 <= x < i + 1 && is_shown(scores@, x) implies exists|a: int|
                    0 <= a < after.len() && #[trigger] after[a] == x by {
                    if x == i {
                        assert(after[p as int] == i);
                    } else {
                        let a = choose|a: int| 0 <= a < before.len() && #[trigger] before[a] == x;
                        if a < p {
                            assert(after[a] == x);
                        } else {
                            assert(after[a + 1] == x);
                        }
                    }
                }
                assert forall|a: int, b: int| 0 <= a < b < after.len() implies ranks_before(
                    scores@,
                    #[trigger] after[a] as int,
                    #[trigger] after[b] as int,
                ) by {
                    let x = if a < p { a } else { a - 1 };
                    let y = if b < p { b } else { b - 1 };
                    if a != p && b != p {
                        assert(after[a] == before[x]);
                        assert(after[b] == before[y]);
                        assert(ranks_before(scores@, before[x] as int, before[y] as int));
                    } else if a == p {
                        assert(after[b] == before[y]);
                        assert(score_of(scores@[before[y] as int]) < v);
                    } else {
                        assert(after[a] == before[x]);
                        assert(before[x] < i);
                        if p > 0 {
                            assert(score_of(scores@[before[p - 1] as int]) >= v);
                            if x < p - 1 {
                                assert(ranks_before(scores@, before[x] as int, before[p - 1] as int));
                            }
                        }
                    }
                }
            }
        }
        i += 1;
    }
    shown
}

/// The entry that ranks first of all, whether it matches or not; nothing if
/// there are no entries.
pub fn best_match(scores: &Vec<Option<usize>>) -> (best: Option<usize>)
    ensures
        scores@.len() == 0 ==> best is None,
        scores@.len() > 0 ==> best is Some && best.unwrap() < scores@.len() && forall|j: int|
            0 <= j < scores@.len() && j != best.unwrap() ==> ranks_before(
                scores@,
                best.unwrap() as int,
                j,
            ),
{
    if scores.len() == 0 {
        return None;
    }
    let mut best: usize = 0;
    let mut i: usize = 1;
    while i < scores.len()
        invariant
            1 <= i <= scores.len(),
            best < i,
            forall|j: int|
                0 <= j < i && j != best ==> #[trigger] ranks_before(scores@, best as int, j),
        decreases scores.len() - i,
    {
        let ghost was = best;
        if score_value(scores[i]) > score_value(scores[best]) {
            best = i;
        }
        proof {
            assert forall|j: int| 0 <= j < i + 1 && j != best implies #[trigger] ranks_before(
                scores@,
                best as int,
                j,
            ) by {
                if j != was && j < i {
                    assert(ranks_before(scores@, was as int, j));
                }
            }
        }
        i += 1;
    }
    Some(best)
}

/// Scores every kind of the catalog against `query`.
pub fn match_scores(query: &str) -> (scores: Vec<Option<usize>>)
    ensures
        scores@ == spec_scores(query@),
{
    let kinds = all_kinds();
    let short = query.unicode_len() <= MAX_QUERY_LEN;
    let mut scores: Vec<Option<usize>> = Vec::new();
    let mut i: usize = 0;
    while i < kinds.len()
        invariant
            i <= kinds.len(),
            kinds@ == catalog(),
            short == (query@.len() <= MAX_QUERY_LEN),
            scores@.len() == i,
            forall|k: int| 0 <= k < i ==> scores@[k] == spec_scores(query@)[k],
        decreases kinds.len() - i,
    {
        let score = if short {
            proof {
                lemma_labels_are_short(kinds@[i as int]);
            }
            fuzzy_match(kinds[i].label(), query)
        } else {
            None
        };
        scores.push(score);
        i += 1;
    }
    assert(scores@ =~= spec_scores(query@));
    scores
}

/// The kinds that are offered for `query`, best first.
pub fn search_node_kinds(query: &str) -> (found: Vec<NodeKind>)
    ensures
        exists|shown: Seq<usize>|
            is_ranking(spec_scores(query@), shown) && found@.len() == shown.len() && forall|a: int|
                0 <= a < shown.len() ==> found@[a] == catalog()[(#[trigger] shown[a]) as int],
{
    let kinds = all_kinds();
    let scores = match_scores(query);
    let shown = rank_matches(&scores);
    let mut found: Vec<NodeKind> = Vec::new();
    let mut a: usize = 0;
    while a < shown.len()
        invariant
            a <= shown.len(),
            kinds@ == catalog(),
            scores@.len() == catalog().len(),
            is_ranking(scores@, shown@),
            found@.len() == a,
            forall|b: int| 0 <= b < a ==> found@[b] == catalog()[(#[trigger] shown@[b]) as int],
        decreases shown.len() - a,
    {
        found.push(kinds[shown[a]]);
        a += 1;
    }
    found
}

/// The kind that a query picks when it is confirmed: the one that ranks
/// first of all kinds.
pub fn best_node_kind(query: &str) -> (kind: NodeKind)
    ensures
        exists|i: int|
            0 <= i < catalog().len() && kind == catalog()[i] && forall|j: int|
                0 <= j < catalog().len() && j != i ==> #[trigger] ranks_before(
                    spec_scores(query@),
                    i,
                    j,
                ),
{
    let kinds = all_kinds();
    let scores = match_scores(query);
    match best_match(&scores) {
        Some(i) => kinds[i],
        None => NodeKind::TerrainOutput,
    }
}

} // verus!
