//! The order in which classes are reported.
//!
//! Classes are ranked by probability, the most probable first, and classes of
//! equal probability by index, the lowest first. Probabilities are compared
//! through their bit patterns, which order as the numbers do.

use vstd::prelude::*;

use crate::probability::{is_less, lemma_patterns_order_as_numbers, Probability, ONE_BITS};
use crate::scan::{first_position, lemma_first_position};

verus! {

/// A class and the probability assigned to it.
#[derive(Clone, Copy, Debug, PartialEq, Eq)]
pub struct Prediction {
    pub index: usize,
    pub probability: Probability,
}

/// The bit pattern of each probability, in the same order.
pub open spec fn scores(probabilities: Seq<Probability>) -> Seq<u32> {
    Seq::new(probabilities.len(), |i: int| probabilities[i].bits())
}

/// Whether class `i` is reported ahead of class `j`: the higher score first,
/// and of two equal scores the lower index.
pub open spec fn ranks_before(scores: Seq<u32>, i: int, j: int) -> bool {
    scores[i] > scores[j] || (scores[i] == scores[j] && i < j)
}

/// Whether `class` occurs in `order`.
pub open spec fn lists(order: Seq<usize>, class: int) -> bool {
    exists|k: int| 0 <= k < order.len() && #[trigger] order[k] == class
}

/// Whether `order` lists every class of `scores` once, each ahead of all that
/// follow it.
pub open spec fn is_ranking(scores: Seq<u32>, order: Seq<usize>) -> bool {
    &&& order.len() == scores.len()
    &&& forall|k: int| 0 <= k < order.len() ==> 0 <= #[trigger] order[k] < scores.len()
    &&& forall|c: int| 0 <= c < scores.len() ==> #[trigger] lists(order, c)
    &&& forall|a: int, b: int|
        0 <= a < b < order.len() ==> ranks_before(scores, #[trigger] order[a] as int, #[trigger] order[b] as int)
}

/// The ranking of `scores`: the one order that `is_ranking` accepts
/// (`lemma_ranking_exists`, `lemma_ranking_is_unique`).
pub open spec fn ranking(scores: Seq<u32>) -> Seq<usize> {
    choose|order: Seq<usize>| is_ranking(scores, order)
}

/// The first `k` classes of the ranking, or all of them where there are fewer,
/// each with its probability.
pub open spec fn top_predictions(probabilities: Seq<Probability>, k: nat) -> Seq<Prediction> {
    let order = ranking(scores(probabilities));
    let count = if k <= probabilities.len() { k } else { probabilities.len() };
    Seq::new(
        count,
        |r: int| (Prediction { index: order[r], probability: probabilities[order[r] as int] }),
    )
}

/// Two rankings of the same scores agree up to any position.
proof fn lemma_rankings_agree(scores: Seq<u32>, first: Seq<usize>, second: Seq<usize>, upto: int)
    requires
        is_ranking(scores, first),
        is_ranking(scores, second),
        0 <= upto <= scores.len(),
    ensures
        forall|k: int| 0 <= k < upto ==> first[k] == second[k],
    decreases upto,
{
    if upto > 0 {
        let k = upto - 1;
        lemma_rankings_agree(scores, first, second, k);
        let x = first[k];
        let y = second[k];
        assert(lists(second, x as int));
        assert(lists(first, y as int));
        let m = choose|m: int| 0 <= m < second.len() && second[m] == x as int;
        let w = choose|w: int| 0 <= w < first.len() && first[w] == y as int;
        if m < k {
            assert(first[m] == second[m]);
            assert(ranks_before(scores, first[m] as int, first[k] as int));
        }
        if w < k {
            assert(second[w] == first[w]);
            assert(ranks_before(scores, second[w] as int, second[k] as int));
        }
        if m > k {
            assert(ranks_before(scores, second[k] as int, second[m] as int));
        }
        if w > k {
            assert(ranks_before(scores, first[k] as int, first[w] as int));
        }
    }
}

/// Ranking is deterministic: the scores alone fix the order of the classes.
pub proof fn lemma_ranking_is_unique(scores: Seq<u32>, first: Seq<usize>, second: Seq<usize>)
    requires
        is_ranking(scores, first),
        is_ranking(scores, second),
    ensures
        first == second,
{
    lemma_rankings_agree(scores, first, second, scores.len() as int);
    assert(first =~= second);
}

/// Of two classes with exactly the same score, the one with the lower index is
/// reported first.
pub proof fn lemma_equal_scores_rank_by_index(scores: Seq<u32>, order: Seq<usize>, earlier: int, later: int)
    requires
        is_ranking(scores, order),
        0 <= earlier < later < order.len(),
        scores[order[earlier] as int] == scores[order[later] as int],
    ensures
        order[earlier] < order[later],
{
    assert(ranks_before(scores, order[earlier] as int, order[later] as int));
}

/// Scores never increase along a ranking.
pub proof fn lemma_ranking_descends(scores: Seq<u32>, order: Seq<usize>, earlier: int, later: int)
    requires
        is_ranking(scores, order),
        0 <= earlier <= later < order.len(),
    ensures
        scores[order[earlier] as int] >= scores[order[later] as int],
{
    if earlier < later {
        assert(ranks_before(scores, order[earlier] as int, order[later] as int));
    }
}

/// No class is reported ahead of a more probable one: the numbers that the
/// scores stand for never increase along a ranking.
pub proof fn lemma_ranking_descends_as_numbers(probabilities: Seq<u32>, order: Seq<usize>, earlier: int, later: int)
    requires
        is_ranking(probabilities, order),
        forall|c: int| 0 <= c < probabilities.len() ==> probabilities[c] <= ONE_BITS,
        0 <= earlier <= later < order.len(),
    ensures
        !is_less(probabilities[order[earlier] as int], probabilities[order[later] as int]),
{
    lemma_ranking_descends(probabilities, order, earlier, later);
    lemma_patterns_order_as_numbers(
        probabilities[order[earlier] as int],
        probabilities[order[later] as int],
    );
}

/// A ranking of all classes but the last becomes a ranking of all classes when
/// the last class is put behind the classes that score at least as much and
/// ahead of those that score less.
proof fn lemma_insert_last(scores: Seq<u32>, order: Seq<usize>, at: int)
    requires
        0 < scores.len() <= usize::MAX,
        is_ranking(scores.drop_last(), order),
        0 <= at <= order.len(),
        forall|k: int| 0 <= k < at ==> scores[#[trigger] order[k] as int] >= scores.last(),
        forall|k: int| at <= k < order.len() ==> scores[#[trigger] order[k] as int] < scores.last(),
    ensures
        is_ranking(scores, order.insert(at, (scores.len() - 1) as usize)),
{
    let last = (scores.len() - 1) as usize;
    let before = scores.drop_last();
    let after = order.insert(at, last);
    assert forall|k: int| 0 <= k < after.len() implies 0 <= #[trigger] after[k] < scores.len() by {
        if k < at {
            assert(after[k] == order[k]);
        } else if k > at {
            assert(after[k] == order[k - 1]);
        }
    }
    assert forall|c: int| 0 <= c < scores.len() implies #[trigger] lists(after, c) by {
        if c == last {
            assert(after[at] == c);
        } else {
            assert(lists(order, c));
            let k = choose|k: int| 0 <= k < order.len() && order[k] == c;
            if k < at {
                assert(after[k] == c);
            } else {
                assert(after[k + 1] == c);
            }
        }
    }
    assert forall|a: int, b: int| 0 <= a < b < after.len() implies ranks_before(
        scores,
        #[trigger] after[a] as int,
        #[trigger] after[b] as int,
    ) by {
        if b < at {
            assert(after[a] == order[a] && after[b] == order[b]);
            assert(ranks_before(before, order[a] as int, order[b] as int));
        } else if b == at {
            assert(after[a] == order[a]);
        } else if a < at {
            assert(after[a] == order[a] && after[b] == order[b - 1]);
            assert(scores[order[a] as int] >= scores.last());
            assert(scores[order[b - 1] as int] < scores.last());
        } else if a == at {
            assert(after[b] == order[b - 1]);
        } else {
            assert(after[a] == order[a - 1] && after[b] == order[b - 1]);
            assert(ranks_before(before, order[a - 1] as int, order[b - 1] as int));
        }
    }
}

/// Every sequence of scores that a vector can hold has a ranking.
pub proof fn lemma_ranking_exists(scores: Seq<u32>)
    requires
        scores.len() <= usize::MAX,
    ensures
        is_ranking(scores, ranking(scores)),
    decreases scores.len(),
{
    if scores.len() == 0 {
        assert(is_ranking(scores, Seq::<usize>::empty()));
    } else {
        let before = scores.drop_last();
        lemma_ranking_exists(before);
        let order = ranking(before);
        let lower = |class: usize| scores[class as int] < scores.last();
        let at = first_position(order, lower);
        lemma_first_position(order, lower);
        assert forall|k: int| at <= k < order.len() implies scores[#[trigger] order[k] as int]
            < scores.last() by {
            lemma_ranking_descends(before, order, at, k);
        }
        lemma_insert_last(scores, order, at);
    }
}

/// Ranks all classes: by probability, highest first, and among equal
/// probabilities by index, lowest first.
pub fn rank(probabilities: &Vec<Probability>) -> (order: Vec<usize>)
    ensures
        is_ranking(scores(probabilities@), order@),
        order@ == ranking(scores(probabilities@)),
{
    let ghost all = scores(probabilities@);
    let n: usize = probabilities.len();
    let mut order: Vec<usize> = Vec::new();
    let mut i: usize = 0;
    assert(is_ranking(all.take(0), order@));
    while i < n
        invariant
            all == scores(probabilities@),
            n == probabilities.len(),
            i <= n,
            is_ranking(all.take(i as int), order@),
        decreases n - i,
    {
        let score: u32 = probabilities[i].to_bits();
        let mut at: usize = i;
        while at > 0 && probabilities[order[at - 1]].to_bits() < score
            invariant
                all == scores(probabilities@),
                n == probabilities.len(),
                i < n,
                at <= i,
                score == all[i as int],
                is_ranking(all.take(i as int), order@),
                forall|k: int| at <= k < i ==> all[#[trigger] order[k] as int] < score,
            decreases at,
        {
            at -= 1;
        }
        proof {
            let upto = all.take(i + 1);
            assert(upto.drop_last() =~= all.take(i as int));
            assert forall|k: int| 0 <= k < at implies upto[#[trigger] order[k] as int]
                >= upto.last() by {
                lemma_ranking_descends(all.take(i as int), order@, k, at - 1);
            }
            lemma_insert_last(upto, order@, at as int);
        }
        order.insert(at, i);
        i += 1;
    }
    proof {
        assert(all.take(n as int) =~= all);
        lemma_ranking_is_unique(all, order@, ranking(all));
    }
    order
}

/// The `k` most probable classes in ranking order, or all of them where there
/// are fewer than `k`.
pub fn top_k(probabilities: &Vec<Probability>, k: usize) -> (out: Vec<Prediction>)
    ensures
        out@ == top_predictions(probabilities@, k as nat),
{
    let order = rank(probabilities);
    let count: usize = if k <= order.len() { k } else { order.len() };
    let mut out: Vec<Prediction> = Vec::new();
    let mut r: usize = 0;
    while r < count
        invariant
            count <= order.len(),
            order.len() == probabilities.len(),
            forall|j: int| 0 <= j < order.len() ==> 0 <= #[trigger] order[j] < probabilities.len(),
            r <= count,
            out.len() == r,
            forall|j: int|
                0 <= j < r ==> out[j] == (Prediction {
                    index: order[j],
                    probability: probabilities[order[j] as int],
                }),
        decreases count - r,
    {
        let index: usize = order[r];
        out.push(Prediction { index, probability: probabilities[index] });
        r += 1;
    }
    assert(out@ =~= top_predictions(probabilities@, k as nat));
    out
}

} // verus!
