//! The fuzzy filter: candidates are scored against a query, those without a
//! score are dropped, and the rest are shown best first. Candidates with equal
//! scores keep the order they had in the source list.

use crate::text::names_view;
use fuzzy_matcher::skim::SkimMatcherV2;
use fuzzy_matcher::FuzzyMatcher;
use vstd::prelude::*;

verus! {

/// The score that the skim matcher, in its default configuration, gives to
/// `choice` for `pattern`, or `None` where `choice` does not match.
pub uninterp spec fn skim_score(choice: Seq<char>, pattern: Seq<char>) -> Option<i64>;

/// `SkimMatcherV2::fuzzy_match` on a matcher made by `SkimMatcherV2::default`.
/// The matcher is made for this one call, so nothing but the two strings
/// reaches the result: it is the score that `skim_score` names.
#[verifier::external_body]
fn skim_match(choice: &str, pattern: &str) -> (score: Option<i64>)
    ensures
        score == skim_score(choice@, pattern@),
{
    SkimMatcherV2::default().fuzzy_match(choice, pattern)
}

/// The score at a position, where there is one.
pub open spec fn score_at(scores: Seq<Option<i64>>, i: int) -> int {
    match scores[i] {
        Some(s) => s as int,
        None => 0,
    }
}

/// Whether position `a` is shown before position `b`: its score is higher, or
/// the scores are equal and it came first.
pub open spec fn shown_before(scores: Seq<Option<i64>>, a: int, b: int) -> bool {
    score_at(scores, a) > score_at(scores, b) || (score_at(scores, a) == score_at(scores, b) && a
        < b)
}

/// `order` with the position `at` put behind every position whose score is at
/// least that of `at`.
pub open spec fn placed(scores: Seq<Option<i64>>, order: Seq<int>, at: int) -> Seq<int>
    decreases order.len(),
{
    if order.len() == 0 {
        seq![at]
    } else if score_at(scores, order.last()) >= score_at(scores, at) {
        order.push(at)
    } else {
        placed(scores, order.drop_last(), at).push(order.last())
    }
}

/// The scored positions among the first `n`, best score first, equal scores in
/// source order.
pub open spec fn ranked_prefix(scores: Seq<Option<i64>>, n: int) -> Seq<int>
    decreases n,
{
    if n <= 0 {
        Seq::empty()
    } else if scores[n - 1].is_some() {
        placed(scores, ranked_prefix(scores, n - 1), n - 1)
    } else {
        ranked_prefix(scores, n - 1)
    }
}

/// The scored positions of a list in display order.
pub open spec fn ranked(scores: Seq<Option<i64>>) -> Seq<int> {
    ranked_prefix(scores, scores.len() as int)
}

/// The scores of all candidates for a query.
pub open spec fn scores_of(candidates: Seq<Seq<char>>, query: Seq<char>) -> Seq<Option<i64>> {
    Seq::new(candidates.len(), |i: int| skim_score(candidates[i], query))
}

/// The positions of the candidates that are displayed for a query, in display
/// order: all of them in source order for the empty query, else the ranked
/// matches.
pub open spec fn display_order(candidates: Seq<Seq<char>>, query: Seq<char>) -> Seq<int> {
    if query.len() == 0 {
        Seq::new(candidates.len(), |i: int| i)
    } else {
        ranked(scores_of(candidates, query))
    }
}

/// The candidates that are displayed for a query, in display order.
pub open spec fn filtered(candidates: Seq<Seq<char>>, query: Seq<char>) -> Seq<Seq<char>> {
    let order = display_order(candidates, query);
    Seq::new(order.len(), |k: int| candidates[order[k]])
}

/// A list of positions as mathematical integers.
pub open spec fn positions(order: Seq<usize>) -> Seq<int> {
    Seq::new(order.len(), |k: int| order[k] as int)
}

/// Placing a position keeps what was there, adds the position, and puts it at
/// the first place from which on every score is lower.
pub proof fn lemma_placed_is_insert(scores: Seq<Option<i64>>, order: Seq<int>, at: int, p: int)
    requires
        0 <= p <= order.len(),
        forall|k: int| p <= k < order.len() ==> score_at(scores, #[trigger] order[k]) < score_at(scores, at),
        p > 0 ==> score_at(scores, order[p - 1]) >= score_at(scores, at),
    ensures
        placed(scores, order, at) == order.insert(p, at),
    decreases order.len() - p,
{
    if order.len() == 0 {
        assert(order.insert(p, at) =~= seq![at]);
    } else if p == order.len() {
        assert(order.insert(p, at) =~= order.push(at));
    } else {
        let shorter = order.drop_last();
        assert(score_at(scores, order[order.len() - 1]) < score_at(scores, at));
        assert forall|k: int| p <= k < shorter.len() implies score_at(scores, #[trigger] shorter[k])
            < score_at(scores, at) by {
            assert(shorter[k] == order[k]);
        }
        assert(p > 0 ==> shorter[p - 1] == order[p - 1]);
        lemma_placed_is_insert(scores, shorter, at, p);
        assert(shorter.insert(p, at).push(order.last()) =~= order.insert(p, at));
    }
}

/// Every ranked position lies among the first `n` and holds a score; every
/// scored position among the first `n` is ranked; and each ranked position is
/// shown before those that follow it, so none occurs twice.
pub proof fn lemma_ranked_prefix(scores: Seq<Option<i64>>, n: int)
    requires
        0 <= n <= scores.len(),
    ensures
        forall|k: int|
            0 <= k < ranked_prefix(scores, n).len() ==> 0 <= #[trigger] ranked_prefix(scores, n)[k]
                < n && scores[ranked_prefix(scores, n)[k]].is_some(),
        forall|i: int|
            0 <= i < n && scores[i].is_some() ==> ranked_prefix(scores, n).contains(i),
        forall|j: int, k: int|
            0 <= j < k < ranked_prefix(scores, n).len() ==> shown_before(
                scores,
                #[trigger] ranked_prefix(scores, n)[j],
                #[trigger] ranked_prefix(scores, n)[k],
            ),
        ranked_prefix(scores, n).len() <= n,
    decreases n,
{
    if n > 0 {
        lemma_ranked_prefix(scores, n - 1);
        let before = ranked_prefix(scores, n - 1);
        let after = ranked_prefix(scores, n);
        if scores[n - 1].is_some() {
            let at = n - 1;
            let p = place_of(scores, before, at);
            lemma_place_of(scores, before, at);
            lemma_placed_is_insert(scores, before, at, p);
            assert(after == before.insert(p, at));
            assert forall|i: int| 0 <= i < n && scores[i].is_some() implies after.contains(i) by {
                if i == at {
                    assert(after[p] == at);
                } else {
                    assert(i < n - 1);
                    assert(before.contains(i));
                    let k = choose|k: int| 0 <= k < before.len() && before[k] == i;
                    if k < p {
                        assert(after[k] == i);
                    } else {
                        assert(after[k + 1] == i);
                    }
                }
            }
            assert forall|j: int, k: int| 0 <= j < k < after.len() implies shown_before(
                scores,
                #[trigger] after[j],
                #[trigger] after[k],
            ) by {
                if k < p {
                    assert(after[j] == before[j] && after[k] == before[k]);
                } else if k == p {
                    assert(after[j] == before[j]);
                    if j < p - 1 {
                        assert(shown_before(scores, before[j], before[p - 1]));
                    }
                } else if j == p {
                    assert(after[k] == before[k - 1]);
                } else if j < p {
                    assert(after[j] == before[j] && after[k] == before[k - 1]);
                } else {
                    assert(after[j] == before[j - 1] && after[k] == before[k - 1]);
                }
            }
        } else {
            assert forall|i: int| 0 <= i < n && scores[i].is_some() implies after.contains(i) by {
                assert(i < n - 1);
            }
        }
    }
}

/// The first place in `order` from which on every score is below that of `at`.
pub open spec fn place_of(scores: Seq<Option<i64>>, order: Seq<int>, at: int) -> int
    decreases order.len(),
{
    if order.len() == 0 {
        0
    } else if score_at(scores, order.last()) >= score_at(scores, at) {
        order.len() as int
    } else {
        place_of(scores, order.drop_last(), at)
    }
}

/// `place_of` lies within `order`, has only lower scores from it on, and a
/// score at least as high just before it.
pub proof fn lemma_place_of(scores: Seq<Option<i64>>, order: Seq<int>, at: int)
    ensures
        0 <= place_of(scores, order, at) <= order.len(),
        forall|k: int|
            place_of(scores, order, at) <= k < order.len() ==> score_at(scores, #[trigger] order[k])
                < score_at(scores, at),
        place_of(scores, order, at) > 0 ==> score_at(
            scores,
            order[place_of(scores, order, at) - 1],
        ) >= score_at(scores, at),
    decreases order.len(),
{
    if order.len() > 0 && score_at(scores, order.last()) < score_at(scores, at) {
        let shorter = order.drop_last();
        lemma_place_of(scores, shorter, at);
        let p = place_of(scores, shorter, at);
        assert forall|k: int| p <= k < order.len() implies score_at(scores, #[trigger] order[k])
            < score_at(scores, at) by {
            if k < shorter.len() {
                assert(order[k] == shorter[k]);
            }
        }
        assert(p > 0 ==> order[p - 1] == shorter[p - 1]);
    }
}

/// Ranks the scored positions of a list: best score first, equal scores in
/// source order; positions without a score are left out.
pub fn rank_by_score(scores: &Vec<Option<i64>>) -> (order: Vec<usize>)
    ensures
        positions(order@) == ranked(scores@),
{
    let mut order: Vec<usize> = Vec::new();
    let mut i: usize = 0;
    while i < scores.len()
        invariant
            i <= scores.len(),
            positions(order@) == ranked_prefix(scores@, i as int),
            order@.len() <= i,
            forall|k: int| 0 <= k < order@.len() ==> #[trigger] order@[k] < i,
        decreases scores.len() - i,
    {
        match scores[i] {
            Some(s) => {
                let mut p: usize = order.len();
                while p > 0 && score_lt(scores, order[p - 1], s)
                    invariant
                        p <= order@.len(),
                        i < scores.len(),
                        scores@[i as int] == Some(s),
                        forall|k: int| 0 <= k < order@.len() ==> #[trigger] order@[k] < i,
                        forall|k: int|
                            p <= k < order@.len() ==> score_at(
                                scores@,
                                #[trigger] positions(order@)[k],
                            ) < s,
                    decreases p,
                {
                    p -= 1;
                }
                proof {
                    let before = positions(order@);
                    assert(score_at(scores@, i as int) == s);
                    assert(p > 0 ==> before[p - 1] == order@[p - 1]);
                    lemma_placed_is_insert(scores@, before, i as int, p as int);
                    assert(positions(order@.insert(p as int, i)) =~= before.insert(
                        p as int,
                        i as int,
                    ));
                }
                order.insert(p, i);
            },
            None => {},
        }
        i += 1;
    }
    order
}

/// Whether the score at position `at` is below `s`.
fn score_lt(scores: &Vec<Option<i64>>, at: usize, s: i64) -> (lower: bool)
    requires
        at < scores.len(),
    ensures
        lower == (score_at(scores@, at as int) < s),
{
    match scores[at] {
        Some(t) => t < s,
        None => 0 < s,
    }
}

/// Scores every candidate against the query.
pub fn score_all(candidates: &Vec<String>, query: &str) -> (scores: Vec<Option<i64>>)
    ensures
        scores@ == scores_of(names_view(candidates@), query@),
{
    let mut scores: Vec<Option<i64>> = Vec::new();
    let mut i: usize = 0;
    while i < candidates.len()
        invariant
            i <= candidates.len(),
            scores@.len() == i,
            forall|k: int|
                0 <= k < i ==> #[trigger] scores@[k] == skim_score(candidates@[k]@, query@),
        decreases candidates.len() - i,
    {
        scores.push(skim_match(candidates[i].as_str(), query));
        i += 1;
    }
    assert(scores@ =~= scores_of(names_view(candidates@), query@));
    scores
}

/// The positions of the candidates to display for a query, in display order.
pub fn fuzzy_positions(candidates: &Vec<String>, query: &str) -> (order: Vec<usize>)
    ensures
        positions(order@) == display_order(names_view(candidates@), query@),
        forall|k: int| 0 <= k < order@.len() ==> #[trigger] order@[k] < candidates@.len(),
{
    if query.is_empty() {
        let mut order: Vec<usize> = Vec::new();
        let mut i: usize = 0;
        while i < candidates.len()
            invariant
                i <= candidates.len(),
                order@.len() == i,
                forall|k: int| 0 <= k < i ==> #[trigger] order@[k] == k,
            decreases candidates.len() - i,
        {
            order.push(i);
            i += 1;
        }
        assert(positions(order@) =~= display_order(names_view(candidates@), query@));
        order
    } else {
        let scores = score_all(candidates, query);
        let order = rank_by_score(&scores);
        proof {
            lemma_ranked_prefix(scores@, scores@.len() as int);
            assert forall|k: int| 0 <= k < order@.len() implies #[trigger] order@[k]
                < candidates@.len() by {
                assert(positions(order@)[k] == order@[k]);
            }
        }
        order
    }
}

/// Filters and ranks a list of names for a query. The empty query keeps the
/// list as it is.
pub fn fuzzy_filter(candidates: &Vec<String>, query: &str) -> (shown: Vec<String>)
    ensures
        names_view(shown@) == filtered(names_view(candidates@), query@),
{
    let order = fuzzy_positions(candidates, query);
    let mut shown: Vec<String> = Vec::new();
    let mut k: usize = 0;
    while k < order.len()
        invariant
            k <= order.len(),
            shown@.len() == k,
            forall|j: int| 0 <= j < order@.len() ==> #[trigger] order@[j] < candidates@.len(),
            forall|j: int| 0 <= j < k ==> (#[trigger] shown@[j])@ == candidates@[order@[j] as int]@,
        decreases order.len() - k,
    {
        shown.push(candidates[order[k]].clone());
        k += 1;
    }
    proof {
        let spec_order = display_order(names_view(candidates@), query@);
        assert forall|j: int| 0 <= j < shown@.len() implies names_view(shown@)[j] == filtered(
            names_view(candidates@),
            query@,
        )[j] by {
            assert(positions(order@)[j] == order@[j]);
        }
        assert(names_view(shown@) =~= filtered(names_view(candidates@), query@));
    }
    shown
}

/// Filtering with the empty query gives the list back: the same names in the
/// same order.
pub proof fn law_empty_query_keeps_list(candidates: Seq<Seq<char>>)
    ensures
        filtered(candidates, Seq::<char>::empty()) == candidates,
{
    assert(filtered(candidates, Seq::<char>::empty()) =~= candidates);
}

/// For a query that is not empty, every name shown is a candidate that the
/// matcher scores, every candidate that the matcher scores is shown, and no
/// position of the source list is shown twice.
pub proof fn law_filter_shows_exactly_matches(candidates: Seq<Seq<char>>, query: Seq<char>)
    requires
        query.len() > 0,
    ensures
        forall|k: int|
            0 <= k < filtered(candidates, query).len() ==> skim_score(
                #[trigger] filtered(candidates, query)[k],
                query,
            ).is_some() && candidates.contains(filtered(candidates, query)[k]),
        forall|i: int|
            0 <= i < candidates.len() && skim_score(#[trigger] candidates[i], query).is_some()
                ==> filtered(candidates, query).contains(candidates[i]),
        display_order(candidates, query).no_duplicates(),
        filtered(candidates, query).len() <= candidates.len(),
{
    let scores = scores_of(candidates, query);
    let order = display_order(candidates, query);
    let shown = filtered(candidates, query);
    lemma_ranked_prefix(scores, scores.len() as int);
    assert forall|k: int| 0 <= k < shown.len() implies skim_score(#[trigger] shown[k], query).is_some()
        && candidates.contains(shown[k]) by {
        let i = order[k];
        assert(scores[i].is_some());
        assert(shown[k] == candidates[i]);
    }
    assert forall|i: int|
        0 <= i < candidates.len() && skim_score(
            #[trigger] candidates[i],
            query,
        ).is_some() implies shown.contains(candidates[i]) by {
        assert(scores[i].is_some());
        assert(order.contains(i));
        let k = choose|k: int| 0 <= k < order.len() && order[k] == i;
        assert(shown[k] == candidates[i]);
    }
    assert forall|j: int, k: int| 0 <= j < order.len() && 0 <= k < order.len() && j != k implies order[j]
        != order[k] by {
        if j < k {
            assert(shown_before(scores, order[j], order[k]));
        } else {
            assert(shown_before(scores, order[k], order[j]));
        }
    }
}

/// The names shown for a query come best score first, and names with equal
/// scores in the order of the source list.
pub proof fn law_filter_is_ranked(candidates: Seq<Seq<char>>, query: Seq<char>)
    requires
        query.len() > 0,
    ensures
        forall|j: int, k: int|
            0 <= j < k < display_order(candidates, query).len() ==> shown_before(
                scores_of(candidates, query),
                #[trigger] display_order(candidates, query)[j],
                #[trigger] display_order(candidates, query)[k],
            ),
{
    let scores = scores_of(candidates, query);
    lemma_ranked_prefix(scores, scores.len() as int);
}

} // verus!
