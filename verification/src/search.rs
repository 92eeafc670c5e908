use vstd::prelude::*;

verus! {

/// Where a first-match search over a numbered list of candidates stands:
/// asking about a candidate, done with the first accepted one, or done with
/// none. The caller asks the outside world about `Ask(i)` and feeds the answer
/// back through [`Search::next`].
#[derive(Clone, Copy, Debug, PartialEq, Eq, Structural)]
pub enum Search {
    Ask(u32),
    Found(u32),
    Exhausted,
}

/// The state a search over `count` candidates starts in.
pub open spec fn search_start(count: u32) -> Search {
    if count == 0 {
        Search::Exhausted
    } else {
        Search::Ask(0)
    }
}

/// The state after candidate `index` of `count` was answered with `accepted`.
pub open spec fn search_next(count: u32, index: u32, accepted: bool) -> Search {
    if accepted {
        Search::Found(index)
    } else if index + 1 < count {
        Search::Ask((index + 1) as u32)
    } else {
        Search::Exhausted
    }
}

/// Drives a search with the given answers for up to `steps` questions.
pub open spec fn search_run(answers: Seq<bool>, state: Search, steps: nat) -> Search
    decreases steps,
{
    if steps == 0 {
        state
    } else {
        match state {
            Search::Ask(i) => if i < answers.len() {
                search_run(answers, search_next(answers.len() as u32, i, answers[i as int]), (steps - 1) as nat)
            } else {
                state
            },
            _ => state,
        }
    }
}

/// `i` is the first position whose answer is `true`.
pub open spec fn first_accepted(answers: Seq<bool>, i: int) -> bool {
    &&& 0 <= i < answers.len()
    &&& answers[i]
    &&& forall|j: int| 0 <= j < i ==> !answers[j]
}

impl Search {
    /// Starts a search over `count` candidates.
    pub fn start(count: u32) -> (s: Search)
        ensures
            s == search_start(count),
    {
        if count == 0 {
            Search::Exhausted
        } else {
            Search::Ask(0)
        }
    }

    /// Takes the answer for candidate `index` and says what to do next.
    pub fn next(count: u32, index: u32, accepted: bool) -> (s: Search)
        requires
            index < count,
        ensures
            s == search_next(count, index, accepted),
    {
        if accepted {
            Search::Found(index)
        } else if index + 1 < count {
            Search::Ask(index + 1)
        } else {
            Search::Exhausted
        }
    }
}

/// Helper for the law below: from `Ask(k)`, with no `true` answer before `k`,
/// the run ends where the first `true` answer is, or exhausted.
proof fn lemma_search_from(answers: Seq<bool>, k: u32)
    requires
        answers.len() <= u32::MAX,
        k < answers.len(),
        forall|j: int| 0 <= j < k ==> !answers[j],
    ensures
        forall|i: int| first_accepted(answers, i) ==> search_run(answers, Search::Ask(k), (answers.len() - k) as nat) == Search::Found(i as u32),
        (forall|j: int| 0 <= j < answers.len() ==> !answers[j]) ==> search_run(answers, Search::Ask(k), (answers.len() - k) as nat) == Search::Exhausted,
    decreases answers.len() - k,
{
    let n = answers.len() as u32;
    let steps = (answers.len() - k) as nat;
    assert(search_run(answers, Search::Ask(k), steps) == search_run(answers, search_next(n, k, answers[k as int]), (steps - 1) as nat));
    if answers[k as int] {
        assert forall|i: int| first_accepted(answers, i) implies search_run(answers, Search::Ask(k), steps) == Search::Found(i as u32) by {
            if i < k {
            } else if i > k {
                assert(!answers[k as int]);
            }
        }
    } else if k + 1 < n {
        lemma_search_from(answers, (k + 1) as u32);
        assert forall|i: int| first_accepted(answers, i) implies search_run(answers, Search::Ask(k), steps) == Search::Found(i as u32) by {
            assert(i != k);
        }
    } else {
        assert forall|i: int| first_accepted(answers, i) implies search_run(answers, Search::Ask(k), steps) == Search::Found(i as u32) by {
            assert(i <= k);
        }
    }
}

/// Law: answering every question of a search over `answers.len()` candidates
/// ends it on the first candidate whose answer is `true`, and exhausted when
/// no answer is `true`; it never asks more questions than there are candidates.
pub proof fn lemma_search_finds_first(answers: Seq<bool>)
    requires
        answers.len() <= u32::MAX,
    ensures
        forall|i: int| first_accepted(answers, i) ==> search_run(answers, search_start(answers.len() as u32), answers.len()) == Search::Found(i as u32),
        (forall|j: int| 0 <= j < answers.len() ==> !answers[j]) ==> search_run(answers, search_start(answers.len() as u32), answers.len()) == Search::Exhausted,
{
    if answers.len() > 0 {
        lemma_search_from(answers, 0);
    }
}

} // verus!
