//! The outcomes of a batch of tasks, recorded as the tasks complete.
use vstd::prelude::*;

use crate::fetch::FetchError;

verus! {

/// One slot per task of the batch: `None` until the task completes.
pub struct Batch {
    outcomes: Vec<Option<Result<(), FetchError>>>,
}

impl View for Batch {
    type V = Seq<Option<Result<(), FetchError>>>;

    closed spec fn view(&self) -> Self::V {
        self.outcomes@
    }
}

/// The slots of a batch of `n` tasks before any completes.
pub open spec fn empty_slots(n: nat) -> Seq<Option<Result<(), FetchError>>> {
    Seq::new(n, |i: int| None)
}

/// How many tasks have completed.
pub open spec fn completed_count(s: Seq<Option<Result<(), FetchError>>>) -> nat
    decreases s.len(),
{
    if s.len() == 0 {
        0
    } else {
        completed_count(s.drop_last()) + if s.last() is Some { 1nat } else { 0nat }
    }
}

/// How many tasks have completed with success.
pub open spec fn success_count(s: Seq<Option<Result<(), FetchError>>>) -> nat
    decreases s.len(),
{
    if s.len() == 0 {
        0
    } else {
        success_count(s.drop_last()) + if s.last() matches Some(Ok(_)) {
            1nat
        } else {
            0nat
        }
    }
}

/// The slots after the tasks listed in `order` completed one after the
/// other, task `i` with outcome `results[i]`.
pub open spec fn record_all(
    slots: Seq<Option<Result<(), FetchError>>>,
    order: Seq<int>,
    results: Seq<Result<(), FetchError>>,
) -> Seq<Option<Result<(), FetchError>>>
    decreases order.len(),
{
    if order.len() == 0 {
        slots
    } else {
        record_all(slots, order.drop_last(), results).update(
            order.last(),
            Some(results[order.last()]),
        )
    }
}

proof fn lemma_completed_count_bound(s: Seq<Option<Result<(), FetchError>>>)
    ensures
        completed_count(s) <= s.len(),
        success_count(s) <= completed_count(s),
    decreases s.len(),
{
    if s.len() > 0 {
        lemma_completed_count_bound(s.drop_last());
    }
}

proof fn lemma_record_all_slots(
    n: nat,
    order: Seq<int>,
    results: Seq<Result<(), FetchError>>,
)
    requires
        results.len() == n,
        forall|k: int| 0 <= k < order.len() ==> 0 <= #[trigger] order[k] < n,
    ensures
        record_all(empty_slots(n), order, results).len() == n,
        forall|j: int|
            0 <= j < n ==> #[trigger] record_all(empty_slots(n), order, results)[j]
                == if order.contains(j) {
                Some(results[j])
            } else {
                None
            },
    decreases order.len(),
{
    if order.len() > 0 {
        let prefix = order.drop_last();
        lemma_record_all_slots(n, prefix, results);
        assert forall|j: int| 0 <= j < n implies #[trigger] record_all(
            empty_slots(n),
            order,
            results,
        )[j] == if order.contains(j) {
            Some(results[j])
        } else {
            None
        } by {
            if j != order.last() {
                if order.contains(j) {
                    let k = choose|k: int| 0 <= k < order.len() && order[k] == j;
                    assert(prefix[k] == j);
                }
                if prefix.contains(j) {
                    let k = choose|k: int| 0 <= k < prefix.len() && prefix[k] == j;
                    assert(order[k] == j);
                }
            } else {
                assert(order[order.len() - 1] == j);
            }
        }
    }
}

proof fn lemma_completed_of_full(
    s: Seq<Option<Result<(), FetchError>>>,
    results: Seq<Result<(), FetchError>>,
)
    requires
        s.len() == results.len(),
        forall|j: int| 0 <= j < s.len() ==> s[j] == Some(#[trigger] results[j]),
    ensures
        completed_count(s) == s.len(),
    decreases s.len(),
{
    if s.len() > 0 {
        lemma_completed_of_full(s.drop_last(), results.drop_last());
        assert(s.last() == Some(results[s.len() - 1]));
    }
}

proof fn lemma_successes_of_full(
    s: Seq<Option<Result<(), FetchError>>>,
    results: Seq<Result<(), FetchError>>,
    failed: int,
)
    requires
        s.len() == results.len(),
        forall|j: int| 0 <= j < s.len() ==> s[j] == Some(#[trigger] results[j]),
        forall|j: int| 0 <= j < s.len() && j != failed ==> results[j] == Ok::<(), FetchError>(()),
        0 <= failed < s.len() ==> results[failed] is Err,
    ensures
        success_count(s) == if 0 <= failed < s.len() {
            (s.len() - 1) as nat
        } else {
            s.len()
        },
    decreases s.len(),
{
    if s.len() > 0 {
        lemma_successes_of_full(s.drop_last(), results.drop_last(), failed);
        assert(s.last() == Some(results[s.len() - 1]));
    }
}

/// Every task of a batch of `n` completes exactly once, whatever the order
/// in which they complete: once each task has completed, there is one
/// outcome per task, each task's own.
pub proof fn lemma_one_outcome_per_task(n: nat, order: Seq<int>, results: Seq<Result<(), FetchError>>)
    requires
        results.len() == n,
        forall|k: int| 0 <= k < order.len() ==> 0 <= #[trigger] order[k] < n,
        forall|j: int| 0 <= j < n ==> order.contains(j),
    ensures
        record_all(empty_slots(n), order, results) == Seq::new(
            n,
            |i: int| Some(results[i]),
        ),
        completed_count(record_all(empty_slots(n), order, results)) == n,
{
    lemma_record_all_slots(n, order, results);
    let s = record_all(empty_slots(n), order, results);
    assert(s =~= Seq::new(n, |i: int| Some(results[i])));
    lemma_completed_of_full(s, results);
}

/// A failed task does not hold back the others: where exactly one task of
/// a batch fails and every task completes, in any order, each other task
/// keeps its success, and `n - 1` successes are recorded.
pub proof fn lemma_failure_isolated(
    n: nat,
    order: Seq<int>,
    results: Seq<Result<(), FetchError>>,
    failed: int,
)
    requires
        results.len() == n,
        0 <= failed < n,
        results[failed] is Err,
        forall|j: int| 0 <= j < n && j != failed ==> results[j] == Ok::<(), FetchError>(()),
        forall|k: int| 0 <= k < order.len() ==> 0 <= #[trigger] order[k] < n,
        forall|j: int| 0 <= j < n ==> order.contains(j),
    ensures
        forall|j: int|
            0 <= j < n && j != failed ==> #[trigger] record_all(
                empty_slots(n),
                order,
                results,
            )[j] == Some(Ok::<(), FetchError>(())),
        success_count(record_all(empty_slots(n), order, results)) == n - 1,
{
    lemma_one_outcome_per_task(n, order, results);
    let s = record_all(empty_slots(n), order, results);
    lemma_successes_of_full(s, results, failed);
}

impl Batch {
    /// A batch of `n` tasks, none completed.
    pub fn new(n: usize) -> (r: Batch)
        ensures
            r@ == empty_slots(n as nat),
    {
        let mut outcomes: Vec<Option<Result<(), FetchError>>> = Vec::new();
        let mut i: usize = 0;
        while i < n
            invariant
                i <= n,
                outcomes@ == Seq::new(i as nat, |k: int| None::<Result<(), FetchError>>),
            decreases n - i,
        {
            outcomes.push(None);
            i += 1;
            assert(outcomes@ =~= Seq::new(i as nat, |k: int| None::<Result<(), FetchError>>));
        }
        assert(outcomes@ =~= empty_slots(n as nat));
        Batch { outcomes }
    }

    /// The number of tasks of the batch.
    pub fn len(&self) -> (r: usize)
        ensures
            r == self@.len(),
    {
        self.outcomes.len()
    }

    /// Records the outcome of task `index`; the other tasks are untouched.
    pub fn record(&mut self, index: usize, outcome: Result<(), FetchError>)
        requires
            index < old(self)@.len(),
        ensures
            final(self)@ == old(self)@.update(index as int, Some(outcome)),
    {
        self.outcomes.set(index, Some(outcome));
    }

    /// The outcome of task `index`, `None` while it has not completed.
    pub fn outcome(&self, index: usize) -> (r: Option<Result<(), FetchError>>)
        requires
            index < self@.len(),
        ensures
            r == self@[index as int],
    {
        self.outcomes[index]
    }

    /// How many tasks have completed.
    pub fn completed(&self) -> (r: usize)
        ensures
            r == completed_count(self@),
    {
        let mut count: usize = 0;
        let mut i: usize = 0;
        while i < self.outcomes.len()
            invariant
                i <= self.outcomes.len(),
                count == completed_count(self@.subrange(0, i as int)),
            decreases self.outcomes.len() - i,
        {
            proof {
                assert(self@.subrange(0, i + 1).drop_last() =~= self@.subrange(0, i as int));
                lemma_completed_count_bound(self@.subrange(0, i as int));
            }
            if self.outcomes[i].is_some() {
                count += 1;
            }
            i += 1;
        }
        assert(self@.subrange(0, i as int) =~= self@);
        count
    }

    /// How many tasks have completed with success.
    pub fn succeeded(&self) -> (r: usize)
        ensures
            r == success_count(self@),
    {
        let mut count: usize = 0;
        let mut i: usize = 0;
        while i < self.outcomes.len()
            invariant
                i <= self.outcomes.len(),
                count == success_count(self@.subrange(0, i as int)),
            decreases self.outcomes.len() - i,
        {
            proof {
                assert(self@.subrange(0, i + 1).drop_last() =~= self@.subrange(0, i as int));
                lemma_completed_count_bound(self@.subrange(0, i as int));
            }
            assert(self@.subrange(0, i + 1).last() == self@[i as int]);
            match self.outcomes[i] {
                Some(Ok(_)) => {
                    count += 1;
                },
                _ => {},
            }
            i += 1;
        }
        assert(self@.subrange(0, i as int) =~= self@);
        count
    }

    /// Whether every task has completed.
    pub fn is_done(&self) -> (r: bool)
        ensures
            r == (completed_count(self@) == self@.len()),
    {
        self.completed() == self.outcomes.len()
    }
}

} // verus!
