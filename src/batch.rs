use vstd::prelude::*;
use crate::error::RtmError;

verus! {

/// What the orchestrating thread does after one poll.
#[derive(Debug, Clone, Copy, PartialEq, Eq, Structural)]
pub enum PollAction {
    /// An interrupt was observed: raise the cancellation flag and abort.
    Interrupt,
    /// Every point has completed: stop polling.
    Finish,
    /// Report progress and sleep until the next poll.
    Wait,
}

/// Decides the orchestrator's next step from what one poll observed: whether
/// an external interrupt is pending, and how many of `total` points have
/// completed.
pub fn poll_step(interrupted: bool, completed: usize, total: usize) -> (r: PollAction)
    ensures
        interrupted ==> r == PollAction::Interrupt,
        !interrupted && completed >= total ==> r == PollAction::Finish,
        !interrupted && completed < total ==> r == PollAction::Wait,
{
    if interrupted {
        PollAction::Interrupt
    } else if completed >= total {
        PollAction::Finish
    } else {
        PollAction::Wait
    }
}

/// Decides whether a worker may start on a point: it may not once the shared
/// cancellation flag is raised.
pub fn begin_point(cancelled: bool) -> (r: Result<(), RtmError>)
    ensures
        cancelled ==> r == Err::<(), RtmError>(RtmError::Cancelled),
        !cancelled ==> r is Ok,
{
    if cancelled {
        Err(RtmError::Cancelled)
    } else {
        Ok(())
    }
}

/// Every point succeeded.
pub open spec fn all_succeeded<T>(s: Seq<Result<T, RtmError>>) -> bool {
    forall|i: int| 0 <= i < s.len() ==> s[i] is Ok
}

/// Point `i` is the first that failed.
pub open spec fn first_failure_at<T>(s: Seq<Result<T, RtmError>>, i: int) -> bool {
    &&& 0 <= i < s.len()
    &&& s[i] is Err
    &&& forall|j: int| 0 <= j < i ==> s[j] is Ok
}

/// The rows of successful points, in point order.
pub open spec fn rows_of<T>(s: Seq<Result<T, RtmError>>) -> Seq<T> {
    s.map_values(|x: Result<T, RtmError>| x->Ok_0)
}

/// The result of a batch: cancelled when interrupted, otherwise the error of
/// the first failed point, otherwise all rows in point order.
pub open spec fn batch_result<T>(interrupted: bool, s: Seq<Result<T, RtmError>>) -> Result<
    Seq<T>,
    RtmError,
> {
    if interrupted {
        Err(RtmError::Cancelled)
    } else if all_succeeded(s) {
        Ok(rows_of(s))
    } else {
        Err(s[choose|i: int| first_failure_at(s, i)]->Err_0)
    }
}

proof fn lemma_first_failure_unique<T>(s: Seq<Result<T, RtmError>>, i: int)
    requires
        first_failure_at(s, i),
    ensures
        (choose|k: int| first_failure_at(s, k)) == i,
{
    let k: int = choose|k: int| first_failure_at(s, k);
    assert(first_failure_at(s, k));
    if k < i {
        assert(s[k] is Ok);
    } else if k > i {
        assert(s[i] is Ok);
    }
}

/// Assembles the per-point results of a batch, given in point order, into one
/// row per point; any failed point fails the whole batch with its error, the
/// first in point order.
pub fn collect_rows<T>(results: Vec<Result<T, RtmError>>) -> (r: Result<Vec<T>, RtmError>)
    ensures
        match r {
            Ok(rows) => batch_result(false, results@) == Ok::<Seq<T>, RtmError>(rows@),
            Err(e) => batch_result(false, results@) == Err::<Seq<T>, RtmError>(e),
        },
        r is Ok <==> all_succeeded(results@),
        r is Err ==> exists|i: int|
            first_failure_at(results@, i) && results@[i] == Err::<T, RtmError>(r->Err_0),
{
    let ghost orig = results@;
    let n: usize = results.len();
    let mut i: usize = 0;
    while i < n
        invariant
            n == orig.len(),
            results@ == orig,
            i <= n,
            forall|j: int| 0 <= j < i ==> orig[j] is Ok,
        decreases n - i,
    {
        match &results[i] {
            Err(e) => {
                proof {
                    lemma_first_failure_unique(orig, i as int);
                    assert(first_failure_at(orig, i as int));
                }
                return Err(*e);
            },
            Ok(_) => {},
        }
        i = i + 1;
    }
    assert(all_succeeded(orig));
    let mut results = results;
    let mut reversed: Vec<T> = Vec::with_capacity(n);
    while results.len() > 0
        invariant
            n == orig.len(),
            all_succeeded(orig),
            results@ == orig.subrange(0, results@.len() as int),
            reversed@.len() + results@.len() == n,
            forall|k: int|
                0 <= k < reversed@.len() ==> reversed@[k] == orig[n - 1 - k]->Ok_0,
        decreases results@.len(),
    {
        let item = results.pop();
        match item {
            Some(Ok(x)) => {
                reversed.push(x);
            },
            _ => {
                proof {
                    assert(orig[results@.len() as int] is Ok);
                }
            },
        }
    }
    let mut rows: Vec<T> = Vec::with_capacity(n);
    while reversed.len() > 0
        invariant
            n == orig.len(),
            reversed@.len() + rows@.len() == n,
            forall|k: int|
                0 <= k < reversed@.len() ==> reversed@[k] == orig[n - 1 - k]->Ok_0,
            rows@ == rows_of(orig).subrange(0, rows@.len() as int),
        decreases reversed@.len(),
    {
        let item = reversed.pop();
        match item {
            Some(x) => {
                rows.push(x);
            },
            None => {},
        }
    }
    assert(rows@ =~= rows_of(orig));
    Ok(rows)
}

/// The outcome of a batch call: a cancellation when an interrupt was
/// observed, whatever the points produced; otherwise the assembled rows.
pub fn batch_outcome<T>(interrupted: bool, results: Vec<Result<T, RtmError>>) -> (r: Result<
    Vec<T>,
    RtmError,
>)
    ensures
        match r {
            Ok(rows) => batch_result(interrupted, results@) == Ok::<Seq<T>, RtmError>(rows@),
            Err(e) => batch_result(interrupted, results@) == Err::<Seq<T>, RtmError>(e),
        },
        interrupted ==> r == Err::<Vec<T>, RtmError>(RtmError::Cancelled),
        !interrupted ==> (r is Ok <==> all_succeeded(results@)),
        !interrupted && r is Err ==> exists|i: int|
            first_failure_at(results@, i) && results@[i] == Err::<T, RtmError>(r->Err_0),
{
    if interrupted {
        Err(RtmError::Cancelled)
    } else {
        collect_rows(results)
    }
}


/// An interrupted batch hands back no rows: whatever the per-point results
/// were, its result is the cancellation error.
pub proof fn lemma_interrupt_cancels<T>(results: Seq<Result<T, RtmError>>)
    ensures
        batch_result(true, results) == Err::<Seq<T>, RtmError>(RtmError::Cancelled),
{
}

/// A table of `n` slots, none filled yet.
pub open spec fn empty_slots<T>(n: nat) -> Seq<Option<T>> {
    Seq::new(n, |i: int| None::<T>)
}

/// The slots after the points in `order` have completed, in that order, each
/// writing its own result into the slot of its own index.
pub open spec fn fill_slots<T>(slots: Seq<Option<T>>, order: Seq<int>, values: Seq<T>) -> Seq<
    Option<T>,
>
    decreases order.len(),
{
    if order.len() == 0 {
        slots
    } else {
        fill_slots(slots.update(order[0], Some(values[order[0]])), order.drop_first(), values)
    }
}

/// `order` is an order in which workers may complete the points `0..n`:
/// it names only those points, and each of them.
pub open spec fn is_completion_order(order: Seq<int>, n: nat) -> bool {
    &&& forall|i: int| 0 <= i < order.len() ==> 0 <= #[trigger] order[i] < n
    &&& forall|k: int| 0 <= k < n ==> #[trigger] order.contains(k)
}

proof fn lemma_fill_slot<T>(slots: Seq<Option<T>>, order: Seq<int>, values: Seq<T>, k: int)
    requires
        slots.len() == values.len(),
        forall|i: int| 0 <= i < order.len() ==> 0 <= #[trigger] order[i] < slots.len(),
        0 <= k < slots.len(),
    ensures
        fill_slots(slots, order, values).len() == slots.len(),
        fill_slots(slots, order, values)[k] == if order.contains(k) {
            Some(values[k])
        } else {
            slots[k]
        },
    decreases order.len(),
{
    if order.len() > 0 {
        let next = slots.update(order[0], Some(values[order[0]]));
        let rest = order.drop_first();
        assert forall|i: int| 0 <= i < rest.len() implies 0 <= #[trigger] rest[i] < next.len() by {
            assert(rest[i] == order[i + 1]);
        }
        lemma_fill_slot(next, rest, values, k);
        if order.contains(k) && order[0] != k {
            let j: int = choose|j: int| 0 <= j < order.len() && order[j] == k;
            assert(rest[j - 1] == k);
        }
        if rest.contains(k) {
            let j: int = choose|j: int| 0 <= j < rest.len() && rest[j] == k;
            assert(order[j + 1] == k);
        }
        if order[0] == k {
            assert(order.contains(k));
        }
    }
}

/// Results written by point index do not depend on the order in which the
/// workers complete the points: any two completion orders leave the same
/// table, which holds each point's result in its own row.
pub proof fn lemma_completion_order_irrelevant<T>(
    values: Seq<T>,
    order1: Seq<int>,
    order2: Seq<int>,
)
    requires
        is_completion_order(order1, values.len()),
        is_completion_order(order2, values.len()),
    ensures
        fill_slots(empty_slots(values.len()), order1, values) == values.map_values(
            |v: T| Some(v),
        ),
        fill_slots(empty_slots(values.len()), order1, values) == fill_slots(
            empty_slots(values.len()),
            order2,
            values,
        ),
{
    let n: nat = values.len();
    let empty = empty_slots::<T>(n);
    assert forall|k: int| 0 <= k < n implies fill_slots(empty, order1, values)[k] == Some(
        values[k],
    ) && fill_slots(empty, order2, values)[k] == Some(values[k]) by {
        lemma_fill_slot(empty, order1, values, k);
        lemma_fill_slot(empty, order2, values, k);
    }
    if n > 0 {
        lemma_fill_slot(empty, order1, values, 0);
        lemma_fill_slot(empty, order2, values, 0);
    } else {
        assert(fill_slots(empty, order1, values).len() == 0) by {
            if order1.len() > 0 {
                assert(0 <= order1[0] < n);
            }
        }
        assert(fill_slots(empty, order2, values).len() == 0) by {
            if order2.len() > 0 {
                assert(0 <= order2[0] < n);
            }
        }
    }
    assert(fill_slots(empty, order1, values) =~= values.map_values(|v: T| Some(v)));
    assert(fill_slots(empty, order2, values) =~= values.map_values(|v: T| Some(v)));
}

} // verus!
