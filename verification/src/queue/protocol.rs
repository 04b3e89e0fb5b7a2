//! The claim protocol as a relation on queues, and what follows from it for
//! workers that claim concurrently.

use crate::queue::task::{is_claimable, is_held, QueueView, RowState, TaskKey};
use vstd::prelude::*;

verus! {

/// What a claim attempt may do to a queue: grant one task that was
/// claimable and mark it claimed, or grant nothing where no task is
/// claimable and leave the queue as it is.
pub open spec fn claim_granted(
    before: QueueView,
    after: QueueView,
    granted: Option<TaskKey>,
    max_retries: u32,
    now: i64,
) -> bool {
    match granted {
        Some(k) => {
            &&& before.contains_key(k)
            &&& is_claimable(before[k], max_retries, now)
            &&& after == before.insert(k, RowState { claimed: true, ..before[k] })
        },
        None => {
            &&& forall|k: TaskKey| #[trigger]
                before.contains_key(k) ==> !is_claimable(before[k], max_retries, now)
            &&& after == before
        },
    }
}

/// The tasks that a claim attempt at `now` could be granted.
pub open spec fn claimable_keys(queue: QueueView, max_retries: u32, now: i64) -> Set<TaskKey> {
    Set::new(|k: TaskKey| queue.contains_key(k) && is_claimable(queue[k], max_retries, now))
}

/// A run of claim attempts on one queue, all made at `now` and with nothing
/// resolved in between: attempt `i` takes the queue from `states[i]` to
/// `states[i + 1]` and is granted `grants[i]`.
pub open spec fn claim_run(
    states: Seq<QueueView>,
    grants: Seq<Option<TaskKey>>,
    max_retries: u32,
    now: i64,
) -> bool {
    &&& states.len() == grants.len() + 1
    &&& forall|i: int|
        0 <= i < grants.len() ==> claim_granted(
            states[i],
            states[i + 1],
            #[trigger] grants[i],
            max_retries,
            now,
        )
}

/// The number of attempts that were granted a task.
pub open spec fn granted_count(grants: Seq<Option<TaskKey>>) -> nat
    decreases grants.len(),
{
    if grants.len() == 0 {
        0
    } else {
        granted_count(grants.drop_first()) + if grants[0] is Some {
            1nat
        } else {
            0nat
        }
    }
}

/// The tasks that can be claimed are finitely many where the tasks are.
pub proof fn lemma_claimable_keys_finite(queue: QueueView, max_retries: u32, now: i64)
    requires
        queue.dom().finite(),
    ensures
        claimable_keys(queue, max_retries, now).finite(),
        claimable_keys(queue, max_retries, now).len() <= queue.dom().len(),
{
    vstd::set_lib::lemma_len_subset(claimable_keys(queue, max_retries, now), queue.dom());
}

/// A granted claim takes its task, and nothing else, out of the tasks that
/// can be claimed; a refused one finds none.
pub proof fn lemma_claim_uses_up_one(
    before: QueueView,
    after: QueueView,
    granted: Option<TaskKey>,
    max_retries: u32,
    now: i64,
)
    requires
        claim_granted(before, after, granted, max_retries, now),
    ensures
        after.dom() == before.dom(),
        match granted {
            Some(k) => claimable_keys(before, max_retries, now).contains(k) && claimable_keys(
                after,
                max_retries,
                now,
            ) == claimable_keys(before, max_retries, now).remove(k),
            None => claimable_keys(before, max_retries, now) == Set::<TaskKey>::empty(),
        },
{
    match granted {
        Some(k) => {
            assert(after.dom() =~= before.dom());
            assert(claimable_keys(after, max_retries, now) =~= claimable_keys(
                before,
                max_retries,
                now,
            ).remove(k));
        },
        None => {
            assert(claimable_keys(before, max_retries, now) =~= Set::<TaskKey>::empty());
        },
    }
}

/// No task is granted to two callers at a time: of two claim attempts with
/// nothing resolved between them, whenever each is made, the second is
/// never granted the task that the first was granted.
pub proof fn law_concurrent_claims_differ(
    q0: QueueView,
    q1: QueueView,
    q2: QueueView,
    first: Option<TaskKey>,
    second: Option<TaskKey>,
    max_retries: u32,
    first_now: i64,
    second_now: i64,
)
    requires
        claim_granted(q0, q1, first, max_retries, first_now),
        claim_granted(q1, q2, second, max_retries, second_now),
    ensures
        first is Some && second is Some ==> first != second,
        first matches Some(k) ==> is_held(q2, k),
{
}

/// Concurrent claim attempts share out the tasks: where `grants.len()`
/// callers attempt a claim on a queue with N tasks that can be claimed, and
/// nothing is resolved meanwhile, exactly min(N, callers) of them are granted
/// a task, each a task that could be claimed at the start, and no two the
/// same task.
pub proof fn law_claims_distribute(
    states: Seq<QueueView>,
    grants: Seq<Option<TaskKey>>,
    max_retries: u32,
    now: i64,
)
    requires
        claim_run(states, grants, max_retries, now),
        states[0].dom().finite(),
    ensures
        granted_count(grants) == vstd::math::min(
            claimable_keys(states[0], max_retries, now).len() as int,
            grants.len() as int,
        ),
        forall|i: int|
            0 <= i < grants.len() && grants[i] is Some ==> claimable_keys(
                states[0],
                max_retries,
                now,
            ).contains((#[trigger] grants[i])->0),
        forall|i: int, j: int|
            0 <= i < j < grants.len() && grants[i] is Some ==> #[trigger] grants[i]
                != #[trigger] grants[j],
    decreases grants.len(),
{
    if grants.len() > 0 {
        let later_states = states.drop_first();
        let later_grants = grants.drop_first();
        assert(claim_granted(states[0], states[1], grants[0], max_retries, now));
        lemma_claim_uses_up_one(states[0], states[1], grants[0], max_retries, now);
        lemma_claimable_keys_finite(states[0], max_retries, now);
        assert forall|i: int| 0 <= i < later_grants.len() implies claim_granted(
            later_states[i],
            later_states[i + 1],
            #[trigger] later_grants[i],
            max_retries,
            now,
        ) by {
            assert(later_grants[i] == grants[i + 1]);
            assert(later_states[i] == states[i + 1]);
            assert(later_states[i + 1] == states[i + 2]);
        }
        assert(later_states[0] == states[1]);
        law_claims_distribute(later_states, later_grants, max_retries, now);
        assert forall|i: int| 0 <= i < grants.len() && grants[i] is Some implies claimable_keys(
            states[0],
            max_retries,
            now,
        ).contains((#[trigger] grants[i])->0) by {
            if i > 0 {
                assert(later_grants[i - 1] == grants[i]);
            }
        }
        assert forall|i: int, j: int|
            0 <= i < j < grants.len() && grants[i] is Some implies #[trigger] grants[i]
            != #[trigger] grants[j] by {
            assert(later_grants[j - 1] == grants[j]);
            if i > 0 {
                assert(later_grants[i - 1] == grants[i]);
            } else if grants[j] is Some {
                assert(claimable_keys(states[1], max_retries, now).contains(grants[j]->0));
            }
        }
    }
}

/// A task under a claim is invisible to every claim attempt, and a claim
/// attempt changes no task but the one it is granted.
pub proof fn law_claim_leaves_the_rest(
    before: QueueView,
    after: QueueView,
    granted: Option<TaskKey>,
    max_retries: u32,
    now: i64,
    other: TaskKey,
)
    requires
        claim_granted(before, after, granted, max_retries, now),
        granted != Some(other),
    ensures
        is_held(before, other) ==> is_held(after, other),
        before.contains_key(other) == after.contains_key(other),
        before.contains_key(other) ==> after[other] == before[other],
{
}

/// A deferred task waits: no claim attempt made before its new time is
/// granted it.
pub proof fn law_deferred_task_waits(
    queue: QueueView,
    k: TaskKey,
    retry_count: u32,
    not_before: i64,
    after: QueueView,
    granted: Option<TaskKey>,
    max_retries: u32,
    now: i64,
)
    requires
        claim_granted(
            queue.insert(k, RowState { retry_count, not_before, claimed: false }),
            after,
            granted,
            max_retries,
            now,
        ),
        now < not_before,
    ensures
        granted != Some(k),
{
}

/// A task that was completed or dropped is gone: no claim attempt is
/// granted it.
pub proof fn law_removed_task_is_never_granted(
    queue: QueueView,
    k: TaskKey,
    after: QueueView,
    granted: Option<TaskKey>,
    max_retries: u32,
    now: i64,
)
    requires
        claim_granted(queue.remove(k), after, granted, max_retries, now),
    ensures
        granted != Some(k),
{
}

/// A claim that is given up leaves no trace: the queue is as it was before
/// the claim, so the task can be claimed again at once.
pub proof fn law_abandoned_claim_leaves_no_trace(
    before: QueueView,
    claimed: QueueView,
    k: TaskKey,
    max_retries: u32,
    now: i64,
)
    requires
        claim_granted(before, claimed, Some(k), max_retries, now),
    ensures
        claimed.insert(k, RowState { claimed: false, ..claimed[k] }) == before,
{
    assert(claimed.insert(k, RowState { claimed: false, ..claimed[k] }) =~= before);
}

} // verus!
