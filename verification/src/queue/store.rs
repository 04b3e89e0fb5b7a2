//! The queue in memory, and the claims that it hands out.

use crate::queue::protocol::{claim_granted, claimable_keys, lemma_claimable_keys_finite};
use crate::queue::task::{
    is_claimable, is_held, DeliveryTask, QueueView, RowState, TaskKey, TaskView,
};
use vstd::prelude::*;

verus! {

/// Why a resolution was refused.
#[derive(Debug, Clone, Copy, PartialEq, Eq, Structural)]
pub enum QueueError {
    /// The queue records no open claim on the task.
    NotHeld,
}

/// The record of a task that was dropped because its retries ran out.
#[derive(Debug)]
pub struct DeadLetter {
    pub issue_id: u128,
    pub subscriber_email: String,
    /// The failed deliveries that the queue had counted for the task.
    pub retry_count: u32,
}

/// A task in the queue, and whether a claim on it is open.
#[derive(Debug)]
struct Row {
    task: DeliveryTask,
    claimed: bool,
}

impl Row {
    /// The identity of the row's task.
    spec fn key(self) -> TaskKey {
        self.task@.key()
    }

    /// What the row keeps beside the identity.
    spec fn state(self) -> RowState {
        RowState {
            retry_count: self.task.retry_count,
            not_before: self.task.not_before,
            claimed: self.claimed,
        }
    }
}

/// No two rows have the same key.
spec fn distinct_keys(rows: Seq<Row>) -> bool {
    forall|i: int, j: int|
        0 <= i < rows.len() && 0 <= j < rows.len() && i != j ==> #[trigger] rows[i].key()
            != #[trigger] rows[j].key()
}

/// The rows as a map from key to state.
spec fn as_map(rows: Seq<Row>) -> QueueView
    decreases rows.len(),
{
    if rows.len() == 0 {
        Map::empty()
    } else {
        as_map(rows.drop_last()).insert(rows.last().key(), rows.last().state())
    }
}

/// `k` is the key of some row.
spec fn has_key(rows: Seq<Row>, k: TaskKey) -> bool {
    exists|i: int| 0 <= i < rows.len() && #[trigger] rows[i].key() == k
}

/// The rows before any position have distinct keys, as all the rows have.
proof fn lemma_prefix_distinct(rows: Seq<Row>, n: int)
    requires
        distinct_keys(rows),
        0 <= n <= rows.len(),
    ensures
        distinct_keys(rows.take(n)),
{
    let front = rows.take(n);
    assert forall|i: int, j: int|
        0 <= i < front.len() && 0 <= j < front.len() && i != j implies #[trigger] front[i].key()
        != #[trigger] front[j].key() by {
        assert(front[i] == rows[i] && front[j] == rows[j]);
    }
}

/// The map of rows with distinct keys has the rows' keys, with each row's
/// state at its key, and no others.
proof fn lemma_as_map(rows: Seq<Row>)
    requires
        distinct_keys(rows),
    ensures
        as_map(rows).dom().finite(),
        forall|k: TaskKey| #[trigger] as_map(rows).contains_key(k) <==> has_key(rows, k),
        forall|i: int|
            0 <= i < rows.len() ==> as_map(rows).contains_key(#[trigger] rows[i].key()) && as_map(
                rows,
            )[rows[i].key()] == rows[i].state(),
    decreases rows.len(),
{
    if rows.len() > 0 {
        let front = rows.drop_last();
        let last = rows.last();
        assert(front == rows.take(rows.len() - 1));
        lemma_prefix_distinct(rows, rows.len() - 1);
        lemma_as_map(front);
        assert forall|k: TaskKey| #[trigger] as_map(rows).contains_key(k) <==> has_key(rows, k) by {
            if has_key(rows, k) {
                let i = choose|i: int| 0 <= i < rows.len() && #[trigger] rows[i].key() == k;
                if i < front.len() {
                    assert(front[i].key() == k);
                    assert(has_key(front, k));
                }
            }
            if as_map(rows).contains_key(k) {
                if k == last.key() {
                    assert(rows[rows.len() - 1].key() == k);
                } else {
                    assert(has_key(front, k));
                    let i = choose|i: int| 0 <= i < front.len() && #[trigger] front[i].key() == k;
                    assert(rows[i].key() == k);
                }
            }
        }
        assert forall|i: int| 0 <= i < rows.len() implies as_map(rows).contains_key(
            #[trigger] rows[i].key(),
        ) && as_map(rows)[rows[i].key()] == rows[i].state() by {
            if i < front.len() {
                assert(front[i] == rows[i]);
                assert(rows[i].key() != rows[rows.len() - 1].key());
            }
        }
    }
}

/// The map of rows with distinct keys has as many entries as there are rows.
proof fn lemma_len_of_map(rows: Seq<Row>)
    requires
        distinct_keys(rows),
    ensures
        as_map(rows).dom().len() == rows.len(),
    decreases rows.len(),
{
    if rows.len() > 0 {
        let front = rows.drop_last();
        assert(front == rows.take(rows.len() - 1));
        lemma_prefix_distinct(rows, rows.len() - 1);
        lemma_as_map(front);
        lemma_len_of_map(front);
        if has_key(front, rows.last().key()) {
            let i = choose|i: int| 0 <= i < front.len() && #[trigger] front[i].key() == rows.last().key();
            assert(rows[i].key() == rows[rows.len() - 1].key());
        }
        assert(!as_map(front).contains_key(rows.last().key()));
    } else {
        assert(as_map(rows).dom() =~= Set::empty());
    }
}

/// Replacing the state of one row replaces one entry of the map.
proof fn lemma_update_row(before: Seq<Row>, after: Seq<Row>, i: int)
    requires
        distinct_keys(before),
        0 <= i < before.len(),
        after.len() == before.len(),
        after[i].key() == before[i].key(),
        forall|j: int| 0 <= j < before.len() && j != i ==> after[j] == before[j],
    ensures
        distinct_keys(after),
        as_map(after) == as_map(before).insert(before[i].key(), after[i].state()),
{
    assert forall|a: int, b: int|
        0 <= a < after.len() && 0 <= b < after.len() && a != b implies #[trigger] after[a].key()
        != #[trigger] after[b].key() by {
        assert(after[a].key() == before[a].key());
        assert(after[b].key() == before[b].key());
    }
    lemma_as_map(before);
    lemma_as_map(after);
    let expected = as_map(before).insert(before[i].key(), after[i].state());
    assert forall|k: TaskKey| #[trigger] as_map(after).contains_key(k) <==> expected.contains_key(
        k,
    ) by {
        if has_key(after, k) {
            let j = choose|j: int| 0 <= j < after.len() && #[trigger] after[j].key() == k;
            assert(before[j].key() == k);
        }
        if has_key(before, k) {
            let j = choose|j: int| 0 <= j < before.len() && #[trigger] before[j].key() == k;
            assert(after[j].key() == k);
        }
    }
    assert forall|k: TaskKey| #[trigger] as_map(after).contains_key(k) implies as_map(after)[k]
        == expected[k] by {
        let j = choose|j: int| 0 <= j < after.len() && #[trigger] after[j].key() == k;
        assert(before[j].key() == k);
    }
    assert(as_map(after) =~= expected);
}

/// Removing one row removes one entry of the map.
proof fn lemma_remove_row(before: Seq<Row>, i: int)
    requires
        distinct_keys(before),
        0 <= i < before.len(),
    ensures
        distinct_keys(before.remove(i)),
        as_map(before.remove(i)) == as_map(before).remove(before[i].key()),
{
    let after = before.remove(i);
    assert forall|a: int| 0 <= a < after.len() implies #[trigger] after[a] == before[if a < i {
        a
    } else {
        a + 1
    }] by {}
    assert forall|a: int, b: int|
        0 <= a < after.len() && 0 <= b < after.len() && a != b implies #[trigger] after[a].key()
        != #[trigger] after[b].key() by {
        let a0 = if a < i { a } else { a + 1 };
        let b0 = if b < i { b } else { b + 1 };
        assert(after[a] == before[a0] && after[b] == before[b0]);
        assert(before[a0].key() != before[b0].key());
    }
    lemma_as_map(before);
    lemma_as_map(after);
    let expected = as_map(before).remove(before[i].key());
    assert forall|k: TaskKey| #[trigger] as_map(after).contains_key(k) <==> expected.contains_key(
        k,
    ) by {
        if has_key(after, k) {
            let a = choose|a: int| 0 <= a < after.len() && #[trigger] after[a].key() == k;
            let a0 = if a < i { a } else { a + 1 };
            assert(after[a] == before[a0]);
            assert(before[a0].key() == k);
            assert(before[a0].key() != before[i].key());
        }
        if expected.contains_key(k) {
            let b = choose|b: int| 0 <= b < before.len() && #[trigger] before[b].key() == k;
            assert(b != i);
            let a = if b < i { b } else { b - 1 };
            assert(after[a] == before[b]);
            assert(after[a].key() == k);
        }
    }
    assert forall|k: TaskKey| #[trigger] as_map(after).contains_key(k) implies as_map(after)[k]
        == expected[k] by {
        let a = choose|a: int| 0 <= a < after.len() && #[trigger] after[a].key() == k;
        let a0 = if a < i { a } else { a + 1 };
        assert(after[a] == before[a0]);
        assert(before[a0].key() == k);
    }
    assert(as_map(after) =~= expected);
}

/// A row with a fresh key adds itself to the tasks that can be claimed if it
/// can be claimed, and changes nothing else.
proof fn lemma_claimable_keys_of_prefix(rows: Seq<Row>, i: int, max_retries: u32, now: i64)
    requires
        distinct_keys(rows),
        0 <= i < rows.len(),
    ensures
        distinct_keys(rows.take(i)),
        distinct_keys(rows.take(i + 1)),
        claimable_keys(as_map(rows.take(i)), max_retries, now).finite(),
        !claimable_keys(as_map(rows.take(i)), max_retries, now).contains(rows[i].key()),
        claimable_keys(as_map(rows.take(i + 1)), max_retries, now) == if is_claimable(
            rows[i].state(),
            max_retries,
            now,
        ) {
            claimable_keys(as_map(rows.take(i)), max_retries, now).insert(rows[i].key())
        } else {
            claimable_keys(as_map(rows.take(i)), max_retries, now)
        },
{
    let shorter = rows.take(i);
    let longer = rows.take(i + 1);
    lemma_prefix_distinct(rows, i);
    lemma_prefix_distinct(rows, i + 1);
    lemma_as_map(shorter);
    lemma_claimable_keys_finite(as_map(shorter), max_retries, now);
    assert(longer.drop_last() == shorter);
    assert(longer.last() == rows[i]);
    if has_key(shorter, rows[i].key()) {
        let a = choose|a: int| 0 <= a < shorter.len() && #[trigger] shorter[a].key() == rows[i].key();
        assert(rows[a].key() == rows[i].key());
    }
    let grown = if is_claimable(rows[i].state(), max_retries, now) {
        claimable_keys(as_map(shorter), max_retries, now).insert(rows[i].key())
    } else {
        claimable_keys(as_map(shorter), max_retries, now)
    };
    assert(claimable_keys(as_map(longer), max_retries, now) =~= grown);
}

/// The queue of pending deliveries, shared by all workers.
#[derive(Debug)]
pub struct DeliveryQueue {
    rows: Vec<Row>,
}

impl View for DeliveryQueue {
    type V = QueueView;

    closed spec fn view(&self) -> QueueView {
        as_map(self.rows@)
    }
}

impl DeliveryQueue {
    /// There is one row for each task.
    #[verifier::type_invariant]
    spec fn well_formed(self) -> bool {
        distinct_keys(self.rows@)
    }

    /// A queue without tasks.
    pub fn new() -> (queue: DeliveryQueue)
        ensures
            queue@ == QueueView::empty(),
    {
        DeliveryQueue { rows: Vec::new() }
    }

    /// Moves the rows out and leaves the queue empty until they are put back.
    fn take_rows(&mut self) -> (rows: Vec<Row>)
        ensures
            rows@ == old(self).rows@,
            final(self).rows@.len() == 0,
    {
        let mut rows: Vec<Row> = Vec::new();
        core::mem::swap(&mut self.rows, &mut rows);
        rows
    }

    /// The position of the row with the given key, if there is one.
    fn find(&self, issue_id: u128, subscriber_email: &String) -> (found: Option<usize>)
        ensures
            match found {
                Some(i) => i < self.rows.len() && self.rows[i as int].key() == (TaskKey {
                    issue_id,
                    subscriber_email: subscriber_email@,
                }),
                None => !has_key(
                    self.rows@,
                    TaskKey { issue_id, subscriber_email: subscriber_email@ },
                ),
            },
    {
        let ghost k = TaskKey { issue_id, subscriber_email: subscriber_email@ };
        let mut i: usize = 0;
        while i < self.rows.len()
            invariant
                i <= self.rows.len(),
                k == (TaskKey { issue_id, subscriber_email: subscriber_email@ }),
                forall|j: int| 0 <= j < i ==> #[trigger] self.rows[j].key() != k,
            decreases self.rows.len() - i,
        {
            if self.rows[i].task.issue_id == issue_id && self.rows[i].task.subscriber_email
                == *subscriber_email {
                return Some(i);
            }
            i += 1;
        }
        None
    }

    /// Adds `task` unless the queue already has a task for the same issue
    /// and subscriber; says whether it was added.
    pub fn insert(&mut self, task: DeliveryTask) -> (added: bool)
        ensures
            added == !old(self)@.contains_key(task@.key()),
            added ==> final(self)@ == old(self)@.insert(
                task@.key(),
                RowState { retry_count: task.retry_count, not_before: task.not_before, claimed: false },
            ),
            !added ==> final(self)@ == old(self)@,
    {
        proof {
            use_type_invariant(&*self);
            lemma_as_map(self.rows@);
        }
        match self.find(task.issue_id, &task.subscriber_email) {
            Some(_) => false,
            None => {
                let row = Row { task, claimed: false };
                let mut rows = self.take_rows();
                proof {
                    assert(rows@.push(row).drop_last() == rows@);
                    assert(!has_key(rows@, row.key()));
                }
                rows.push(row);
                self.rows = rows;
                true
            },
        }
    }

    /// Adds a task for `issue_id` and `subscriber_email` that is due from
    /// `now` on and has no failed delivery, unless the queue already has one
    /// for the two; says whether it was added.
    pub fn enqueue(&mut self, issue_id: u128, subscriber_email: String, now: i64) -> (added: bool)
        ensures
            added == !old(self)@.contains_key(
                TaskKey { issue_id, subscriber_email: subscriber_email@ },
            ),
            added ==> final(self)@ == old(self)@.insert(
                TaskKey { issue_id, subscriber_email: subscriber_email@ },
                RowState { retry_count: 0, not_before: now, claimed: false },
            ),
            !added ==> final(self)@ == old(self)@,
    {
        self.insert(DeliveryTask { issue_id, subscriber_email, retry_count: 0, not_before: now })
    }

    /// Claims one task that is due at `now` with fewer than `max_retries`
    /// failed deliveries and that no other claim holds. Which one, where
    /// there are several, is not fixed. A task under another claim is passed
    /// over, never waited for.
    pub fn claim_one(&mut self, max_retries: u32, now: i64) -> (claim: Option<ClaimedTask>)
        ensures
            claim_granted(
                old(self)@,
                final(self)@,
                match claim {
                    Some(c) => Some(c@.key()),
                    None => None,
                },
                max_retries,
                now,
            ),
            claim matches Some(c) ==> {
                &&& is_held(final(self)@, c@.key())
                &&& c@.retry_count == old(self)@[c@.key()].retry_count
                &&& c@.not_before == old(self)@[c@.key()].not_before
            },
    {
        proof {
            use_type_invariant(&*self);
            lemma_as_map(self.rows@);
        }
        match self.find_claimable(max_retries, now) {
            Some(i) => {
                let task = self.rows[i].task.duplicate();
                let mut rows = self.take_rows();
                let ghost before = rows@;
                rows[i].claimed = true;
                proof {
                    lemma_update_row(before, rows@, i as int);
                    assert(rows@[i as int].state() == RowState {
                        claimed: true,
                        ..before[i as int].state()
                    });
                }
                self.rows = rows;
                Some(ClaimedTask { task })
            },
            None => {
                assert forall|k: TaskKey| #[trigger] self@.contains_key(k) implies !is_claimable(
                    self@[k],
                    max_retries,
                    now,
                ) by {
                    let j = choose|j: int|
                        0 <= j < self.rows.len() && #[trigger] self.rows[j].key() == k;
                    assert(!is_claimable(self.rows[j].state(), max_retries, now));
                }
                None
            },
        }
    }

    /// The position of the first row that can be claimed, if there is one.
    fn find_claimable(&self, max_retries: u32, now: i64) -> (found: Option<usize>)
        ensures
            match found {
                Some(i) => i < self.rows.len() && is_claimable(
                    self.rows[i as int].state(),
                    max_retries,
                    now,
                ),
                None => forall|j: int|
                    0 <= j < self.rows.len() ==> !is_claimable(
                        (#[trigger] self.rows[j]).state(),
                        max_retries,
                        now,
                    ),
            },
    {
        let mut i: usize = 0;
        while i < self.rows.len()
            invariant
                i <= self.rows.len(),
                forall|j: int|
                    0 <= j < i ==> !is_claimable(
                        (#[trigger] self.rows[j]).state(),
                        max_retries,
                        now,
                    ),
            decreases self.rows.len() - i,
        {
            let row = &self.rows[i];
            if !row.claimed && row.task.is_due(max_retries, now) {
                return Some(i);
            }
            i += 1;
        }
        None
    }

    /// Removes the row with the given key if a claim on it is open, and
    /// returns its retry count.
    fn remove_held(&mut self, issue_id: u128, subscriber_email: &String) -> (removed: Option<u32>)
        ensures
            removed is Some <==> is_held(
                old(self)@,
                TaskKey { issue_id, subscriber_email: subscriber_email@ },
            ),
            removed matches Some(n) ==> {
                &&& n == old(self)@[TaskKey {
                    issue_id,
                    subscriber_email: subscriber_email@,
                }].retry_count
                &&& final(self)@ == old(self)@.remove(
                    TaskKey { issue_id, subscriber_email: subscriber_email@ },
                )
            },
            removed is None ==> final(self)@ == old(self)@,
    {
        proof {
            use_type_invariant(&*self);
            lemma_as_map(self.rows@);
        }
        match self.find(issue_id, subscriber_email) {
            Some(i) => {
                if self.rows[i].claimed {
                    let mut rows = self.take_rows();
                    proof {
                        lemma_remove_row(rows@, i as int);
                    }
                    let row = rows.remove(i);
                    self.rows = rows;
                    Some(row.task.retry_count)
                } else {
                    None
                }
            },
            None => None,
        }
    }

    /// Releases the open claim on the row with the given key, if there is
    /// one, after recording a new retry count and due time where given.
    fn release_held(
        &mut self,
        issue_id: u128,
        subscriber_email: &String,
        update: Option<(u32, i64)>,
    ) -> (released: bool)
        ensures
            released == is_held(
                old(self)@,
                TaskKey { issue_id, subscriber_email: subscriber_email@ },
            ),
            released ==> final(self)@ == old(self)@.insert(
                TaskKey { issue_id, subscriber_email: subscriber_email@ },
                match update {
                    Some((retry_count, not_before)) => RowState {
                        retry_count,
                        not_before,
                        claimed: false,
                    },
                    None => RowState {
                        claimed: false,
                        ..old(self)@[TaskKey { issue_id, subscriber_email: subscriber_email@ }]
                    },
                },
            ),
            !released ==> final(self)@ == old(self)@,
    {
        proof {
            use_type_invariant(&*self);
            lemma_as_map(self.rows@);
        }
        match self.find(issue_id, subscriber_email) {
            Some(i) => {
                if self.rows[i].claimed {
                    let mut rows = self.take_rows();
                    let ghost before = rows@;
                    rows[i].claimed = false;
                    match update {
                        Some((retry_count, not_before)) => {
                            rows[i].task.retry_count = retry_count;
                            rows[i].task.not_before = not_before;
                        },
                        None => {},
                    }
                    proof {
                        lemma_update_row(before, rows@, i as int);
                    }
                    self.rows = rows;
                    true
                } else {
                    false
                }
            },
            None => false,
        }
    }

    /// The number of tasks that a claim attempt at `now` could be granted.
    pub fn claimable(&self, max_retries: u32, now: i64) -> (n: usize)
        ensures
            claimable_keys(self@, max_retries, now).finite(),
            n == claimable_keys(self@, max_retries, now).len(),
    {
        proof {
            use_type_invariant(self);
            assert(claimable_keys(as_map(self.rows@.take(0)), max_retries, now) =~= Set::<
                TaskKey,
            >::empty());
        }
        let mut n: usize = 0;
        let mut i: usize = 0;
        while i < self.rows.len()
            invariant
                i <= self.rows.len(),
                n <= i,
                distinct_keys(self.rows@),
                claimable_keys(as_map(self.rows@.take(i as int)), max_retries, now).finite(),
                n == claimable_keys(as_map(self.rows@.take(i as int)), max_retries, now).len(),
            decreases self.rows.len() - i,
        {
            proof {
                lemma_claimable_keys_of_prefix(self.rows@, i as int, max_retries, now);
            }
            let row = &self.rows[i];
            if !row.claimed && row.task.is_due(max_retries, now) {
                n += 1;
            }
            i += 1;
        }
        assert(self.rows@.take(self.rows@.len() as int) == self.rows@);
        n
    }

    /// What the queue keeps of the task for `issue_id` and
    /// `subscriber_email`, if it has one.
    pub fn get(&self, issue_id: u128, subscriber_email: &String) -> (row: Option<RowState>)
        ensures
            row == if self@.contains_key(TaskKey { issue_id, subscriber_email: subscriber_email@ }) {
                Some(self@[TaskKey { issue_id, subscriber_email: subscriber_email@ }])
            } else {
                None
            },
    {
        proof {
            use_type_invariant(self);
            lemma_as_map(self.rows@);
        }
        match self.find(issue_id, subscriber_email) {
            Some(i) => Some(
                RowState {
                    retry_count: self.rows[i].task.retry_count,
                    not_before: self.rows[i].task.not_before,
                    claimed: self.rows[i].claimed,
                },
            ),
            None => None,
        }
    }

    /// Whether no task is pending.
    pub fn is_empty(&self) -> (empty: bool)
        ensures
            empty == (self@ == QueueView::empty()),
    {
        proof {
            use_type_invariant(self);
            lemma_as_map(self.rows@);
            if self.rows@.len() > 0 {
                assert(self@.contains_key(self.rows@[0].key()));
            } else {
                assert(self@ =~= QueueView::empty());
            }
        }
        self.rows.len() == 0
    }

    /// The number of pending tasks, claimed or not.
    pub fn len(&self) -> (n: usize)
        ensures
            self@.dom().finite(),
            n == self@.dom().len(),
    {
        proof {
            use_type_invariant(self);
            lemma_as_map(self.rows@);
            lemma_len_of_map(self.rows@);
        }
        self.rows.len()
    }
}

/// A task together with the exclusive hold on its row. Only `claim_one`
/// makes one, and each resolution consumes it. A claim that is neither
/// resolved nor given up keeps its task held.
#[derive(Debug)]
pub struct ClaimedTask {
    task: DeliveryTask,
}

impl View for ClaimedTask {
    type V = TaskView;

    closed spec fn view(&self) -> TaskView {
        self.task@
    }
}

impl ClaimedTask {
    /// The issue to deliver.
    pub fn issue_id(&self) -> (id: u128)
        ensures
            id == self@.issue_id,
    {
        self.task.issue_id
    }

    /// The address as the queue stored it.
    pub fn subscriber_email(&self) -> (email: &String)
        ensures
            email@ == self@.subscriber_email,
    {
        &self.task.subscriber_email
    }

    /// The failed deliveries counted when the task was claimed.
    pub fn retry_count(&self) -> (n: u32)
        ensures
            n == self@.retry_count,
    {
        self.task.retry_count
    }

    /// The time from which the task was due.
    pub fn not_before(&self) -> (t: i64)
        ensures
            t == self@.not_before,
    {
        self.task.not_before
    }

    /// A copy of the task's fields.
    pub fn task(&self) -> (task: DeliveryTask)
        ensures
            task@ == self@,
    {
        self.task.duplicate()
    }

    /// Deletes the task and releases the hold: the resolution for a
    /// delivery that succeeded and for a task that is skipped for good.
    pub fn complete(self, queue: &mut DeliveryQueue) -> (res: Result<(), QueueError>)
        ensures
            res is Ok <==> is_held(old(queue)@, self@.key()),
            res is Ok ==> final(queue)@ == old(queue)@.remove(self@.key()),
            res is Err ==> final(queue)@ == old(queue)@,
    {
        match queue.remove_held(self.task.issue_id, &self.task.subscriber_email) {
            Some(_) => Ok(()),
            None => Err(QueueError::NotHeld),
        }
    }

    /// Keeps the task for a later attempt: records `retry_count` and
    /// `not_before` on it and releases the hold.
    pub fn defer(self, queue: &mut DeliveryQueue, retry_count: u32, not_before: i64) -> (res:
        Result<(), QueueError>)
        ensures
            res is Ok <==> is_held(old(queue)@, self@.key()),
            res is Ok ==> final(queue)@ == old(queue)@.insert(
                self@.key(),
                RowState { retry_count, not_before, claimed: false },
            ),
            res is Err ==> final(queue)@ == old(queue)@,
    {
        if queue.release_held(
            self.task.issue_id,
            &self.task.subscriber_email,
            Some((retry_count, not_before)),
        ) {
            Ok(())
        } else {
            Err(QueueError::NotHeld)
        }
    }

    /// Deletes the task because its retries ran out, releases the hold and
    /// hands back the record to report.
    pub fn exhaust_and_drop(self, queue: &mut DeliveryQueue) -> (res: Result<
        DeadLetter,
        QueueError,
    >)
        ensures
            res is Ok <==> is_held(old(queue)@, self@.key()),
            res matches Ok(letter) ==> {
                &&& final(queue)@ == old(queue)@.remove(self@.key())
                &&& letter.issue_id == self@.issue_id
                &&& letter.subscriber_email@ == self@.subscriber_email
                &&& letter.retry_count == old(queue)@[self@.key()].retry_count
            },
            res is Err ==> final(queue)@ == old(queue)@,
    {
        match queue.remove_held(self.task.issue_id, &self.task.subscriber_email) {
            Some(retry_count) => Ok(
                DeadLetter {
                    issue_id: self.task.issue_id,
                    subscriber_email: self.task.subscriber_email,
                    retry_count,
                },
            ),
            None => Err(QueueError::NotHeld),
        }
    }

    /// Gives the task up unresolved: releases the hold and leaves the task
    /// as it was, so that it can be claimed again at once.
    pub fn abandon(self, queue: &mut DeliveryQueue) -> (res: Result<(), QueueError>)
        ensures
            res is Ok <==> is_held(old(queue)@, self@.key()),
            res is Ok ==> final(queue)@ == old(queue)@.insert(
                self@.key(),
                RowState { claimed: false, ..old(queue)@[self@.key()] },
            ),
            res is Err ==> final(queue)@ == old(queue)@,
    {
        if queue.release_held(self.task.issue_id, &self.task.subscriber_email, None) {
            Ok(())
        } else {
            Err(QueueError::NotHeld)
        }
    }
}

} // verus!
