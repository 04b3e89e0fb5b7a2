use zero2prod::queue::{DeliveryQueue, DeliveryTask, QueueError, RowState};

fn task(issue_id: u128, email: &str, retry_count: u32, not_before: i64) -> DeliveryTask {
    DeliveryTask { issue_id, subscriber_email: email.to_string(), retry_count, not_before }
}

fn row(queue: &DeliveryQueue, issue_id: u128, email: &str) -> Option<RowState> {
    queue.get(issue_id, &email.to_string())
}

#[test]
fn a_new_queue_is_empty() {
    let queue = DeliveryQueue::new();
    assert!(queue.is_empty());
    assert_eq!(queue.len(), 0);
    assert_eq!(queue.claimable(5, 0), 0);
    assert_eq!(row(&queue, 1, "a@x.com"), None);
}

#[test]
fn an_enqueued_task_is_due_at_once_and_has_no_failure() {
    let mut queue = DeliveryQueue::new();
    assert!(queue.enqueue(7, "a@x.com".to_string(), 1_000));
    assert_eq!(
        row(&queue, 7, "a@x.com"),
        Some(RowState { retry_count: 0, not_before: 1_000, claimed: false })
    );
    assert_eq!(queue.len(), 1);
    assert!(!queue.is_empty());
    assert_eq!(queue.claimable(1, 1_000), 1);
}

#[test]
fn there_is_one_task_per_subscriber_and_issue() {
    let mut queue = DeliveryQueue::new();
    assert!(queue.enqueue(7, "a@x.com".to_string(), 1_000));
    assert!(!queue.enqueue(7, "a@x.com".to_string(), 2_000));
    assert!(!queue.insert(task(7, "a@x.com", 3, 5)));
    assert_eq!(queue.len(), 1);
    assert_eq!(
        row(&queue, 7, "a@x.com"),
        Some(RowState { retry_count: 0, not_before: 1_000, claimed: false })
    );
    // Another subscriber, or another issue, is another task.
    assert!(queue.enqueue(7, "b@x.com".to_string(), 1_000));
    assert!(queue.enqueue(8, "a@x.com".to_string(), 1_000));
    assert_eq!(queue.len(), 3);
}

#[test]
fn an_inserted_task_keeps_its_fields() {
    let mut queue = DeliveryQueue::new();
    assert!(queue.insert(task(1, "a@x.com", 4, -20)));
    assert_eq!(
        row(&queue, 1, "a@x.com"),
        Some(RowState { retry_count: 4, not_before: -20, claimed: false })
    );
}

#[test]
fn a_claim_on_an_empty_queue_is_refused() {
    let mut queue = DeliveryQueue::new();
    assert!(queue.claim_one(5, 100).is_none());
    assert!(queue.is_empty());
}

#[test]
fn a_claim_hands_out_the_task_and_holds_it() {
    let mut queue = DeliveryQueue::new();
    queue.insert(task(1, "a@x.com", 2, 50));
    let claim = queue.claim_one(5, 100).unwrap();
    assert_eq!(claim.issue_id(), 1);
    assert_eq!(claim.subscriber_email(), "a@x.com");
    assert_eq!(claim.retry_count(), 2);
    assert_eq!(claim.not_before(), 50);
    let copy = claim.task();
    assert_eq!(copy.issue_id, 1);
    assert_eq!(copy.subscriber_email, "a@x.com");
    assert_eq!(copy.retry_count, 2);
    assert_eq!(copy.not_before, 50);
    assert_eq!(
        row(&queue, 1, "a@x.com"),
        Some(RowState { retry_count: 2, not_before: 50, claimed: true })
    );
    assert_eq!(queue.len(), 1);
    assert_eq!(queue.claimable(5, 100), 0);
}

#[test]
fn a_task_is_due_from_its_time_on() {
    let mut queue = DeliveryQueue::new();
    queue.insert(task(1, "a@x.com", 0, 100));
    assert_eq!(queue.claimable(5, 99), 0);
    assert!(queue.claim_one(5, 99).is_none());
    assert_eq!(queue.claimable(5, 100), 1);
    assert!(queue.claim_one(5, 100).is_some());
}

#[test]
fn a_task_without_retries_left_is_not_claimed() {
    let mut queue = DeliveryQueue::new();
    queue.insert(task(1, "a@x.com", 5, 0));
    assert!(queue.claim_one(5, 100).is_none());
    assert!(queue.claim_one(0, 100).is_none());
    assert_eq!(queue.claimable(5, 100), 0);
    assert_eq!(queue.claimable(6, 100), 1);
    let claim = queue.claim_one(6, 100).unwrap();
    assert_eq!(claim.retry_count(), 5);
}

#[test]
fn a_claim_passes_over_what_cannot_be_claimed() {
    let mut queue = DeliveryQueue::new();
    queue.insert(task(1, "late@x.com", 0, 500));
    queue.insert(task(1, "spent@x.com", 3, 0));
    queue.insert(task(1, "due@x.com", 1, 0));
    assert_eq!(queue.claimable(3, 100), 1);
    let claim = queue.claim_one(3, 100).unwrap();
    assert_eq!(claim.subscriber_email(), "due@x.com");
    assert!(queue.claim_one(3, 100).is_none());
}

#[test]
fn a_completed_task_is_deleted() {
    let mut queue = DeliveryQueue::new();
    queue.enqueue(1, "a@x.com".to_string(), 0);
    queue.enqueue(1, "b@x.com".to_string(), 0);
    let claim = queue.claim_one(5, 0).unwrap();
    let email = claim.subscriber_email().clone();
    assert_eq!(claim.complete(&mut queue), Ok(()));
    assert_eq!(row(&queue, 1, &email), None);
    assert_eq!(queue.len(), 1);
}

#[test]
fn a_deferred_task_stays_with_its_new_count_and_time() {
    let mut queue = DeliveryQueue::new();
    queue.enqueue(1, "a@x.com".to_string(), 0);
    let claim = queue.claim_one(5, 10).unwrap();
    assert_eq!(claim.defer(&mut queue, 1, 15), Ok(()));
    assert_eq!(
        row(&queue, 1, "a@x.com"),
        Some(RowState { retry_count: 1, not_before: 15, claimed: false })
    );
    assert!(queue.claim_one(5, 14).is_none());
    let again = queue.claim_one(5, 15).unwrap();
    assert_eq!(again.retry_count(), 1);
    assert_eq!(again.not_before(), 15);
}

#[test]
fn a_dropped_task_is_deleted_and_reported() {
    let mut queue = DeliveryQueue::new();
    queue.insert(task(9, "a@x.com", 4, 0));
    let claim = queue.claim_one(5, 10).unwrap();
    let letter = claim.exhaust_and_drop(&mut queue).unwrap();
    assert_eq!(letter.issue_id, 9);
    assert_eq!(letter.subscriber_email, "a@x.com");
    assert_eq!(letter.retry_count, 4);
    assert!(queue.is_empty());
    assert!(queue.claim_one(100, 1_000).is_none());
}

#[test]
fn an_abandoned_task_can_be_claimed_again_at_once() {
    let mut queue = DeliveryQueue::new();
    queue.insert(task(1, "a@x.com", 2, 7));
    let claim = queue.claim_one(5, 10).unwrap();
    assert!(queue.claim_one(5, 10).is_none());
    assert_eq!(claim.abandon(&mut queue), Ok(()));
    assert_eq!(
        row(&queue, 1, "a@x.com"),
        Some(RowState { retry_count: 2, not_before: 7, claimed: false })
    );
    let again = queue.claim_one(5, 10).unwrap();
    assert_eq!(again.retry_count(), 2);
}

#[test]
fn a_claim_is_refused_by_a_queue_that_does_not_hold_it() {
    let mut first = DeliveryQueue::new();
    for email in ["a@x.com", "b@x.com", "c@x.com", "d@x.com"] {
        first.enqueue(1, email.to_string(), 0);
    }
    // A queue without the task.
    let mut second = DeliveryQueue::new();
    let claim = first.claim_one(5, 0).unwrap();
    assert_eq!(claim.complete(&mut second), Err(QueueError::NotHeld));
    assert!(second.is_empty());
    let claim = first.claim_one(5, 0).unwrap();
    assert!(claim.exhaust_and_drop(&mut second).is_err());
    assert!(second.is_empty());

    // A queue that has the task, but has handed out no claim on it.
    for email in ["a@x.com", "b@x.com", "c@x.com", "d@x.com"] {
        second.enqueue(1, email.to_string(), 0);
    }
    let claim = first.claim_one(5, 0).unwrap();
    let email = claim.subscriber_email().clone();
    assert_eq!(claim.defer(&mut second, 3, 9), Err(QueueError::NotHeld));
    assert_eq!(
        row(&second, 1, &email),
        Some(RowState { retry_count: 0, not_before: 0, claimed: false })
    );
    let claim = first.claim_one(5, 0).unwrap();
    let email = claim.subscriber_email().clone();
    assert_eq!(claim.abandon(&mut second), Err(QueueError::NotHeld));
    assert_eq!(
        row(&second, 1, &email),
        Some(RowState { retry_count: 0, not_before: 0, claimed: false })
    );
    assert_eq!(second.len(), 4);
    assert_eq!(second.claimable(5, 0), 4);
}

#[test]
fn no_task_is_granted_to_two_callers_at_a_time() {
    let mut queue = DeliveryQueue::new();
    queue.enqueue(1, "a@x.com".to_string(), 0);
    queue.enqueue(1, "b@x.com".to_string(), 0);
    let first = queue.claim_one(5, 0).unwrap();
    let second = queue.claim_one(5, 0).unwrap();
    assert_ne!(first.subscriber_email(), second.subscriber_email());
    assert!(queue.claim_one(5, 0).is_none());
}

#[test]
fn concurrent_claims_share_out_the_tasks() {
    for tasks in 0..6usize {
        for callers in 0..8usize {
            let mut queue = DeliveryQueue::new();
            for i in 0..tasks {
                queue.enqueue(1, format!("s{}@x.com", i), 0);
            }
            // A task that is not due and one without retries left do not count.
            queue.insert(task(2, "late@x.com", 0, 10));
            queue.insert(task(2, "spent@x.com", 3, 0));
            assert_eq!(queue.claimable(3, 0), tasks);

            let mut granted = Vec::new();
            for _ in 0..callers {
                if let Some(claim) = queue.claim_one(3, 0) {
                    granted.push(claim);
                }
            }
            assert_eq!(granted.len(), tasks.min(callers));
            for i in 0..granted.len() {
                assert_eq!(granted[i].issue_id(), 1);
                for j in 0..i {
                    assert_ne!(granted[i].subscriber_email(), granted[j].subscriber_email());
                }
            }
            assert_eq!(queue.claimable(3, 0), tasks - tasks.min(callers));
            assert_eq!(queue.len(), tasks + 2);
        }
    }
}

#[test]
fn workers_drain_a_shared_queue_without_doing_a_task_twice() {
    let mut queue = DeliveryQueue::new();
    for i in 0..10 {
        queue.enqueue(1, format!("s{}@x.com", i), 0);
    }
    let mut done: Vec<String> = Vec::new();
    // Three workers, each holding at most one claim, take turns.
    let mut held = vec![None, None, None];
    let mut progress = true;
    while progress {
        progress = false;
        for worker in 0..3 {
            if held[worker].is_none() {
                held[worker] = queue.claim_one(5, 0);
                progress = progress || held[worker].is_some();
            }
        }
        for worker in 0..3 {
            if let Some(claim) = held[worker].take() {
                done.push(claim.subscriber_email().clone());
                assert_eq!(claim.complete(&mut queue), Ok(()));
            }
        }
    }
    assert!(queue.is_empty());
    done.sort();
    let mut expected: Vec<String> = (0..10).map(|i| format!("s{}@x.com", i)).collect();
    expected.sort();
    assert_eq!(done, expected);
}

#[test]
fn a_task_is_due_with_retries_left_and_its_time_come() {
    let t = task(1, "a@x.com", 2, 100);
    assert!(t.is_due(3, 100));
    assert!(t.is_due(3, 101));
    assert!(t.is_due(u32::MAX, i64::MAX));
    assert!(!t.is_due(3, 99));
    assert!(!t.is_due(2, 100));
    assert!(!t.is_due(0, 100));
    assert!(!task(1, "a@x.com", 0, i64::MAX).is_due(1, i64::MAX - 1));
    assert!(task(1, "a@x.com", 0, i64::MIN).is_due(1, i64::MIN));
}

#[test]
fn a_copy_of_a_task_has_its_fields() {
    let t = task(7, "a@x.com", 2, 100);
    let copy = t.duplicate();
    assert_eq!(copy.issue_id, 7);
    assert_eq!(copy.subscriber_email, "a@x.com");
    assert_eq!(copy.retry_count, 2);
    assert_eq!(copy.not_before, 100);
}
