use zero2prod::queue::{ClaimedTask, DeliveryQueue, DeliveryTask, RowState};
use zero2prod::worker::{Action, Completion, Event, Issue, Worker, WorkerConfig};

const I1: u128 = 0x1111;

/// A host for a worker that keeps everything in memory: the queue, a clock,
/// the issues, and a mail gateway that fails as often as it is told to.
struct Host {
    queue: DeliveryQueue,
    issues: Vec<u128>,
    now: i64,
    failures_ahead: u32,
    claim: Option<ClaimedTask>,
    sent: Vec<String>,
    send_attempts: u32,
    dead_letters: Vec<String>,
    skipped: Vec<String>,
    slept: Vec<u32>,
}

impl Host {
    fn new(now: i64) -> Host {
        Host {
            queue: DeliveryQueue::new(),
            issues: vec![I1],
            now,
            failures_ahead: 0,
            claim: None,
            sent: Vec::new(),
            send_attempts: 0,
            dead_letters: Vec::new(),
            skipped: Vec::new(),
            slept: Vec::new(),
        }
    }

    /// Performs `action` and reports its outcome; nothing for `Stop`.
    fn perform(&mut self, action: Action) -> Option<Event> {
        let event = match action {
            Action::Claim { max_retries } => match self.queue.claim_one(max_retries, self.now) {
                Some(claim) => {
                    let task = claim.task();
                    self.claim = Some(claim);
                    Event::Claimed(task)
                }
                None => Event::QueueEmpty,
            },
            Action::Sleep { seconds } => {
                self.slept.push(seconds);
                self.now += i64::from(seconds);
                Event::Woke
            }
            Action::LoadIssue { issue_id } => {
                if self.issues.contains(&issue_id) {
                    Event::IssueFound(Issue {
                        id: issue_id,
                        title: "Newsletter title".to_string(),
                        html_body: "<p>Newsletter body as HTML</p>".to_string(),
                        text_body: "Newsletter body as plain text".to_string(),
                    })
                } else {
                    Event::IssueMissing
                }
            }
            Action::Send { recipient, .. } => {
                self.send_attempts += 1;
                if self.failures_ahead > 0 {
                    self.failures_ahead -= 1;
                    Event::SendFailed { now: self.now }
                } else {
                    self.sent.push(recipient.as_ref().to_string());
                    Event::Sent
                }
            }
            Action::Complete { reason } => {
                let claim = self.claim.take().unwrap();
                if let Completion::InvalidEmail(_) = reason {
                    self.skipped.push(claim.subscriber_email().clone());
                }
                claim.complete(&mut self.queue).unwrap();
                Event::Resolved
            }
            Action::Defer { retry_count, not_before } => {
                let claim = self.claim.take().unwrap();
                claim.defer(&mut self.queue, retry_count, not_before).unwrap();
                Event::Resolved
            }
            Action::ExhaustAndDrop => {
                let claim = self.claim.take().unwrap();
                let letter = claim.exhaust_and_drop(&mut self.queue).unwrap();
                self.dead_letters.push(letter.subscriber_email);
                Event::Resolved
            }
            Action::Abandon => {
                let claim = self.claim.take().unwrap();
                claim.abandon(&mut self.queue).unwrap();
                Event::Resolved
            }
            Action::Stop => return None,
        };
        Some(event)
    }

    /// Wakes the worker and runs it until it goes to sleep or stops.
    fn run_until_sleep(&mut self, worker: &mut Worker) {
        let mut action = worker.step(Event::Woke).unwrap();
        loop {
            if let Action::Sleep { seconds } = action {
                self.slept.push(seconds);
                return;
            }
            match self.perform(action) {
                Some(event) => action = worker.step(event).unwrap(),
                None => return,
            }
        }
    }

    fn row(&self, email: &str) -> Option<RowState> {
        self.queue.get(I1, &email.to_string())
    }
}

fn config() -> WorkerConfig {
    WorkerConfig { max_retries: 5, backoff_seconds: 5, idle_seconds: 10, error_seconds: 1 }
}

fn task(email: &str, retry_count: u32, not_before: i64) -> DeliveryTask {
    DeliveryTask { issue_id: I1, subscriber_email: email.to_string(), retry_count, not_before }
}

#[test]
fn a_due_task_with_a_valid_address_is_delivered_and_deleted() {
    let mut host = Host::new(1_000);
    host.queue.insert(task("good@x.com", 0, 900));
    let mut worker = Worker::new(config()).unwrap();

    host.run_until_sleep(&mut worker);

    assert_eq!(host.sent, vec!["good@x.com".to_string()]);
    assert_eq!(host.send_attempts, 1);
    assert!(host.queue.is_empty());
    assert!(host.dead_letters.is_empty());
    assert!(host.skipped.is_empty());
    // The queue ran dry, so the worker sleeps the idle interval.
    assert_eq!(host.slept, vec![10]);
}

#[test]
fn a_task_with_an_invalid_address_is_deleted_without_a_send() {
    let mut host = Host::new(1_000);
    host.queue.insert(task("not-an-email", 0, 900));
    let mut worker = Worker::new(config()).unwrap();

    // Step by step: claim, then the resolution follows at once.
    let action = worker.step(Event::Woke).unwrap();
    let event = host.perform(action).unwrap();
    assert_eq!(
        host.row("not-an-email"),
        Some(RowState { retry_count: 0, not_before: 900, claimed: true })
    );
    let action = worker.step(event).unwrap();
    assert!(matches!(action, Action::Complete { reason: Completion::InvalidEmail(_) }));
    let event = host.perform(action).unwrap();
    assert!(matches!(event, Event::Resolved));

    assert_eq!(host.send_attempts, 0);
    assert!(host.sent.is_empty());
    assert_eq!(host.row("not-an-email"), None);
    assert!(host.queue.is_empty());
    assert_eq!(host.skipped, vec!["not-an-email".to_string()]);
    assert!(host.dead_letters.is_empty());
}

#[test]
fn a_poison_task_does_not_stall_the_tasks_behind_it() {
    let mut host = Host::new(1_000);
    host.queue.insert(task("not-an-email", 0, 900));
    host.queue.insert(task("good@x.com", 0, 900));
    let mut worker = Worker::new(config()).unwrap();

    host.run_until_sleep(&mut worker);

    assert_eq!(host.sent, vec!["good@x.com".to_string()]);
    assert_eq!(host.send_attempts, 1);
    assert_eq!(host.skipped, vec!["not-an-email".to_string()]);
    assert!(host.queue.is_empty());
}

#[test]
fn a_failed_send_is_retried_after_the_backoff() {
    let mut host = Host::new(1_000);
    host.queue.insert(task("good@x.com", 0, 900));
    host.failures_ahead = 1;
    let mut worker = Worker::new(config()).unwrap();

    // The send fails: the task stays, with one failure, due 5 seconds on.
    host.run_until_sleep(&mut worker);
    assert_eq!(host.send_attempts, 1);
    assert!(host.sent.is_empty());
    assert_eq!(
        host.row("good@x.com"),
        Some(RowState { retry_count: 1, not_before: 1_005, claimed: false })
    );
    // A claim attempt right away finds nothing due.
    assert!(host.queue.claim_one(5, 1_000).is_none());
    assert!(host.queue.claim_one(5, 1_004).is_none());
    assert_eq!(host.slept, vec![10]);

    // Once the time has come the task is claimed again and delivered.
    host.now = 1_005;
    host.run_until_sleep(&mut worker);
    assert_eq!(host.send_attempts, 2);
    assert_eq!(host.sent, vec!["good@x.com".to_string()]);
    assert!(host.queue.is_empty());
    assert!(host.dead_letters.is_empty());
}

#[test]
fn the_last_failed_send_dead_letters_the_task() {
    let mut host = Host::new(1_000);
    host.queue.insert(task("good@x.com", 4, 900));
    host.failures_ahead = 1;
    let mut worker = Worker::new(config()).unwrap();

    host.run_until_sleep(&mut worker);

    assert_eq!(host.send_attempts, 1);
    assert!(host.sent.is_empty());
    assert_eq!(host.dead_letters, vec!["good@x.com".to_string()]);
    assert_eq!(host.row("good@x.com"), None);
    assert!(host.queue.is_empty());
    // No later claim returns it, whenever it is made.
    assert!(host.queue.claim_one(5, 1_000).is_none());
    assert!(host.queue.claim_one(u32::MAX, i64::MAX).is_none());
}

#[test]
fn a_task_is_tried_max_retries_times_in_all() {
    let mut host = Host::new(0);
    host.queue.enqueue(I1, "good@x.com".to_string(), 0);
    host.failures_ahead = u32::MAX;
    let mut worker = Worker::new(config()).unwrap();

    for _ in 0..20 {
        host.run_until_sleep(&mut worker);
        host.now += 10;
    }

    assert_eq!(host.send_attempts, 5);
    assert_eq!(host.dead_letters, vec!["good@x.com".to_string()]);
    assert!(host.queue.is_empty());
}

#[test]
fn a_missing_issue_leaves_the_task_in_the_queue() {
    let mut host = Host::new(1_000);
    host.issues.clear();
    host.queue.insert(task("good@x.com", 2, 900));
    let mut worker = Worker::new(config()).unwrap();

    host.run_until_sleep(&mut worker);

    assert_eq!(host.send_attempts, 0);
    assert_eq!(
        host.row("good@x.com"),
        Some(RowState { retry_count: 2, not_before: 900, claimed: false })
    );
    // The worker pauses for the error interval.
    assert_eq!(host.slept, vec![1]);
}

#[test]
fn two_workers_share_a_queue() {
    let mut host_a = Host::new(1_000);
    for i in 0..4 {
        host_a.queue.enqueue(I1, format!("s{}@x.com", i), 1_000);
    }
    let mut a = Worker::new(config()).unwrap();
    let mut b = Worker::new(config()).unwrap();

    // Both claim before either resolves.
    let claim_a = a.step(Event::Woke).unwrap();
    let claim_b = b.step(Event::Woke).unwrap();
    assert!(matches!(claim_a, Action::Claim { max_retries: 5 }));
    assert!(matches!(claim_b, Action::Claim { max_retries: 5 }));
    let held_a = host_a.queue.claim_one(5, 1_000).unwrap();
    let held_b = host_a.queue.claim_one(5, 1_000).unwrap();
    assert_ne!(held_a.subscriber_email(), held_b.subscriber_email());
    assert_eq!(host_a.queue.claimable(5, 1_000), 2);

    let next_a = a.step(Event::Claimed(held_a.task())).unwrap();
    let next_b = b.step(Event::Claimed(held_b.task())).unwrap();
    assert!(matches!(next_a, Action::LoadIssue { issue_id: I1 }));
    assert!(matches!(next_b, Action::LoadIssue { issue_id: I1 }));

    held_a.complete(&mut host_a.queue).unwrap();
    held_b.complete(&mut host_a.queue).unwrap();
    assert_eq!(host_a.queue.len(), 2);
}

#[test]
fn a_stop_request_lets_the_claimed_task_finish() {
    let mut host = Host::new(1_000);
    host.queue.insert(task("a@x.com", 0, 900));
    host.queue.insert(task("b@x.com", 0, 900));
    let mut worker = Worker::new(config()).unwrap();

    let action = worker.step(Event::Woke).unwrap();
    let event = host.perform(action).unwrap();
    worker.request_stop();
    let mut action = worker.step(event).unwrap();
    while let Some(event) = host.perform(action) {
        action = worker.step(event).unwrap();
    }

    assert!(worker.is_stopped());
    assert_eq!(host.sent.len(), 1);
    assert_eq!(host.queue.len(), 1);
    assert_eq!(host.queue.claimable(5, 1_000), 1);
}
