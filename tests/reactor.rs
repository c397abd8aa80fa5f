use ritsu::completion::{Completion, TIMEOUT_TOKEN};
use ritsu::drain::cq_drain;
use ritsu::reactor::{plan_park, submit_step, ParkPlan, RingEvent, SubmitPhase, WaitSpan};
use ritsu::ticket::{TicketArena, TicketPoll};

fn secs(s: u64) -> WaitSpan {
    WaitSpan::new(s, 0).unwrap()
}

#[test]
fn wait_span_carries_whole_seconds() {
    let w = WaitSpan::new(1, 2_500_000_000).unwrap();
    assert_eq!(w, WaitSpan { secs: 3, nanos: 500_000_000 });
    assert_eq!(WaitSpan::new(4, 999_999_999).unwrap(), WaitSpan { secs: 4, nanos: 999_999_999 });
    assert!(WaitSpan::new(u64::MAX, 1_000_000_000).is_none());
    assert_eq!(WaitSpan::new(u64::MAX, 5).unwrap(), WaitSpan { secs: u64::MAX, nanos: 5 });
    assert!(WaitSpan::new(0, 0).unwrap().is_zero());
    assert!(!WaitSpan::new(0, 1).unwrap().is_zero());
}

#[test]
fn pending_wake_never_blocks() {
    let plan = plan_park(false, true, Some(secs(5)), 8);
    assert_eq!(plan, ParkPlan { read_wake: true, timeout: None, flush_first: false, block: false });
    let plan = plan_park(false, true, None, 0);
    assert_eq!(plan, ParkPlan { read_wake: true, timeout: None, flush_first: true, block: false });
}

#[test]
fn idle_park_blocks_with_timeout() {
    let plan = plan_park(false, false, Some(secs(2)), 8);
    assert_eq!(plan, ParkPlan { read_wake: false, timeout: Some(secs(2)), flush_first: false, block: true });
    let plan = plan_park(false, false, Some(secs(2)), 0);
    assert_eq!(plan, ParkPlan { read_wake: false, timeout: Some(secs(2)), flush_first: true, block: true });
    let plan = plan_park(false, false, None, 0);
    assert_eq!(plan, ParkPlan { read_wake: false, timeout: None, flush_first: false, block: true });
}

#[test]
fn available_completions_or_zero_wait_poll_only() {
    let plan = plan_park(true, false, Some(secs(2)), 8);
    assert_eq!(plan, ParkPlan { read_wake: false, timeout: None, flush_first: false, block: false });
    let plan = plan_park(false, false, Some(WaitSpan::new(0, 0).unwrap()), 8);
    assert_eq!(plan, ParkPlan { read_wake: false, timeout: None, flush_first: false, block: false });
    let plan = plan_park(false, false, Some(WaitSpan::new(0, 1).unwrap()), 8);
    assert!(plan.block);
}

#[test]
fn submit_steps_follow_the_retry_policy() {
    assert_eq!(submit_step(SubmitPhase::Push, RingEvent::Accepted), SubmitPhase::Done);
    assert_eq!(submit_step(SubmitPhase::Push, RingEvent::Full), SubmitPhase::Flush);
    assert_eq!(submit_step(SubmitPhase::Flush, RingEvent::Flushed), SubmitPhase::Push);
    assert_eq!(submit_step(SubmitPhase::Flush, RingEvent::Busy), SubmitPhase::Drain);
    assert_eq!(submit_step(SubmitPhase::Drain, RingEvent::Drained), SubmitPhase::Flush);
    assert_eq!(submit_step(SubmitPhase::Flush, RingEvent::Error(-9)), SubmitPhase::Failed(-9));
    assert_eq!(submit_step(SubmitPhase::Push, RingEvent::Flushed), SubmitPhase::Push);
    assert_eq!(submit_step(SubmitPhase::Done, RingEvent::Full), SubmitPhase::Done);
}

/// A submission queue of one slot whose kernel side is busy until its
/// completion queue has been drained once.
struct TinyRing {
    queued: Option<u64>,
    in_kernel: Vec<u64>,
    completed: Vec<Completion>,
    busy_until_drained: bool,
    drains: u32,
}

impl TinyRing {
    fn step(&mut self, phase: SubmitPhase, record: u64, arena: &mut TicketArena<u32>) -> RingEvent {
        match phase {
            SubmitPhase::Push => {
                if self.queued.is_some() {
                    RingEvent::Full
                } else {
                    self.queued = Some(record);
                    RingEvent::Accepted
                }
            }
            SubmitPhase::Flush => {
                if self.busy_until_drained && !self.completed.is_empty() {
                    RingEvent::Busy
                } else {
                    if let Some(r) = self.queued.take() {
                        self.in_kernel.push(r);
                    }
                    RingEvent::Flushed
                }
            }
            SubmitPhase::Drain => {
                let batch = std::mem::take(&mut self.completed);
                let _ = cq_drain(arena, &batch);
                self.drains += 1;
                RingEvent::Drained
            }
            _ => panic!("no step in a final phase"),
        }
    }
}

fn submit(ring: &mut TinyRing, record: u64, arena: &mut TicketArena<u32>) -> SubmitPhase {
    let mut phase = SubmitPhase::Push;
    for _ in 0..100 {
        if matches!(phase, SubmitPhase::Done | SubmitPhase::Failed(_)) {
            return phase;
        }
        let event = ring.step(phase, record, arena);
        phase = submit_step(phase, event);
    }
    panic!("submit did not finish");
}

#[test]
fn back_to_back_submits_on_a_one_slot_queue() {
    let mut arena: TicketArena<u32> = TicketArena::new();
    let mut ring = TinyRing { queued: None, in_kernel: Vec::new(), completed: Vec::new(), busy_until_drained: false, drains: 0 };
    let a = arena.issue().unwrap();
    let b = arena.issue().unwrap();
    assert_eq!(submit(&mut ring, a, &mut arena), SubmitPhase::Done);
    assert_eq!(submit(&mut ring, b, &mut arena), SubmitPhase::Done);
    assert_eq!(ring.in_kernel, vec![a]);
    assert_eq!(ring.queued, Some(b));
}

#[test]
fn busy_kernel_is_drained_before_the_retry() {
    let mut arena: TicketArena<u32> = TicketArena::new();
    let earlier = arena.issue().unwrap();
    assert_eq!(arena.poll(earlier, 11), TicketPoll::Pending);
    let a = arena.issue().unwrap();
    let mut ring = TinyRing {
        queued: Some(earlier),
        in_kernel: Vec::new(),
        completed: vec![Completion { user_data: earlier, result: 0, flags: 0 }],
        busy_until_drained: true,
        drains: 0,
    };
    assert_eq!(submit(&mut ring, a, &mut arena), SubmitPhase::Done);
    assert_eq!(ring.drains, 1);
    assert_eq!(ring.queued, Some(a));
    assert_eq!(arena.poll(earlier, 0), TicketPoll::Ready(Completion { user_data: earlier, result: 0, flags: 0 }));
}

#[test]
fn timeout_park_leaves_read_pending_until_it_completes() {
    let mut arena: TicketArena<u32> = TicketArena::new();
    let read = arena.issue().unwrap();
    assert_eq!(arena.poll(read, 1), TicketPoll::Pending);
    let plan = plan_park(false, false, Some(WaitSpan::new(0, 50_000_000).unwrap()), 8);
    assert!(plan.block);
    assert_eq!(plan.timeout, Some(WaitSpan { secs: 0, nanos: 50_000_000 }));
    let woken = cq_drain(&mut arena, &vec![Completion { user_data: TIMEOUT_TOKEN, result: -62, flags: 0 }]);
    assert!(woken.is_empty());
    assert_eq!(arena.poll(read, 1), TicketPoll::Pending);
    let plan = plan_park(true, false, None, 8);
    assert!(!plan.block);
    let done = Completion { user_data: read, result: 16, flags: 0 };
    let woken = cq_drain(&mut arena, &vec![done]);
    assert_eq!(woken, vec![1]);
    assert_eq!(arena.poll(read, 1), TicketPoll::Ready(done));
}
