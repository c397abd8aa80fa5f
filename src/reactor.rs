//! Decisions of the reactor's park loop and of the submit retry loop.
use vstd::prelude::*;

verus! {

/// Nanoseconds in one second.
pub const NANOS_PER_SEC: u32 = 1_000_000_000;

/// A span of time to wait, as whole seconds and the nanoseconds beyond them.
#[derive(Clone, Copy, Debug, PartialEq, Eq, Structural)]
pub struct WaitSpan {
    pub secs: u64,
    pub nanos: u32,
}

impl WaitSpan {
    /// The nanoseconds part stays under one second.
    pub open spec fn wf(&self) -> bool {
        self.nanos < NANOS_PER_SEC
    }

    /// The span of `secs` seconds and `nanos` nanoseconds, carrying whole seconds out of `nanos`.
    pub fn new(secs: u64, nanos: u32) -> (r: Option<WaitSpan>)
        ensures
            match r {
                Some(w) => {
                    &&& w.wf()
                    &&& w.secs == secs + nanos / NANOS_PER_SEC
                    &&& w.nanos == nanos % NANOS_PER_SEC
                },
                None => secs + nanos / NANOS_PER_SEC > u64::MAX,
            },
    {
        let carry = (nanos / NANOS_PER_SEC) as u64;
        match secs.checked_add(carry) {
            Some(total) => Some(WaitSpan { secs: total, nanos: nanos % NANOS_PER_SEC }),
            None => None,
        }
    }

    /// Whether the span is empty.
    pub fn is_zero(&self) -> (r: bool)
        ensures
            r == (self.secs == 0 && self.nanos == 0),
    {
        self.secs == 0 && self.nanos == 0
    }
}

/// What one call of the park loop submits and whether it blocks.
#[derive(Clone, Copy, Debug, PartialEq, Eq, Structural)]
pub struct ParkPlan {
    /// Schedule the read that consumes the wake signal's event object.
    pub read_wake: bool,
    /// Schedule an internal timeout of this span.
    pub timeout: Option<WaitSpan>,
    /// Flush the submission queue first, to make room for the internal records.
    pub flush_first: bool,
    /// Block until at least one completion is available.
    pub block: bool,
}

/// The park call may not block: the wake signal was pending, the first drain
/// found completions, or the caller asked for a zero wait.
pub open spec fn park_nowait(had_completions: bool, wake_pending: bool, wait: Option<WaitSpan>) -> bool {
    wake_pending || had_completions || (wait matches Some(w) && w.secs == 0 && w.nanos == 0)
}

/// How many internal records a plan schedules.
pub open spec fn plan_records(p: ParkPlan) -> nat {
    (if p.read_wake { 1nat } else { 0nat }) + (if p.timeout is Some { 1nat } else { 0nat })
}

/// Plans one park call. `had_completions` says whether completions were
/// available when the call began, `wait` is the longest the caller lets it
/// block (`None`: until something arrives), `sq_free` the free room in the
/// submission queue.
pub fn plan_park(had_completions: bool, wake_pending: bool, wait: Option<WaitSpan>, sq_free: usize) -> (r: ParkPlan)
    ensures
        r.read_wake == wake_pending,
        r.block == !park_nowait(had_completions, wake_pending, wait),
        r.timeout == (if r.block { wait } else { None::<WaitSpan> }),
        r.flush_first == (sq_free < plan_records(r)),
        wake_pending ==> !r.block && r.timeout is None,
{
    let zero_wait = match wait {
        Some(w) => w.is_zero(),
        None => false,
    };
    let nowait = wake_pending || had_completions || zero_wait;
    let timeout = if nowait { None } else { wait };
    let records: usize = (if wake_pending { 1usize } else { 0usize }) + (if timeout.is_some() { 1usize } else { 0usize });
    ParkPlan { read_wake: wake_pending, timeout, flush_first: sq_free < records, block: !nowait }
}

/// Where the submit retry loop stands.
#[derive(Clone, Copy, Debug, PartialEq, Eq, Structural)]
pub enum SubmitPhase {
    /// Push the record into the submission queue.
    Push,
    /// Flush the submission queue to the kernel.
    Flush,
    /// Drain the available completions before flushing again.
    Drain,
    /// The record is in the submission queue.
    Done,
    /// The kernel refused the flush with this error number.
    Failed(i32),
}

/// What the last step of the submit retry loop reported.
#[derive(Clone, Copy, Debug, PartialEq, Eq, Structural)]
pub enum RingEvent {
    /// The push found room.
    Accepted,
    /// The push found the submission queue full.
    Full,
    /// The flush went through.
    Flushed,
    /// The flush found the kernel's submission path busy.
    Busy,
    /// The flush failed with this error number.
    Error(i32),
    /// The available completions were drained.
    Drained,
}

/// The phase that follows `phase` when its step reports `event`; an event that
/// does not answer the phase's step leaves the phase as it is.
pub open spec fn next_phase(phase: SubmitPhase, event: RingEvent) -> SubmitPhase {
    match (phase, event) {
        (SubmitPhase::Push, RingEvent::Accepted) => SubmitPhase::Done,
        (SubmitPhase::Push, RingEvent::Full) => SubmitPhase::Flush,
        (SubmitPhase::Flush, RingEvent::Flushed) => SubmitPhase::Push,
        (SubmitPhase::Flush, RingEvent::Busy) => SubmitPhase::Drain,
        (SubmitPhase::Flush, RingEvent::Error(e)) => SubmitPhase::Failed(e),
        (SubmitPhase::Drain, RingEvent::Drained) => SubmitPhase::Flush,
        _ => phase,
    }
}

/// One decision of the submit retry loop.
pub fn submit_step(phase: SubmitPhase, event: RingEvent) -> (r: SubmitPhase)
    ensures
        r == next_phase(phase, event),
{
    match (phase, event) {
        (SubmitPhase::Push, RingEvent::Accepted) => SubmitPhase::Done,
        (SubmitPhase::Push, RingEvent::Full) => SubmitPhase::Flush,
        (SubmitPhase::Flush, RingEvent::Flushed) => SubmitPhase::Push,
        (SubmitPhase::Flush, RingEvent::Busy) => SubmitPhase::Drain,
        (SubmitPhase::Flush, RingEvent::Error(e)) => SubmitPhase::Failed(e),
        (SubmitPhase::Drain, RingEvent::Drained) => SubmitPhase::Flush,
        _ => phase,
    }
}

/// A full or busy ring never ends the submit loop: only a flush error fails it,
/// a push is retried only after a flush went through, and a busy flush is
/// retried only after a drain.
pub proof fn lemma_backpressure_progress(phase: SubmitPhase, event: RingEvent)
    ensures
        next_phase(phase, event) is Failed && !(phase is Failed) ==> phase is Flush && event is Error,
        next_phase(phase, event) is Push && !(phase is Push) ==> phase is Flush && event is Flushed,
        next_phase(phase, event) is Flush && phase is Drain ==> event is Drained,
        phase is Push && event is Full ==> next_phase(phase, event) is Flush,
        phase is Flush && event is Busy ==> next_phase(phase, event) is Drain,
        phase is Drain && event is Drained ==> next_phase(phase, event) is Flush,
        phase is Flush && event is Flushed ==> next_phase(phase, event) is Push,
        phase is Push && event is Accepted ==> next_phase(phase, event) is Done,
{
}

} // verus!
