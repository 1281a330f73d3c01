use vstd::prelude::*;

verus! {

/// Nanoseconds in a millisecond.
pub const NANOS_PER_MILLI: u128 = 1_000_000;

/// Nanoseconds in a second.
pub const NANOS_PER_SEC: u128 = 1_000_000_000;

/// Where the background worker stands.
#[derive(Clone, Copy, Debug, PartialEq, Eq, Structural)]
pub enum Phase {
    /// Collecting events into the current batch, waiting for the next one.
    Collecting,
    /// A cycle has ended; the next one starts with a fresh batch and deadline.
    BetweenCycles,
    /// The queue was disconnected and everything left has been handed out.
    Stopped,
}

/// What the worker observed since its last decision.
pub enum Signal<T> {
    /// The worker begins a new collection cycle.
    CycleStart,
    /// An event arrived from the queue.
    Received(T),
    /// The wait for the next event ran out.
    TimedOut,
    /// Every sender is gone: no event will ever arrive again.
    Disconnected,
}

/// What the worker has to do next.
pub enum Action<T> {
    /// Wait for the next event, at most `secs` seconds and `subsec_nanos` nanoseconds.
    Receive { secs: u64, subsec_nanos: u32 },
    /// Send this batch, then begin a new cycle.
    Send(Vec<T>),
    /// The cycle ended with nothing to send: begin a new cycle.
    Restart,
    /// Send this last batch, then stop.
    SendFinal(Vec<T>),
    /// Stop: nothing is left to send.
    Stop,
}

/// The mathematical meaning of an [`Action`]; a wait is measured in nanoseconds.
pub enum ActionView<T> {
    Receive(int),
    Send(Seq<T>),
    Restart,
    SendFinal(Seq<T>),
    Stop,
}

impl<T> View for Action<T> {
    type V = ActionView<T>;

    open spec fn view(&self) -> ActionView<T> {
        match self {
            Action::Receive { secs, subsec_nanos } => ActionView::Receive(
                *secs * NANOS_PER_SEC + *subsec_nanos,
            ),
            Action::Send(batch) => ActionView::Send(batch@),
            Action::Restart => ActionView::Restart,
            Action::SendFinal(batch) => ActionView::SendFinal(batch@),
            Action::Stop => ActionView::Stop,
        }
    }
}

/// The batching decisions of the background worker: it collects events into
/// a batch until the batch holds `flush_at` events or `flush_interval_ms`
/// milliseconds have passed since the cycle began, and hands out what it
/// collected; once the queue is disconnected it hands out the rest and stops.
/// Times are nanoseconds on a monotonic clock.
pub struct Batcher<T> {
    flush_at: usize,
    flush_interval_ms: u64,
    phase: Phase,
    batch: Vec<T>,
    cycle_start: u64,
    deadline: u128,
}

/// The state of a [`Batcher`] as mathematical values.
pub struct BatcherView<T> {
    pub flush_at: nat,
    pub flush_interval_ms: nat,
    pub phase: Phase,
    pub batch: Seq<T>,
    pub cycle_start: int,
}

impl<T> View for Batcher<T> {
    type V = BatcherView<T>;

    closed spec fn view(&self) -> BatcherView<T> {
        BatcherView {
            flush_at: self.flush_at as nat,
            flush_interval_ms: self.flush_interval_ms as nat,
            phase: self.phase,
            batch: self.batch@,
            cycle_start: self.cycle_start as int,
        }
    }
}

/// The moment the current cycle has to end: its start plus the flush interval.
pub open spec fn deadline<T>(s: BatcherView<T>) -> int {
    s.cycle_start + s.flush_interval_ms * NANOS_PER_MILLI
}

/// How long is left until `deadline`, seen at `now`; nothing once it has passed.
pub open spec fn time_left(deadline: int, now: int) -> int {
    if deadline > now {
        deadline - now
    } else {
        0
    }
}

/// A state that the worker can be in: while collecting, the batch is short of
/// `flush_at`; otherwise it is empty.
pub open spec fn well_formed<T>(s: BatcherView<T>) -> bool {
    &&& s.phase == Phase::Collecting ==> s.batch.len() < s.flush_at
    &&& s.phase != Phase::Collecting ==> s.batch.len() == 0
}

/// The signals that can come in each phase: a new cycle only between cycles,
/// the outcome of a wait only while collecting, and nothing once stopped.
pub open spec fn accepts<T>(s: BatcherView<T>, signal: Signal<T>) -> bool {
    match signal {
        Signal::CycleStart => s.phase == Phase::BetweenCycles,
        _ => s.phase == Phase::Collecting,
    }
}

/// The end of a cycle: the batch is handed out if it holds anything.
pub open spec fn end_cycle<T>(s: BatcherView<T>) -> (BatcherView<T>, ActionView<T>) {
    let next = BatcherView { phase: Phase::BetweenCycles, batch: Seq::empty(), ..s };
    if s.batch.len() > 0 {
        (next, ActionView::Send(s.batch))
    } else {
        (next, ActionView::Restart)
    }
}

/// Deciding while collecting: wait for more while the batch is short of
/// `flush_at`, else end the cycle.
pub open spec fn poll<T>(s: BatcherView<T>, now: int) -> (BatcherView<T>, ActionView<T>) {
    if s.batch.len() < s.flush_at {
        (s, ActionView::Receive(time_left(deadline(s), now)))
    } else {
        end_cycle(s)
    }
}

/// One decision of the worker: the state after `signal`, observed at `now`,
/// and what to do next.
pub open spec fn step_spec<T>(s: BatcherView<T>, signal: Signal<T>, now: int) -> (
    BatcherView<T>,
    ActionView<T>,
) {
    match signal {
        Signal::CycleStart => poll(
            BatcherView { phase: Phase::Collecting, batch: Seq::empty(), cycle_start: now, ..s },
            now,
        ),
        Signal::Received(event) => poll(BatcherView { batch: s.batch.push(event), ..s }, now),
        Signal::TimedOut => end_cycle(s),
        Signal::Disconnected => {
            let next = BatcherView { phase: Phase::Stopped, batch: Seq::empty(), ..s };
            if s.batch.len() > 0 {
                (next, ActionView::SendFinal(s.batch))
            } else {
                (next, ActionView::Stop)
            }
        },
    }
}

impl<T> Batcher<T> {
    /// The stored state is one the worker can be in, and the stored deadline
    /// is the one of the current cycle.
    #[verifier::type_invariant]
    spec fn inv(self) -> bool {
        &&& well_formed(self@)
        &&& self.deadline == deadline(self@)
    }

    /// A worker that has not begun its first cycle.
    pub fn new(flush_at: usize, flush_interval_ms: u64) -> (b: Self)
        ensures
            well_formed(b@),
            b@ == (BatcherView::<T> {
                flush_at: flush_at as nat,
                flush_interval_ms: flush_interval_ms as nat,
                phase: Phase::BetweenCycles,
                batch: Seq::empty(),
                cycle_start: 0,
            }),
    {
        Batcher {
            flush_at,
            flush_interval_ms,
            phase: Phase::BetweenCycles,
            batch: Vec::new(),
            cycle_start: 0,
            deadline: (flush_interval_ms as u128) * NANOS_PER_MILLI,
        }
    }

    /// The phase the worker is in.
    pub fn phase(&self) -> (p: Phase)
        ensures
            p == self@.phase,
    {
        self.phase
    }

    /// The number of events in the current batch.
    pub fn pending(&self) -> (n: usize)
        ensures
            n == self@.batch.len(),
    {
        self.batch.len()
    }

    /// The decision while collecting `batch` in the cycle that began at
    /// `cycle_start`: wait for more while it is short of `flush_at`, else end
    /// the cycle.
    fn decide(
        flush_at: usize,
        flush_interval_ms: u64,
        cycle_start: u64,
        deadline: u128,
        batch: Vec<T>,
        now: u64,
    ) -> (r: (Phase, Vec<T>, Action<T>))
        requires
            deadline == cycle_start + flush_interval_ms * NANOS_PER_MILLI,
            cycle_start <= now,
            batch@.len() <= flush_at,
        ensures
            ({
                let s = BatcherView {
                    flush_at: flush_at as nat,
                    flush_interval_ms: flush_interval_ms as nat,
                    phase: Phase::Collecting,
                    batch: batch@,
                    cycle_start: cycle_start as int,
                };
                let (t, a) = poll(s, now as int);
                r.0 == t.phase && r.1@ == t.batch && r.2@ == a
            }),
            r.2 matches Action::Receive { subsec_nanos, .. } ==> subsec_nanos < NANOS_PER_SEC,
    {
        if batch.len() < flush_at {
            let now_wide = now as u128;
            let left: u128 = if deadline > now_wide {
                deadline - now_wide
            } else {
                0
            };
            assert(left / NANOS_PER_SEC <= u64::MAX) by (nonlinear_arith)
                requires
                    left <= (flush_interval_ms as u128) * NANOS_PER_MILLI,
                    flush_interval_ms <= u64::MAX,
            ;
            let secs = (left / NANOS_PER_SEC) as u64;
            let subsec_nanos = (left % NANOS_PER_SEC) as u32;
            assert(secs * NANOS_PER_SEC + subsec_nanos == left) by (nonlinear_arith)
                requires
                    secs == left / NANOS_PER_SEC,
                    subsec_nanos == left % NANOS_PER_SEC,
            ;
            (Phase::Collecting, batch, Action::Receive { secs, subsec_nanos })
        } else if batch.len() > 0 {
            (Phase::BetweenCycles, Vec::new(), Action::Send(batch))
        } else {
            (Phase::BetweenCycles, Vec::new(), Action::Restart)
        }
    }

    /// Takes the worker one decision further: `signal` is what happened since
    /// the last decision and `now` the time it was observed.
    pub fn step(&mut self, signal: Signal<T>, now: u64) -> (action: Action<T>)
        requires
            accepts(old(self)@, signal),
            signal is CycleStart || old(self)@.cycle_start <= now,
        ensures
            well_formed(final(self)@),
            (final(self)@, action@) == step_spec(old(self)@, signal, now as int),
            action matches Action::Receive { subsec_nanos, .. } ==> subsec_nanos < NANOS_PER_SEC,
            final(self)@.cycle_start == if signal is CycleStart {
                now as int
            } else {
                old(self)@.cycle_start
            },
            final(self)@.phase == Phase::Stopped <==> signal is Disconnected,
    {
        proof {
            use_type_invariant(&*self);
        }
        let mut batch = Vec::new();
        std::mem::swap(&mut batch, &mut self.batch);
        let flush_at = self.flush_at;
        let flush_interval_ms = self.flush_interval_ms;
        let (phase, rest, cycle_start, deadline, action) = match signal {
            Signal::CycleStart => {
                let deadline = (now as u128) + (flush_interval_ms as u128) * NANOS_PER_MILLI;
                let (phase, rest, action) = Self::decide(
                    flush_at,
                    flush_interval_ms,
                    now,
                    deadline,
                    Vec::new(),
                    now,
                );
                (phase, rest, now, deadline, action)
            },
            Signal::Received(event) => {
                batch.push(event);
                let (phase, rest, action) = Self::decide(
                    flush_at,
                    flush_interval_ms,
                    self.cycle_start,
                    self.deadline,
                    batch,
                    now,
                );
                (phase, rest, self.cycle_start, self.deadline, action)
            },
            Signal::TimedOut => {
                let action = if batch.len() > 0 {
                    Action::Send(batch)
                } else {
                    Action::Restart
                };
                (Phase::BetweenCycles, Vec::new(), self.cycle_start, self.deadline, action)
            },
            Signal::Disconnected => {
                let action = if batch.len() > 0 {
                    Action::SendFinal(batch)
                } else {
                    Action::Stop
                };
                (Phase::Stopped, Vec::new(), self.cycle_start, self.deadline, action)
            },
        };
        *self = Batcher { flush_at, flush_interval_ms, phase, batch: rest, cycle_start, deadline };
        action
    }
}

} // verus!
