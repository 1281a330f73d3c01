use vstd::prelude::*;
use crate::batching::{
    accepts, deadline, step_spec, time_left, well_formed, ActionView, BatcherView, Phase, Signal,
    NANOS_PER_MILLI,
};

verus! {

/// The events that an action hands out for sending.
pub open spec fn handed_out<T>(a: ActionView<T>) -> Seq<T> {
    match a {
        ActionView::Send(batch) => batch,
        ActionView::SendFinal(batch) => batch,
        _ => Seq::empty(),
    }
}

/// The events that a signal brings in.
pub open spec fn arrival<T>(signal: Signal<T>) -> Seq<T> {
    match signal {
        Signal::Received(event) => seq![event],
        _ => Seq::empty(),
    }
}

/// The states and actions of the worker along `trace`, a sequence of signals
/// each with the time it was observed, starting from `s`.
pub open spec fn run<T>(s: BatcherView<T>, trace: Seq<(Signal<T>, int)>) -> (
    BatcherView<T>,
    Seq<ActionView<T>>,
)
    decreases trace.len(),
{
    if trace.len() == 0 {
        (s, Seq::empty())
    } else {
        let (mid, actions) = run(s, trace.drop_last());
        let (next, action) = step_spec(mid, trace.last().0, trace.last().1);
        (next, actions.push(action))
    }
}

/// Every signal of `trace` comes in a phase that accepts it.
pub open spec fn valid_trace<T>(s: BatcherView<T>, trace: Seq<(Signal<T>, int)>) -> bool
    decreases trace.len(),
{
    trace.len() == 0 || (valid_trace(s, trace.drop_last()) && accepts(
        run(s, trace.drop_last()).0,
        trace.last().0,
    ))
}

/// Everything that `actions` hand out, in order.
pub open spec fn all_handed_out<T>(actions: Seq<ActionView<T>>) -> Seq<T>
    decreases actions.len(),
{
    if actions.len() == 0 {
        Seq::empty()
    } else {
        all_handed_out(actions.drop_last()) + handed_out(actions.last())
    }
}

/// Every event that `trace` brings in, in order.
pub open spec fn all_arrivals<T>(trace: Seq<(Signal<T>, int)>) -> Seq<T>
    decreases trace.len(),
{
    if trace.len() == 0 {
        Seq::empty()
    } else {
        all_arrivals(trace.drop_last()) + arrival(trace.last().0)
    }
}

/// One decision loses no event, hands out none twice and keeps their order:
/// what it hands out followed by the new batch is the old batch followed by
/// what arrived; and it keeps the state well formed.
pub proof fn lemma_step_conserves_events<T>(s: BatcherView<T>, signal: Signal<T>, now: int)
    requires
        well_formed(s),
        accepts(s, signal),
    ensures
        well_formed(step_spec(s, signal, now).0),
        handed_out(step_spec(s, signal, now).1) + step_spec(s, signal, now).0.batch == s.batch
            + arrival(signal),
        step_spec(s, signal, now).0.flush_at == s.flush_at,
        step_spec(s, signal, now).0.flush_interval_ms == s.flush_interval_ms,
{
    let (t, a) = step_spec(s, signal, now);
    assert(handed_out(a) + t.batch =~= s.batch + arrival(signal));
}

/// A batch that is handed out holds at least one event and at most `flush_at`.
pub proof fn lemma_batches_are_bounded<T>(s: BatcherView<T>, signal: Signal<T>, now: int)
    requires
        well_formed(s),
        accepts(s, signal),
    ensures
        handed_out(step_spec(s, signal, now).1).len() <= s.flush_at,
        step_spec(s, signal, now).1 is Send || step_spec(s, signal, now).1 is SendFinal
            ==> handed_out(step_spec(s, signal, now).1).len() > 0,
{
}

/// A batch goes out as soon as it is full: an arriving event is followed by a
/// send exactly when it brings the batch to `flush_at`, and then the batch sent
/// is the old one with the event at its end; otherwise the worker waits again.
pub proof fn lemma_full_batch_is_sent<T>(s: BatcherView<T>, event: T, now: int)
    requires
        well_formed(s),
        s.phase == Phase::Collecting,
    ensures
        (step_spec(s, Signal::Received(event), now).1 is Send) <==> s.batch.len() + 1
            == s.flush_at,
        step_spec(s, Signal::Received(event), now).1 is Send ==> handed_out(
            step_spec(s, Signal::Received(event), now).1,
        ) == s.batch.push(event),
        !(step_spec(s, Signal::Received(event), now).1 is Send) ==> (step_spec(
            s,
            Signal::Received(event),
            now,
        ).1 is Receive && step_spec(s, Signal::Received(event), now).0.batch == s.batch.push(
            event,
        )),
{
}

/// A batch short of `flush_at` is handed out only when the wait ran out or the
/// queue was disconnected.
pub proof fn lemma_short_batch_needs_timeout_or_disconnect<T>(
    s: BatcherView<T>,
    signal: Signal<T>,
    now: int,
)
    requires
        well_formed(s),
        accepts(s, signal),
        handed_out(step_spec(s, signal, now).1).len() > 0,
        handed_out(step_spec(s, signal, now).1).len() < s.flush_at,
    ensures
        signal is TimedOut || signal is Disconnected,
{
}

/// When the wait runs out, the cycle ends: everything collected so far is
/// handed out, if anything, and the worker waits for the next cycle.
pub proof fn lemma_timeout_sends_what_was_collected<T>(s: BatcherView<T>, now: int)
    requires
        well_formed(s),
        s.phase == Phase::Collecting,
    ensures
        handed_out(step_spec(s, Signal::TimedOut, now).1) == s.batch,
        step_spec(s, Signal::TimedOut, now).1 is Send <==> s.batch.len() > 0,
        step_spec(s, Signal::TimedOut, now).1 is Restart <==> s.batch.len() == 0,
        step_spec(s, Signal::TimedOut, now).0.phase == Phase::BetweenCycles,
        step_spec(s, Signal::TimedOut, now).0.batch.len() == 0,
{
}

/// A disconnect hands out everything collected, if anything, and stops the
/// worker for good: no signal is accepted afterwards.
pub proof fn lemma_disconnect_flushes_everything<T>(s: BatcherView<T>, now: int)
    requires
        well_formed(s),
        s.phase == Phase::Collecting,
    ensures
        handed_out(step_spec(s, Signal::Disconnected, now).1) == s.batch,
        step_spec(s, Signal::Disconnected, now).1 is Stop <==> s.batch.len() == 0,
        step_spec(s, Signal::Disconnected, now).1 is SendFinal <==> s.batch.len() > 0,
        step_spec(s, Signal::Disconnected, now).0.phase == Phase::Stopped,
        step_spec(s, Signal::Disconnected, now).0.batch.len() == 0,
        forall|next: Signal<T>| !accepts(step_spec(s, Signal::Disconnected, now).0, next),
{
}

/// A wait never reaches past the end of the cycle: it lasts exactly what is
/// left of the cycle, at most the flush interval, and the whole interval when
/// the cycle has just begun.
pub proof fn lemma_wait_is_bounded<T>(s: BatcherView<T>, signal: Signal<T>, now: int)
    requires
        well_formed(s),
        accepts(s, signal),
        signal is CycleStart || s.cycle_start <= now,
    ensures
        step_spec(s, signal, now).1 matches ActionView::Receive(t) ==> {
            &&& t == time_left(deadline(step_spec(s, signal, now).0), now)
            &&& 0 <= t <= s.flush_interval_ms * NANOS_PER_MILLI
            &&& signal is CycleStart ==> t == s.flush_interval_ms * NANOS_PER_MILLI
        },
{
}

/// The deadline is fixed once per cycle: only the start of a cycle moves the
/// cycle's start, to the time it is observed; every other signal keeps it.
/// So the wait after an arriving event is what is left of the flush interval
/// counted from when the cycle began, not from any other time.
pub proof fn lemma_deadline_fixed_per_cycle<T>(s: BatcherView<T>, signal: Signal<T>, now: int)
    requires
        well_formed(s),
        accepts(s, signal),
    ensures
        signal is CycleStart ==> step_spec(s, signal, now).0.cycle_start == now,
        !(signal is CycleStart) ==> step_spec(s, signal, now).0.cycle_start == s.cycle_start,
        signal is Received ==> (step_spec(s, signal, now).1 matches ActionView::Receive(t) ==> t
            == time_left(s.cycle_start + s.flush_interval_ms * NANOS_PER_MILLI, now)),
        signal is Received && s.cycle_start <= now && now < s.cycle_start + s.flush_interval_ms
            * NANOS_PER_MILLI ==> (step_spec(s, signal, now).1 matches ActionView::Receive(t)
            ==> t == s.cycle_start + s.flush_interval_ms * NANOS_PER_MILLI - now && t > 0),
{
}

/// What the worker does next decides where it stands: after a wait it is
/// collecting; after a batch is sent, or a cycle ends with nothing to send,
/// it is between cycles and takes the start of the next one; it stops only
/// when the queue was disconnected, and then for good.
pub proof fn lemma_phase_follows_action<T>(s: BatcherView<T>, signal: Signal<T>, now: int)
    requires
        well_formed(s),
        accepts(s, signal),
    ensures
        step_spec(s, signal, now).1 is Receive ==> step_spec(s, signal, now).0.phase
            == Phase::Collecting,
        step_spec(s, signal, now).1 is Send || step_spec(s, signal, now).1 is Restart ==> {
            &&& step_spec(s, signal, now).0.phase == Phase::BetweenCycles
            &&& accepts(step_spec(s, signal, now).0, Signal::<T>::CycleStart)
        },
        step_spec(s, signal, now).1 is SendFinal || step_spec(s, signal, now).1 is Stop
            <==> signal is Disconnected,
        step_spec(s, signal, now).0.phase == Phase::Stopped <==> signal is Disconnected,
{
}

/// Along any trace of accepted signals, the worker hands out every event that
/// arrived exactly once and in arrival order, except those still in the
/// current batch; and every batch it hands out holds at most `flush_at` events.
pub proof fn lemma_run_delivers_each_event_once_in_order<T>(
    s: BatcherView<T>,
    trace: Seq<(Signal<T>, int)>,
)
    requires
        well_formed(s),
        valid_trace(s, trace),
    ensures
        well_formed(run(s, trace).0),
        run(s, trace).0.flush_at == s.flush_at,
        all_handed_out(run(s, trace).1) + run(s, trace).0.batch == s.batch + all_arrivals(trace),
        forall|i: int|
            0 <= i < run(s, trace).1.len() ==> #[trigger] handed_out(run(s, trace).1[i]).len()
                <= s.flush_at,
    decreases trace.len(),
{
    if trace.len() > 0 {
        let prefix = trace.drop_last();
        lemma_run_delivers_each_event_once_in_order(s, prefix);
        let (mid, actions) = run(s, prefix);
        let (signal, now) = trace.last();
        lemma_step_conserves_events(mid, signal, now);
        lemma_batches_are_bounded(mid, signal, now);
        let (next, action) = step_spec(mid, signal, now);
        assert(run(s, trace) == (next, actions.push(action)));
        assert(actions.push(action).drop_last() =~= actions);
        assert(all_handed_out(actions.push(action)) == all_handed_out(actions) + handed_out(
            action,
        ));
        assert(all_arrivals(trace) == all_arrivals(prefix) + arrival(signal));
        let h = all_handed_out(actions);
        assert(handed_out(action) + next.batch == mid.batch + arrival(signal));
        assert((h + handed_out(action)) + next.batch =~= h + (handed_out(action) + next.batch));
        assert(h + (mid.batch + arrival(signal)) =~= (h + mid.batch) + arrival(signal));
        assert((s.batch + all_arrivals(prefix)) + arrival(signal) =~= s.batch + (all_arrivals(
            prefix,
        ) + arrival(signal)));
        assert forall|i: int| 0 <= i < actions.push(action).len() implies #[trigger] handed_out(
            actions.push(action)[i],
        ).len() <= s.flush_at by {
            if i < actions.len() {
                assert(actions.push(action)[i] == actions[i]);
            }
        }
    }
}

/// When the queue is disconnected, every event that ever arrived has been
/// handed out, once each and in order.
pub proof fn lemma_shutdown_delivers_everything<T>(
    s: BatcherView<T>,
    trace: Seq<(Signal<T>, int)>,
)
    requires
        well_formed(s),
        s.batch.len() == 0,
        valid_trace(s, trace),
        trace.len() > 0,
        trace.last().0 is Disconnected,
    ensures
        all_handed_out(run(s, trace).1) == all_arrivals(trace),
{
    lemma_run_delivers_each_event_once_in_order(s, trace);
    assert(run(s, trace).0.batch.len() == 0);
    assert(s.batch =~= Seq::<T>::empty());
    assert(all_handed_out(run(s, trace).1) =~= all_handed_out(run(s, trace).1) + run(
        s,
        trace,
    ).0.batch);
}

} // verus!
