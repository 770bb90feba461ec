use vstd::prelude::*;

verus! {

/// The phase a run stands in before its `k`-th event: the start for the
/// first event, else the phase the previous event led to.
pub open spec fn phase_before<P>(start: P, trace: Seq<P>, k: int) -> P {
    if k == 0 {
        start
    } else {
        trace[k - 1]
    }
}

/// The phases a state machine with transition `next` passes through when
/// the events `events` arrive one after the other from `start`: entry `k`
/// is the phase after the `k`-th event.
#[verifier::opaque]
pub open spec fn run<P, E>(next: spec_fn(P, E) -> P, start: P, events: Seq<E>) -> Seq<P>
    decreases events.len(),
{
    if events.len() == 0 {
        Seq::empty()
    } else {
        let earlier = run(next, start, events.drop_last());
        earlier.push(next(phase_before(start, earlier, earlier.len() as int), events.last()))
    }
}

/// A run has one phase per event, each reached by one transition from the
/// phase before it.
pub proof fn run_steps<P, E>(next: spec_fn(P, E) -> P, start: P, events: Seq<E>)
    ensures
        run(next, start, events).len() == events.len(),
        forall|k: int|
            0 <= k < events.len() ==> #[trigger] run(next, start, events)[k] == next(
                phase_before(start, run(next, start, events), k),
                events[k],
            ),
    decreases events.len(),
{
    reveal(run);
    if events.len() > 0 {
        let earlier_events = events.drop_last();
        run_steps(next, start, earlier_events);
        let earlier = run(next, start, earlier_events);
        let t = run(next, start, events);
        assert forall|k: int| 0 <= k < events.len() implies #[trigger] t[k] == next(
            phase_before(start, t, k),
            events[k],
        ) by {
            if k < events.len() - 1 {
                assert(t[k] == earlier[k]);
                assert(earlier_events[k] == events[k]);
                if k > 0 {
                    assert(t[k - 1] == earlier[k - 1]);
                }
            }
        }
    }
}

/// The `k`-th entry of a run, one transition from the phase before it.
pub proof fn run_step<P, E>(next: spec_fn(P, E) -> P, start: P, events: Seq<E>, k: int)
    requires
        0 <= k < events.len(),
    ensures
        run(next, start, events).len() == events.len(),
        run(next, start, events)[k] == next(phase_before(start, run(next, start, events), k), events[k]),
{
    run_steps(next, start, events);
}

} // verus!
