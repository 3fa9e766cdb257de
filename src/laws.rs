//! Properties of the scheduler that hold for every configuration, every
//! clock reading and every behaviour of the window.
use vstd::prelude::*;
use crate::event::{input_to_event, GameEvent, InputEvent, MouseMoveArgs, MouseRelativeMoveArgs};
use crate::scheduler::{GameIteratorModel, Reply, Request, Step};
use crate::timing::NANOS_PER_SEC;

verus! {

/// The scheduler driven through a sequence of `(reply, clock reading)` calls:
/// the state at the end and the step returned by each call.
pub open spec fn run<K, B, C>(m: GameIteratorModel<C>, calls: Seq<(Reply<K, B, C>, u64)>) -> (
    GameIteratorModel<C>,
    Seq<Step<K, B, C>>,
)
    decreases calls.len(),
{
    if calls.len() == 0 {
        (m, Seq::empty())
    } else {
        let (next, step) = m.advance(calls[0].0, calls[0].1);
        let (last, steps) = run(next, calls.drop_first());
        (last, seq![step] + steps)
    }
}

/// Whether a step emits a logic update.
pub open spec fn is_update<K, B, C>(step: Step<K, B, C>) -> bool {
    step matches Step::Emit(GameEvent::Update(_))
}

/// The number of logic updates among `steps`.
pub open spec fn count_updates<K, B, C>(steps: Seq<Step<K, B, C>>) -> nat
    decreases steps.len(),
{
    if steps.len() == 0 {
        0
    } else {
        (if is_update(steps[0]) { 1nat } else { 0nat }) + count_updates(steps.drop_first())
    }
}

/// Every call keeps the scheduler's invariant and its configuration.
pub proof fn lemma_advance_keeps_invariant<K, B, C>(
    m: GameIteratorModel<C>,
    reply: Reply<K, B, C>,
    now: u64,
)
    requires
        m.wf(),
    ensures
        m.advance(reply, now).0.wf(),
        m.advance(reply, now).0.settings == m.settings,
        m.advance(reply, now).0.update_interval == m.update_interval,
{
}

/// Logical update time moves only when an update is emitted, and then by
/// exactly `1e9 / updates_per_second` nanoseconds, whatever the clock says.
pub proof fn lemma_update_advances_by_one_interval<K, B, C>(
    m: GameIteratorModel<C>,
    reply: Reply<K, B, C>,
    now: u64,
)
    requires
        m.wf(),
    ensures
        is_update(m.advance(reply, now).1) ==> m.advance(reply, now).0.last_update
            == m.last_update + NANOS_PER_SEC / m.settings.updates_per_second,
        !is_update(m.advance(reply, now).1) ==> m.advance(reply, now).0.last_update
            == m.last_update,
{
}

/// Over any run, the logical update time has moved by exactly one update
/// interval per update emitted.
pub proof fn lemma_run_update_time<K, B, C>(
    m: GameIteratorModel<C>,
    calls: Seq<(Reply<K, B, C>, u64)>,
)
    requires
        m.wf(),
    ensures
        run(m, calls).0.wf(),
        run(m, calls).0.last_update == m.last_update + count_updates(run(m, calls).1)
            * m.update_interval,
    decreases calls.len(),
{
    if calls.len() > 0 {
        let (next, step) = m.advance(calls[0].0, calls[0].1);
        lemma_advance_keeps_invariant(m, calls[0].0, calls[0].1);
        lemma_update_advances_by_one_interval(m, calls[0].0, calls[0].1);
        lemma_run_update_time(next, calls.drop_first());
        let steps = run(m, calls).1;
        let rest = run(next, calls.drop_first()).1;
        assert(steps.drop_first() =~= rest);
        assert(steps[0] == step);
        let k = count_updates(rest);
        assert(count_updates(steps) == (if is_update(step) { 1nat } else { 0nat }) + k);
        if is_update(step) {
            assert(count_updates(steps) == k + 1);
            assert((k + 1) * m.update_interval == k * m.update_interval + m.update_interval)
                by (nonlinear_arith);
        } else {
            assert(count_updates(steps) == k);
        }
    } else {
        assert(count_updates(run(m, calls).1) == 0);
    }
}

/// Every update carries the configured rate, so its time step is always
/// `1 / updates_per_second` seconds.
pub proof fn lemma_update_step_is_fixed<K, B, C>(
    m: GameIteratorModel<C>,
    reply: Reply<K, B, C>,
    now: u64,
)
    requires
        m.wf(),
    ensures
        m.advance(reply, now).1 matches Step::Emit(GameEvent::Update(args))
            ==> args.updates_per_second == m.settings.updates_per_second,
{
}

/// A render carries the time from the last update to the start of the
/// render, which is never negative.
pub proof fn lemma_render_extrapolation<K, B, C>(
    m: GameIteratorModel<C>,
    reply: Reply<K, B, C>,
    now: u64,
)
    requires
        m.wf(),
    ensures
        m.advance(reply, now).1 matches Step::Emit(GameEvent::Render(args)) ==> {
            let next = m.advance(reply, now).0;
            &&& m.last_update <= next.last_frame
            &&& next.last_update == m.last_update
            &&& args.ext_dt_ns == next.last_frame - m.last_update
        },
{
}

/// A render is emitted only for a reported size with two nonzero
/// dimensions; a reported size with a zero dimension goes straight on to
/// pacing, without an event.
pub proof fn lemma_no_render_when_hidden<K, B, C>(
    m: GameIteratorModel<C>,
    reply: Reply<K, B, C>,
    now: u64,
)
    requires
        m.wf(),
    ensures
        m.advance(reply, now).1 matches Step::Emit(GameEvent::Render(args)) ==> {
            &&& m.asked == Some(Request::GetSize)
            &&& reply == Reply::<K, B, C>::Size(args.width, args.height)
            &&& args.width != 0
            &&& args.height != 0
        },
        m.asked == Some(Request::GetSize) ==> (reply matches Reply::Size(w, h) && (w == 0 || h
            == 0) ==> m.advance(reply, now) == m.at_clock(now).update_loop::<K, B>()),
{
}

/// Once the window has been reported closed, the stream has ended for good:
/// every later call, whatever it carries, ends it again and changes nothing,
/// so no further event and no further request (such as a buffer swap) comes.
pub proof fn lemma_end_is_permanent<K, B, C>(
    m: GameIteratorModel<C>,
    reply: Reply<K, B, C>,
    now: u64,
    later: Seq<(Reply<K, B, C>, u64)>,
)
    requires
        m.wf(),
        (m.advance(reply, now).1 is End),
    ensures
        m.state is Closed || (m.asked == Some(Request::ShouldClose) && reply
            == Reply::<K, B, C>::CloseStatus(true)),
        run(m.advance(reply, now).0, later).0 == m.advance(reply, now).0,
        forall|i: int|
            0 <= i < later.len() ==> (#[trigger] run(m.advance(reply, now).0, later).1[i] is End),
{
    lemma_closed_run(m.advance(reply, now).0, later);
}

/// A closed scheduler ends every call and stays as it is.
proof fn lemma_closed_run<K, B, C>(m: GameIteratorModel<C>, calls: Seq<(Reply<K, B, C>, u64)>)
    requires
        (m.state is Closed),
    ensures
        run(m, calls).0 == m,
        run(m, calls).1.len() == calls.len(),
        forall|i: int| 0 <= i < calls.len() ==> (#[trigger] run(m, calls).1[i] is End),
    decreases calls.len(),
{
    if calls.len() > 0 {
        lemma_closed_run(m, calls.drop_first());
        let steps = run(m, calls).1;
        let rest = run(m, calls.drop_first()).1;
        assert forall|i: int| 0 <= i < calls.len() implies #[trigger] steps[i] is End by {
            if i > 0 {
                assert(steps[i] == rest[i - 1]);
            }
        }
    }
}

/// An update is emitted only when a poll has found the input queue empty.
pub proof fn lemma_input_drained_before_update<K, B, C>(
    m: GameIteratorModel<C>,
    reply: Reply<K, B, C>,
    now: u64,
)
    requires
        m.wf(),
    ensures
        is_update(m.advance(reply, now).1) ==> {
            &&& m.state is HandleEvents
            &&& m.asked == Some(Request::PollEvent)
            &&& reply == Reply::<K, B, C>::Polled(InputEvent::NoEvent)
        },
{
}

/// Each input that a poll finds is emitted at once as its own event.
pub proof fn lemma_each_input_is_emitted<K, B, C>(
    m: GameIteratorModel<C>,
    input: InputEvent<K, B, C>,
    now: u64,
)
    requires
        m.wf(),
        m.asked == Some(Request::PollEvent),
        !(input is NoEvent),
    ensures
        input_to_event(input) is Some,
        m.advance(Reply::Polled(input), now).1 == Step::<K, B, C>::Emit(
            input_to_event(input)->Some_0,
        ),
{
}

/// A cursor move that carries a relative delta is emitted at once, and the
/// very next call, whatever it carries, emits the relative move; after it
/// the scheduler goes back to draining input.
pub proof fn lemma_relative_move_follows<K, B, C>(
    m: GameIteratorModel<C>,
    x: C,
    y: C,
    dx: C,
    dy: C,
    now: u64,
    reply2: Reply<K, B, C>,
    now2: u64,
)
    requires
        m.wf(),
        m.asked == Some(Request::PollEvent),
    ensures
        ({
            let (next, step) = m.advance(
                Reply::<K, B, C>::Polled(InputEvent::MouseMoved(x, y, Some((dx, dy)))),
                now,
            );
            let (after, step2) = next.advance(reply2, now2);
            &&& step == Step::<K, B, C>::Emit(GameEvent::MouseMove(MouseMoveArgs { x, y }))
            &&& step2 == Step::<K, B, C>::Emit(
                GameEvent::MouseRelativeMove(MouseRelativeMoveArgs { dx, dy }),
            )
            &&& after.state is HandleEvents
        }),
{
}

} // verus!
