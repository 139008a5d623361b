//! Properties of the coordinator that hold across calls and over every state.
use crate::coordinator::{admission, release, HandlerView};
use crate::slot::{slot_addr, Slot};
use crate::startup::{startup_step, StartupPhase};
use crate::steps::{ActionKind, Event};
use crate::update::{update_step, Phase, SequenceState};
use vstd::prelude::*;

verus! {

/// Every step of an update keeps the active slot backed by a process; no more
/// than two slots ever hold one.
pub proof fn lemma_update_keeps_active_served(q: SequenceState, h: HandlerView, e: Event)
    requires
        q.wf(),
        h.serving(),
    ensures
        update_step(q, h, e).1.serving(),
        update_step(q, h, e).1.running_count() <= 2,
{
    let h2 = update_step(q, h, e).1;
    assert forall|s: Slot| h2.active == Some(s) implies #[trigger] h2.running(s) by {
        assert(h.active == Some(s) ==> h.running(s));
    }
}

/// `executing` callers are between admission and release: at most one, and
/// exactly one while an update is marked as running.
pub open spec fn single_flight(h: HandlerView, executing: nat) -> bool {
    executing == (if h.updating { 1nat } else { 0nat })
}

/// A fresh coordinator runs no update and has nobody executing one, so the two
/// lemmas below, applied at each entry and exit, keep at most one caller
/// executing in every state reached from it.
pub proof fn lemma_single_flight_initially(h: HandlerView)
    requires
        !h.updating,
    ensures
        single_flight(h, 0),
{
}

/// Entering the update path keeps at most one update executing, and marks it.
pub proof fn lemma_admission_single_flight(before: HandlerView, after: HandlerView, admitted: bool, executing: nat)
    requires
        single_flight(before, executing),
        admission(before, after, admitted),
    ensures
        single_flight(after, executing + (if admitted { 1nat } else { 0nat })),
        executing + (if admitted { 1nat } else { 0nat }) <= 1,
        after.updating,
{
}

/// The executing caller leaving the update path hands its turn to at most one
/// parked caller; with none left, no update is marked as running.
pub proof fn lemma_release_single_flight(before: HandlerView, after: HandlerView, handed_over: bool, executing: nat)
    requires
        single_flight(before, executing),
        executing >= 1,
        release(before, after, handed_over),
    ensures
        single_flight(after, (executing - 1 + (if handed_over { 1int } else { 0int })) as nat),
        executing - 1 + (if handed_over { 1int } else { 0int }) <= 1,
{
}

/// Parked callers leave the queue in the order they joined it: a new caller is
/// placed behind every parked one, and a wake-up removes callers from the front
/// only, so every caller still parked arrived after every caller that left.
pub proof fn lemma_waiters_fifo<T>(before: Seq<T>, joined: Seq<T>, after: Seq<T>, k: int)
    requires
        joined.drop_last() == before,
        joined.len() == before.len() + 1,
        0 <= k <= joined.len(),
        after == joined.skip(k),
    ensures
        forall|i: int| 0 <= i < before.len() ==> #[trigger] joined[i] == before[i],
        forall|i: int| 0 <= i < after.len() ==> #[trigger] after[i] == joined[i + k],
        after.len() > 0 ==> after.last() == joined.last(),
{
    assert forall|i: int| 0 <= i < before.len() implies #[trigger] joined[i] == before[i] by {
        assert(joined.drop_last()[i] == joined[i]);
    }
}

/// The proxy is pointed only at slot addresses, only at the slot being brought
/// up, and only after that slot passed its probe.
pub proof fn lemma_publish_only_after_probe(q: SequenceState, h: HandlerView, e: Event)
    requires
        q.wf(),
    ensures
        update_step(q, h, e).0.wf(),
        update_step(q, h, e).2 matches ActionKind::Publish(s) ==> s == q.new && q.healthy
            && update_step(q, h, e).0.healthy,
        update_step(q, h, e).1.world != h.world ==> update_step(q, h, e).1.world == q.new
            && q.phase == Phase::Flip && e == Event::Published(true) && q.healthy,
        slot_addr(update_step(q, h, e).1.world) == slot_addr(Slot::One)
            || slot_addr(update_step(q, h, e).1.world) == slot_addr(Slot::Two),
{
}

/// A slot is stopped only when the proxy does not point at it and it is not the
/// active slot, as they stand once the step is taken (a flip comes before the
/// stop of the old slot); startup stops nothing.
pub proof fn lemma_never_stop_world_target(q: SequenceState, p: StartupPhase, h: HandlerView, e: Event)
    ensures
        update_step(q, h, e).2 matches ActionKind::Kill(s) ==> s != update_step(q, h, e).1.world
            && update_step(q, h, e).1.active != Some(s) && h.running(s) && !update_step(q, h, e).1.running(s),
        !(startup_step(p, h, e).2 is Kill),
{
}

/// A slot that holds a process is never started again: neither sequence asks
/// for a start there, and an update that finds its new slot taken ends in failure
/// with nothing changed.
pub proof fn lemma_no_double_start(q: SequenceState, p: StartupPhase, h: HandlerView, e: Event)
    ensures
        update_step(q, h, e).2 matches ActionKind::Spawn(s) ==> !h.running(s),
        startup_step(p, h, e).2 matches ActionKind::Spawn(s) ==> !h.running(s),
        q.phase == Phase::Stage && e == Event::Exited(true) && h.running(q.new) ==> update_step(q, h, e).2
            == ActionKind::Done(false) && update_step(q, h, e).1 == h,
        q.phase == Phase::Attach && h.running(q.new) ==> update_step(q, h, e).1 == h && (update_step(q, h, e).2
            == ActionKind::Discard || update_step(q, h, e).2 == ActionKind::Done(false)),
        p == StartupPhase::Attach && h.running(Slot::One) ==> startup_step(p, h, e).1 == h,
{
}

/// A probe that finds the new slot healthy commits it as active with the old
/// slot still active and the new one running, probes no more, stops nothing,
/// and after the settling pause the proxy is pointed at the new slot.
pub proof fn lemma_healthy_probe_commits_then_flips(q: SequenceState, h: HandlerView, n: u32, e2: Event)
    requires
        q.wf(),
        q.phase == Phase::Probe(n),
        h.active == Some(q.old),
        h.running(q.new),
    ensures
        ({
            let (q1, h1, a1) = update_step(q, h, Event::Health(true));
            &&& a1 == ActionKind::Sleep(crate::update::SETTLE_SECS)
            &&& h1 == (HandlerView { active: Some(q.new), ..h })
            &&& q1.phase == Phase::Settle
            &&& q1.healthy
            &&& update_step(q1, h1, e2).2 == ActionKind::Publish(q.new)
            &&& update_step(q1, h1, e2).1 == h1
        }),
{
}

/// A probe that finds the new slot unhealthy is repeated after a pause while
/// attempts remain; the last failed attempt gives the new slot up, and the
/// active slot and the proxy stay as they were.
pub proof fn lemma_unhealthy_probe_retries_or_gives_up(q: SequenceState, h: HandlerView, n: u32)
    requires
        q.wf(),
        q.phase == Phase::Probe(n),
        h.active == Some(q.old),
        h.world == q.old,
    ensures
        n < crate::update::PROBE_ATTEMPTS ==> update_step(q, h, Event::Health(false)).2 == ActionKind::Sleep(
            crate::update::PROBE_INTERVAL_SECS),
        n < crate::update::PROBE_ATTEMPTS ==> update_step(q, h, Event::Health(false)).0.phase == Phase::ProbeWait(n),
        n == crate::update::PROBE_ATTEMPTS ==> update_step(q, h, Event::Health(false)).0.phase is Discard
            || update_step(q, h, Event::Health(false)).0.phase is DiscardCleanup,
        update_step(q, h, Event::Health(false)).1.active == Some(q.old),
        update_step(q, h, Event::Health(false)).1.world == q.old,
{
}

/// The update sequence fed with a list of outcomes, one per step; the action is
/// the one that answers the last outcome.
pub open spec fn run_update(q: SequenceState, h: HandlerView, evs: Seq<Event>) -> (SequenceState, HandlerView, ActionKind)
    decreases evs.len(),
{
    if evs.len() == 0 {
        (q, h, ActionKind::Done(false))
    } else if evs.len() == 1 {
        update_step(q, h, evs[0])
    } else {
        let (q1, h1, _a) = update_step(q, h, evs[0]);
        run_update(q1, h1, evs.drop_first())
    }
}

/// The outcomes of an update in which every script, start, probe and flip succeeds.
pub open spec fn all_succeed() -> Seq<Event> {
    seq![
        Event::Begin,
        Event::Exited(true),
        Event::Exited(true),
        Event::Exited(true),
        Event::Spawned,
        Event::Health(true),
        Event::Slept,
        Event::Published(true),
        Event::Stopped,
        Event::Exited(true),
    ]
}

/// A fresh sequence that replaces slot `s`.
pub open spec fn fresh_sequence(s: Slot) -> SequenceState {
    SequenceState { old: s, new: s.spec_other(), phase: Phase::Ready, healthy: false }
}

/// The steady state with slot `s` serving: active, alone in holding a process,
/// and the proxy's world backend.
pub open spec fn steady(h: HandlerView, s: Slot) -> bool {
    &&& h.active == Some(s)
    &&& h.world == s
    &&& h.running(s)
    &&& !h.running(s.spec_other())
}

/// An update in which every outside step succeeds reports success and leaves the
/// other slot in the steady state; the update flag is left to the exit path.
pub proof fn lemma_successful_update_flips(s: Slot, h: HandlerView)
    requires
        steady(h, s),
    ensures
        run_update(fresh_sequence(s), h, all_succeed()).2 == ActionKind::Done(true),
        steady(run_update(fresh_sequence(s), h, all_succeed()).1, s.spec_other()),
        run_update(fresh_sequence(s), h, all_succeed()).1.updating == h.updating,
{
    reveal_with_fuel(run_update, 11);
    let evs = all_succeed();
    assert(evs.len() == 10);
    assert(evs.drop_first() =~= evs.subrange(1, 10));
    assert(evs.subrange(1, 10).drop_first() =~= evs.subrange(2, 10));
    assert(evs.subrange(2, 10).drop_first() =~= evs.subrange(3, 10));
    assert(evs.subrange(3, 10).drop_first() =~= evs.subrange(4, 10));
    assert(evs.subrange(4, 10).drop_first() =~= evs.subrange(5, 10));
    assert(evs.subrange(5, 10).drop_first() =~= evs.subrange(6, 10));
    assert(evs.subrange(6, 10).drop_first() =~= evs.subrange(7, 10));
    assert(evs.subrange(7, 10).drop_first() =~= evs.subrange(8, 10));
    assert(evs.subrange(8, 10).drop_first() =~= evs.subrange(9, 10));
}

/// Two successful updates in a row bring the first slot back into the steady
/// state, through the other one.
pub proof fn lemma_two_updates_round_trip(s: Slot, h: HandlerView)
    requires
        steady(h, s),
    ensures
        ({
            let h1 = run_update(fresh_sequence(s), h, all_succeed()).1;
            let h2 = run_update(fresh_sequence(s.spec_other()), h1, all_succeed()).1;
            &&& steady(h1, s.spec_other())
            &&& steady(h2, s)
            &&& run_update(fresh_sequence(s.spec_other()), h1, all_succeed()).2 == ActionKind::Done(true)
        }),
{
    lemma_successful_update_flips(s, h);
    let h1 = run_update(fresh_sequence(s), h, all_succeed()).1;
    lemma_successful_update_flips(s.spec_other(), h1);
    assert(s.spec_other().spec_other() == s);
}

} // verus!
