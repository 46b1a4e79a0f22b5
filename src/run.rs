use vstd::prelude::*;

use crate::coordinator::{spec_accepts, spec_step, Action, Event, Phase};
use crate::probe::LivenessResult;

verus! {

/// The phase reached and the actions called for, one per event, when
/// `events` are fed in order to a launcher in `phase`.
pub open spec fn run(phase: Phase, events: Seq<Event>) -> (Phase, Seq<Action>)
    decreases events.len(),
{
    if events.len() == 0 {
        (phase, Seq::empty())
    } else {
        let (p, acts) = run(phase, events.drop_last());
        let (q, a) = spec_step(p, events.last());
        (q, acts.push(a))
    }
}

/// Each event of `events` comes when the launcher, started in `phase`,
/// expects it.
pub open spec fn in_turn(phase: Phase, events: Seq<Event>) -> bool
    decreases events.len(),
{
    if events.len() == 0 {
        true
    } else {
        in_turn(phase, events.drop_last()) && spec_accepts(
            run(phase, events.drop_last()).0,
            events.last(),
        )
    }
}

/// How many times `a` occurs in `acts`.
pub open spec fn count(acts: Seq<Action>, a: Action) -> nat
    decreases acts.len(),
{
    if acts.len() == 0 {
        0
    } else {
        count(acts.drop_last(), a) + if acts.last() == a {
            1nat
        } else {
            0nat
        }
    }
}

/// Some event before position `j` reports a successful initialisation.
pub open spec fn acquired_before(events: Seq<Event>, j: int) -> bool {
    exists|i: int| 0 <= i < j && #[trigger] events[i] == Event::Acquired(0)
}

/// What holds after any run from the start, by the phase reached.
spec fn run_inv(events: Seq<Event>) -> bool {
    let (p, acts) = run(Phase::Start, events);
    let acq = count(acts, Action::Acquire);
    let rel = count(acts, Action::Release);
    &&& acts.len() == events.len()
    &&& acq <= 1
    &&& rel <= acq
    &&& (rel == 1 ==> acquired_before(events, events.len() as int))
    &&& match p {
        Phase::Start | Phase::Probing | Phase::Reclaiming | Phase::Binding => acq == 0,
        Phase::Acquiring => acq == 1 && rel == 0,
        Phase::Serving => acq == 1 && rel == 0 && acquired_before(events, events.len() as int),
        Phase::Releasing => rel == 1,
        Phase::Done => true,
    }
}

proof fn lemma_run_inv(events: Seq<Event>)
    requires
        in_turn(Phase::Start, events),
    ensures
        run_inv(events),
        forall|j: int|
            0 <= j < events.len() ==> (#[trigger] run(Phase::Start, events).1[j] == Action::Release
                ==> acquired_before(events, j)),
        forall|j: int|
            0 <= j < events.len() ==> (#[trigger] run(Phase::Start, events).1[j] == Action::Serve
                <==> events[j] == Event::Acquired(0)),
        forall|j: int|
            0 <= j < events.len() ==> (#[trigger] run(Phase::Start, events).1[j] == Action::Acquire
                ==> events[j] == Event::Bound(true)),
        forall|j: int|
            0 <= j < events.len() ==> (#[trigger] run(Phase::Start, events).1[j] == Action::Bind
                ==> events[j] == Event::Probed(LivenessResult::NoArtifact) || events[j]
                == Event::Reclaimed(true)),
        forall|j: int|
            0 <= j < events.len() ==> (#[trigger] run(Phase::Start, events).1[j] == Action::Reclaim
                <==> events[j] == Event::Probed(LivenessResult::ArtifactButUnresponsive)),
    decreases events.len(),
{
    if events.len() > 0 {
        let pre = events.drop_last();
        lemma_run_inv(pre);
        let (p, acts) = run(Phase::Start, pre);
        let e = events.last();
        let (q, a) = spec_step(p, e);
        assert(run(Phase::Start, events).1 == acts.push(a));
        assert(acts.push(a).drop_last() =~= acts);
        assert forall|i: int| 0 <= i < pre.len() implies pre[i] == events[i] by {};
        if acquired_before(pre, pre.len() as int) {
            let i = choose|i: int| 0 <= i < pre.len() && #[trigger] pre[i] == Event::Acquired(0);
            assert(events[i] == Event::Acquired(0));
        }
        if e == Event::Acquired(0) {
            assert(events[pre.len() as int] == Event::Acquired(0));
        }
        assert forall|j: int|
            0 <= j < events.len() && #[trigger] run(Phase::Start, events).1[j]
                == Action::Release implies acquired_before(events, j) by {
            if j < pre.len() {
                let i = choose|i: int| 0 <= i < j && #[trigger] pre[i] == Event::Acquired(0);
                assert(events[i] == Event::Acquired(0));
            }
        };
    }
}

/// Over any run from the start in which every event comes in turn, the
/// native runtime is initialised at most once and destroyed at most once;
/// it is destroyed only after an initialisation has succeeded; it is
/// initialised only right after the socket was bound; and serving begins
/// exactly on a successful initialisation, so never after a failed one.
pub proof fn lemma_runtime_used_once(events: Seq<Event>)
    requires
        in_turn(Phase::Start, events),
    ensures
        count(run(Phase::Start, events).1, Action::Acquire) <= 1,
        count(run(Phase::Start, events).1, Action::Release) <= 1,
        run(Phase::Start, events).1.len() == events.len(),
        forall|j: int|
            0 <= j < events.len() ==> (#[trigger] run(Phase::Start, events).1[j] == Action::Release
                ==> acquired_before(events, j)),
        forall|j: int|
            0 <= j < events.len() ==> (#[trigger] run(Phase::Start, events).1[j] == Action::Acquire
                ==> events[j] == Event::Bound(true)),
        forall|j: int|
            0 <= j < events.len() ==> (#[trigger] run(Phase::Start, events).1[j] == Action::Serve
                <==> events[j] == Event::Acquired(0)),
{
    lemma_run_inv(events);
}

/// The socket is bound only when it is free: right after the probe found no
/// socket file, or right after a stale one was removed. A stale file is
/// removed exactly when the probe found a file that nobody answers on, so a
/// live server's socket is never taken over.
pub proof fn lemma_bind_only_when_free(events: Seq<Event>)
    requires
        in_turn(Phase::Start, events),
    ensures
        forall|j: int|
            0 <= j < events.len() ==> (#[trigger] run(Phase::Start, events).1[j] == Action::Bind
                ==> events[j] == Event::Probed(LivenessResult::NoArtifact) || events[j]
                == Event::Reclaimed(true)),
        forall|j: int|
            0 <= j < events.len() ==> (#[trigger] run(Phase::Start, events).1[j] == Action::Reclaim
                <==> events[j] == Event::Probed(LivenessResult::ArtifactButUnresponsive)),
{
    lemma_run_inv(events);
}

} // verus!
