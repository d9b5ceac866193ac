//! Whole runs of the resolution machine, and what holds of every run.

use vstd::prelude::*;
use crate::resolver::{ActionView, ErrorKind, Event, ResolverView, Stage, at, found, initial, is_write, next};

verus! {

/// The machine after it has taken the first `i` events.
pub open spec fn state_after(m: ResolverView, events: Seq<Event>, i: nat) -> ResolverView
    decreases i,
{
    if i == 0 {
        m
    } else {
        next(state_after(m, events, (i - 1) as nat), events[i - 1]).0
    }
}

/// The actions that the machine returns for each event in turn.
pub open spec fn run(m: ResolverView, events: Seq<Event>) -> Seq<ActionView> {
    Seq::new(events.len(), |i: int| next(state_after(m, events, i as nat), events[i]).1)
}

/// Only the stage changes along a run.
proof fn lemma_paths_kept(m: ResolverView, events: Seq<Event>, i: nat)
    requires
        i <= events.len(),
    ensures
        state_after(m, events, i) == at(m, state_after(m, events, i).stage),
    decreases i,
{
    if i > 0 {
        lemma_paths_kept(m, events, (i - 1) as nat);
    }
}

/// A finished machine stays finished.
proof fn lemma_finished_stays(m: ResolverView, events: Seq<Event>, i: nat, j: nat)
    requires
        i <= j <= events.len(),
        state_after(m, events, i).stage == Stage::Finished,
    ensures
        state_after(m, events, j).stage == Stage::Finished,
    decreases j - i,
{
    if j > i {
        lemma_finished_stays(m, events, i, (j - 1) as nat);
    }
}

/// Once the machine has finished, every later action is idle.
proof fn lemma_idle_after_finish(m: ResolverView, events: Seq<Event>, i: nat)
    requires
        i < events.len(),
        state_after(m, events, (i + 1) as nat).stage == Stage::Finished,
    ensures
        forall|j: int| i < j < events.len() ==> #[trigger] run(m, events)[j] == ActionView::Idle,
{
    assert forall|j: int| i < j < events.len() implies #[trigger] run(m, events)[j]
        == ActionView::Idle by {
        lemma_finished_stays(m, events, (i + 1) as nat, j as nat);
    }
}

/// When the install next to the launcher exists it is the root, and nothing
/// else is touched: the cache is never looked at.
pub proof fn lemma_adjacent_install_wins(m: ResolverView, events: Seq<Event>)
    requires
        initial(m),
        events.len() > 0,
        found(events[0]),
    ensures
        run(m, events)[0] == ActionView::Finish(Ok(m.adjacent)),
        forall|i: int| 0 < i < events.len() ==> #[trigger] run(m, events)[i] == ActionView::Idle,
{
    assert(state_after(m, events, 1).stage == Stage::Finished);
    lemma_idle_after_finish(m, events, 0);
}

/// Without an adjacent install and without a payload, resolution fails with
/// the missing runtime error naming the adjacent path, and writes nothing.
pub proof fn lemma_missing_runtime(m: ResolverView, events: Seq<Event>)
    requires
        initial(m),
        !m.has_payload,
        events.len() > 0,
        !found(events[0]),
    ensures
        run(m, events)[0] == ActionView::Finish(Err((ErrorKind::MissingRuntime, m.adjacent))),
        forall|i: int| 0 < i < events.len() ==> #[trigger] run(m, events)[i] == ActionView::Idle,
        forall|i: int| 0 <= i < events.len() ==> !is_write(#[trigger] run(m, events)[i]),
{
    assert(state_after(m, events, 1).stage == Stage::Finished);
    lemma_idle_after_finish(m, events, 0);
}

/// A cold start extracts the payload and writes the marker; a later start
/// with the same payload finds the marker, writes nothing, and reaches the
/// same root.
pub proof fn lemma_cold_then_warm(m: ResolverView)
    requires
        initial(m),
        m.has_payload,
    ensures
        run(
            m,
            seq![
                Event::Exists(false),
                Event::Exists(false),
                Event::Exists(false),
                Event::Succeeded,
                Event::Succeeded,
                Event::Succeeded,
                Event::Exists(true),
            ],
        ) == seq![
            ActionView::Probe(m.marker),
            ActionView::Probe(m.target),
            ActionView::CreateDir(m.target),
            ActionView::Extract(m.target),
            ActionView::WriteMarker(m.marker),
            ActionView::Probe(m.inner),
            ActionView::Finish(Ok(m.inner)),
        ],
        run(m, seq![Event::Exists(false), Event::Exists(true), Event::Exists(true)]) == seq![
            ActionView::Probe(m.marker),
            ActionView::Probe(m.inner),
            ActionView::Finish(Ok(m.inner)),
        ],
{
    let cold = seq![
        Event::Exists(false),
        Event::Exists(false),
        Event::Exists(false),
        Event::Succeeded,
        Event::Succeeded,
        Event::Succeeded,
        Event::Exists(true),
    ];
    reveal_with_fuel(state_after, 8);
    assert(run(m, cold) =~= seq![
        ActionView::Probe(m.marker),
        ActionView::Probe(m.target),
        ActionView::CreateDir(m.target),
        ActionView::Extract(m.target),
        ActionView::WriteMarker(m.marker),
        ActionView::Probe(m.inner),
        ActionView::Finish(Ok(m.inner)),
    ]);
    let warm = seq![Event::Exists(false), Event::Exists(true), Event::Exists(true)];
    assert(run(m, warm) =~= seq![
        ActionView::Probe(m.marker),
        ActionView::Probe(m.inner),
        ActionView::Finish(Ok(m.inner)),
    ]);
}

/// Whenever the marker is found, the run writes nothing, whatever the later
/// answers are.
pub proof fn lemma_warm_cache_writes_nothing(m: ResolverView, events: Seq<Event>)
    requires
        initial(m),
        m.has_payload,
        events.len() >= 2,
        !found(events[0]),
        found(events[1]),
    ensures
        forall|i: int| 0 <= i < events.len() ==> !is_write(#[trigger] run(m, events)[i]),
        events.len() >= 3 && found(events[2]) ==> run(m, events)[2] == ActionView::Finish(
            Ok(m.inner),
        ),
{
    reveal_with_fuel(state_after, 3);
    assert(state_after(m, events, 2).stage == Stage::AwaitInner);
    if events.len() >= 3 {
        assert(state_after(m, events, 3).stage == Stage::Finished);
        lemma_idle_after_finish(m, events, 2);
    }
}

/// A cache entry without its marker is removed, then created afresh and
/// extracted into.
pub proof fn lemma_stale_entry_recreated(m: ResolverView, events: Seq<Event>)
    requires
        initial(m),
        m.has_payload,
        events.len() >= 3,
        !found(events[0]),
        !found(events[1]),
        found(events[2]),
    ensures
        run(m, events)[2] == ActionView::RemoveDir(m.target),
        events.len() >= 4 && events[3] == Event::Succeeded ==> run(m, events)[3]
            == ActionView::CreateDir(m.target),
        events.len() >= 5 && events[3] == Event::Succeeded && events[4] == Event::Succeeded
            ==> run(m, events)[4] == ActionView::Extract(m.target),
        events.len() >= 4 && events[3] != Event::Succeeded ==> run(m, events)[3]
            == ActionView::Finish(Err((ErrorKind::RemoveStale, m.target))),
{
    reveal_with_fuel(state_after, 5);
}

/// A run returns a root only right after that root was found to exist: the
/// adjacent install on the first answer, or else the runtime directory in the
/// cache entry, probed by the action before.
pub proof fn lemma_root_is_checked(m: ResolverView, events: Seq<Event>, i: int)
    requires
        initial(m),
        0 <= i < events.len(),
        run(m, events)[i] is Finish,
        run(m, events)[i]->Finish_0 is Ok,
    ensures
        found(events[i]),
        ({
            let p = run(m, events)[i]->Finish_0->Ok_0;
            ||| i == 0 && p == m.adjacent
            ||| i > 0 && p == m.inner && run(m, events)[i - 1] == ActionView::Probe(m.inner)
        }),
{
    let s = state_after(m, events, i as nat);
    lemma_paths_kept(m, events, i as nat);
    if i > 0 {
        lemma_paths_kept(m, events, (i - 1) as nat);
    }
    assert(i > 0 ==> s.stage != Stage::AwaitAdjacent);
}

/// The marker is written only right after an extraction that succeeded, and
/// only on the answer that reports the write's own success is the entry
/// trusted.
pub proof fn lemma_marker_after_extraction(m: ResolverView, events: Seq<Event>, i: int)
    requires
        initial(m),
        0 <= i < events.len(),
        run(m, events)[i] is WriteMarker,
    ensures
        run(m, events)[i] == ActionView::WriteMarker(m.marker),
        i > 0,
        run(m, events)[i - 1] == ActionView::Extract(m.target),
        events[i] == Event::Succeeded,
{
    lemma_paths_kept(m, events, i as nat);
    if i > 0 {
        lemma_paths_kept(m, events, (i - 1) as nat);
    }
}

/// When the payload unpacks without the runtime directory, resolution fails
/// with the corrupt payload error on that directory and does nothing more.
pub proof fn lemma_corrupt_payload(m: ResolverView, events: Seq<Event>, i: int)
    requires
        initial(m),
        0 <= i < events.len(),
        state_after(m, events, i as nat).stage == Stage::AwaitInner,
        !found(events[i]),
    ensures
        run(m, events)[i] == ActionView::Finish(Err((ErrorKind::CorruptPayload, m.inner))),
        forall|j: int| i < j < events.len() ==> #[trigger] run(m, events)[j] == ActionView::Idle,
{
    lemma_paths_kept(m, events, i as nat);
    assert(state_after(m, events, (i + 1) as nat).stage == Stage::Finished);
    lemma_idle_after_finish(m, events, i as nat);
}

/// A cold start whose extraction succeeds without producing the runtime
/// directory ends in the corrupt payload error, after the marker write and
/// the probe of that directory.
pub proof fn lemma_corrupt_payload_run(m: ResolverView)
    requires
        initial(m),
        m.has_payload,
    ensures
        run(
            m,
            seq![
                Event::Exists(false),
                Event::Exists(false),
                Event::Exists(false),
                Event::Succeeded,
                Event::Succeeded,
                Event::Succeeded,
                Event::Exists(false),
            ],
        ) == seq![
            ActionView::Probe(m.marker),
            ActionView::Probe(m.target),
            ActionView::CreateDir(m.target),
            ActionView::Extract(m.target),
            ActionView::WriteMarker(m.marker),
            ActionView::Probe(m.inner),
            ActionView::Finish(Err((ErrorKind::CorruptPayload, m.inner))),
        ],
{
    let events = seq![
        Event::Exists(false),
        Event::Exists(false),
        Event::Exists(false),
        Event::Succeeded,
        Event::Succeeded,
        Event::Succeeded,
        Event::Exists(false),
    ];
    reveal_with_fuel(state_after, 8);
    assert(run(m, events) =~= seq![
        ActionView::Probe(m.marker),
        ActionView::Probe(m.target),
        ActionView::CreateDir(m.target),
        ActionView::Extract(m.target),
        ActionView::WriteMarker(m.marker),
        ActionView::Probe(m.inner),
        ActionView::Finish(Err((ErrorKind::CorruptPayload, m.inner))),
    ]);
}

} // verus!
