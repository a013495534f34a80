//! Loading: a short wait before the main menu.
use vstd::prelude::*;
use crate::states::GameState;
use crate::timers::{OnceTimer, OnceTimerView, lemma_finishes_when_time_adds_up, ticked_by, total_time};

verus! {

/// The wait before the main menu: 0.1 s as an `f32` number of seconds reads,
/// in nanoseconds.
pub const LOADING_WAIT: u64 = 100_000_001;

/// Whether loading is done, and the wait before it is.
pub struct LoadingTracker {
    pub ready: bool,
    pub timer: OnceTimer,
}

/// A tracker at the start of loading, with a wait of `LOADING_WAIT`.
pub fn start_loading() -> (t: LoadingTracker)
    ensures
        !t.ready,
        t.timer@ == OnceTimerView::fresh(LOADING_WAIT as nat),
        t.timer@.wf(),
{
    LoadingTracker { ready: false, timer: OnceTimer::new(LOADING_WAIT) }
}

/// One frame of loading with `delta` nanoseconds passed: whether loading is
/// done after it, the wait after it, and whether it moves to the main menu.
pub open spec fn loading_step(ready: bool, timer: OnceTimerView, delta: nat) -> (bool, OnceTimerView, bool) {
    let t = timer.ticked(delta);
    let go = t.just_finished && !ready;
    (ready || go, t, go)
}

/// A frame of loading: the wait ticks, and in the frame it runs out loading is
/// done and the game moves to the main menu; never again after that.
pub fn check_loading(tracker: &mut LoadingTracker, delta: u64) -> (next: Option<GameState>)
    ensures
        (final(tracker).ready, final(tracker).timer@, next is Some)
            == loading_step(old(tracker).ready, old(tracker).timer@, delta as nat),
        final(tracker).timer@.wf(),
        next is Some ==> next == Some(GameState::MainMenu),
{
    tracker.timer.tick(delta);
    if tracker.timer.just_finished() && !tracker.ready {
        tracker.ready = true;
        Some(GameState::MainMenu)
    } else {
        None
    }
}

/// Where loading stands after a run of frames from the start: whether it is
/// done, and the wait.
pub open spec fn loading_after(deltas: Seq<nat>) -> (bool, OnceTimerView)
    decreases deltas.len(),
{
    if deltas.len() == 0 {
        (false, OnceTimerView::fresh(LOADING_WAIT as nat))
    } else {
        let (ready, timer) = loading_after(deltas.drop_last());
        let (r, t, _) = loading_step(ready, timer, deltas.last());
        (r, t)
    }
}

/// Whether frame `j` of a run from the start moves to the main menu.
pub open spec fn menu_requested_at(deltas: Seq<nat>, j: int) -> bool {
    let (ready, timer) = loading_after(deltas.take(j));
    loading_step(ready, timer, deltas[j]).2
}

/// Loading is done exactly when its frames add up to the wait.
proof fn lemma_loading_after(deltas: Seq<nat>)
    ensures
        loading_after(deltas).1 == ticked_by(OnceTimerView::fresh(LOADING_WAIT as nat), deltas),
        loading_after(deltas).0 == loading_after(deltas).1.finished,
    decreases deltas.len(),
{
    if deltas.len() > 0 {
        lemma_loading_after(deltas.drop_last());
        lemma_finishes_when_time_adds_up(OnceTimerView::fresh(LOADING_WAIT as nat), deltas.drop_last());
    }
}

/// From the start of loading, the game moves to the main menu exactly once: at
/// the first frame by which the frames add up to `LOADING_WAIT`. Loading is
/// done from that frame on, and not before.
pub proof fn lemma_menu_once(deltas: Seq<nat>)
    ensures
        forall|j: int| 0 <= j < deltas.len() ==> (#[trigger] menu_requested_at(deltas, j) <==> (
            total_time(deltas.take(j + 1)) >= LOADING_WAIT && total_time(deltas.take(j)) < LOADING_WAIT)),
        forall|k: int| 0 <= k <= deltas.len() ==> (#[trigger] loading_after(deltas.take(k)).0
            <==> total_time(deltas.take(k)) >= LOADING_WAIT),
{
    let fresh = OnceTimerView::fresh(LOADING_WAIT as nat);
    assert forall|k: int| 0 <= k <= deltas.len() implies (#[trigger] loading_after(deltas.take(k)).0
        <==> total_time(deltas.take(k)) >= LOADING_WAIT) by {
        lemma_loading_after(deltas.take(k));
        lemma_finishes_when_time_adds_up(fresh, deltas.take(k));
    }
    assert forall|j: int| 0 <= j < deltas.len() implies (#[trigger] menu_requested_at(deltas, j) <==> (
        total_time(deltas.take(j + 1)) >= LOADING_WAIT && total_time(deltas.take(j)) < LOADING_WAIT)) by {
        let before = deltas.take(j);
        let upto = deltas.take(j + 1);
        assert(upto.drop_last() =~= before);
        assert(upto.last() == deltas[j]);
        lemma_loading_after(before);
        lemma_finishes_when_time_adds_up(fresh, before);
        lemma_finishes_when_time_adds_up(fresh, upto);
    }
}

} // verus!
