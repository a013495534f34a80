//! Waves: authored sequences of enemy spawns, with breathing room between them.
use vstd::prelude::*;
use crate::timers::{OnceTimer, OnceTimerView};

verus! {

/// The kinds of enemy.
#[derive(Clone, Copy, Debug, PartialEq, Eq, Structural)]
pub enum EnemyType {
    Ant,
    GardenSnake,
}

impl EnemyType {
    /// Hit points: one for an ant, two for a garden snake.
    pub fn health(&self) -> (h: i32)
        ensures
            h == (match self {
                EnemyType::Ant => 1i32,
                EnemyType::GardenSnake => 2i32,
            }),
    {
        match self {
            EnemyType::Ant => 1,
            EnemyType::GardenSnake => 2,
        }
    }

    /// Rushing speed, in units per second: 60 for an ant, 110 for a garden snake.
    pub fn speed(&self) -> (s: u32)
        ensures
            s == (match self {
                EnemyType::Ant => 60u32,
                EnemyType::GardenSnake => 110u32,
            }),
    {
        match self {
            EnemyType::Ant => 60,
            EnemyType::GardenSnake => 110,
        }
    }

    /// Sprite size (width, height): 12 by 12 for an ant, 20 by 10 for a garden snake.
    pub fn size(&self) -> (wh: (u32, u32))
        ensures
            wh == (match self {
                EnemyType::Ant => (12u32, 12u32),
                EnemyType::GardenSnake => (20u32, 10u32),
            }),
    {
        match self {
            EnemyType::Ant => (12, 12),
            EnemyType::GardenSnake => (20, 10),
        }
    }
}

/// A number of enemies of one kind.
#[derive(Clone, Copy, Debug, PartialEq, Eq, Structural)]
pub struct SpawnGroup {
    pub enemy_type: EnemyType,
    pub count: usize,
}

/// The groups of enemies that make up one wave.
pub struct Wave {
    pub groups: Vec<SpawnGroup>,
}

/// How many enemies the groups hold in all.
pub open spec fn group_total(groups: Seq<SpawnGroup>) -> nat
    decreases groups.len(),
{
    if groups.len() == 0 {
        0
    } else {
        group_total(groups.drop_last()) + groups.last().count as nat
    }
}

/// The enemies of the groups one by one: the first group's, then the next's.
pub open spec fn roster(groups: Seq<SpawnGroup>) -> Seq<EnemyType>
    decreases groups.len(),
{
    if groups.len() == 0 {
        Seq::empty()
    } else {
        roster(groups.drop_last()) + Seq::new(groups.last().count as nat, |k: int| groups.last().enemy_type)
    }
}

/// A roster is as long as the groups are large.
pub proof fn lemma_roster_len(groups: Seq<SpawnGroup>)
    ensures
        roster(groups).len() == group_total(groups),
    decreases groups.len(),
{
    if groups.len() > 0 {
        lemma_roster_len(groups.drop_last());
    }
}

/// Every enemy of the roster has the kind of the group it comes from: the
/// `k`-th enemy of group `g` stands after all the enemies of the groups before
/// it, and is of group `g`'s kind.
pub proof fn lemma_roster_kinds(groups: Seq<SpawnGroup>, g: int, k: int)
    requires
        0 <= g < groups.len(),
        0 <= k < groups[g].count,
    ensures
        group_total(groups.take(g)) + k < roster(groups).len(),
        roster(groups)[group_total(groups.take(g)) + k] == groups[g].enemy_type,
    decreases groups.len(),
{
    let front = groups.drop_last();
    lemma_roster_len(front);
    lemma_roster_len(groups);
    if g == groups.len() - 1 {
        assert(groups.take(g) =~= front);
    } else {
        assert(front.take(g) =~= groups.take(g));
        assert(front[g] == groups[g]);
        lemma_roster_kinds(front, g, k);
    }
}

/// The enemies of a wave in spawning order: each group's in turn, `count` of its
/// kind. Enemy `k` of the `n` is placed at angle `k / n` of a full turn.
pub fn spawn_roster(wave: &Wave) -> (r: Vec<EnemyType>)
    requires
        group_total(wave.groups@) <= usize::MAX,
    ensures
        r@ == roster(wave.groups@),
        r@.len() == group_total(wave.groups@),
        forall|g: int, k: int| 0 <= g < wave.groups@.len() && 0 <= k < wave.groups@[g].count ==>
            #[trigger] r@[group_total(wave.groups@.take(g)) + k] == wave.groups@[g].enemy_type,
{
    let mut r: Vec<EnemyType> = Vec::new();
    let mut g: usize = 0;
    proof {
        lemma_group_total_prefix_le(wave.groups@, 0);
    }
    while g < wave.groups.len()
        invariant
            g <= wave.groups@.len(),
            group_total(wave.groups@) <= usize::MAX,
            r@ == roster(wave.groups@.take(g as int)),
        decreases wave.groups@.len() - g,
    {
        let group = wave.groups[g];
        proof {
            lemma_group_total_prefix_le(wave.groups@, g as int + 1);
            lemma_roster_len(wave.groups@.take(g as int));
            lemma_roster_len(wave.groups@.take(g as int + 1));
            assert(wave.groups@.take(g as int + 1).drop_last() =~= wave.groups@.take(g as int));
        }
        let ghost start = r@;
        let mut c: usize = 0;
        while c < group.count
            invariant
                c <= group.count,
                r@ == start + Seq::new(c as nat, |k: int| group.enemy_type),
                start.len() + group.count <= usize::MAX,
            decreases group.count - c,
        {
            r.push(group.enemy_type);
            proof {
                assert(r@ =~= start + Seq::new((c + 1) as nat, |k: int| group.enemy_type));
            }
            c = c + 1;
        }
        g = g + 1;
    }
    proof {
        assert(wave.groups@.take(wave.groups@.len() as int) =~= wave.groups@);
        lemma_roster_len(wave.groups@);
        assert forall|g: int, k: int| 0 <= g < wave.groups@.len() && 0 <= k < wave.groups@[g].count implies
            #[trigger] r@[group_total(wave.groups@.take(g)) + k] == wave.groups@[g].enemy_type by {
            lemma_roster_kinds(wave.groups@, g, k);
        }
    }
    r
}

/// A prefix of the groups holds no more enemies than all of them.
proof fn lemma_group_total_prefix_le(groups: Seq<SpawnGroup>, n: int)
    requires
        0 <= n <= groups.len(),
    ensures
        group_total(groups.take(n)) <= group_total(groups),
    decreases groups.len() - n,
{
    if n < groups.len() {
        lemma_group_total_prefix_le(groups, n + 1);
        assert(groups.take(n + 1).drop_last() =~= groups.take(n));
    } else {
        assert(groups.take(n) =~= groups);
    }
}

/// The waves of a level and how far the player has got: the wave being
/// fought, the pause before the next one, and whether the current wave has
/// been spawned yet.
pub struct WaveManager {
    pub waves: Vec<Wave>,
    pub current: usize,
    /// Brief pause between waves so the player can breathe.
    pub cooldown: OnceTimer,
    pub spawned_current: bool,
}

/// What the wave logic depends on: how many waves there are, the current one,
/// whether it was spawned, and the cooldown.
pub struct WaveProgress {
    pub total: nat,
    pub current: nat,
    pub spawned: bool,
    pub cooldown: OnceTimerView,
}

impl WaveProgress {
    /// Never past the last wave, with a well-formed cooldown.
    pub open spec fn wf(self) -> bool {
        self.current <= self.total && self.cooldown.wf()
    }

    /// Every wave has been fought.
    pub open spec fn complete(self) -> bool {
        self.current >= self.total
    }

    /// One frame of wave logic with `alive` enemies on the field and `delta`
    /// nanoseconds passed: the new progress, and the wave spawned, if any.
    /// Nothing happens once every wave is done. A wave not yet spawned is
    /// spawned. While enemies live, the level waits. Then the cooldown ticks,
    /// and when it runs out the next wave comes up and the cooldown restarts.
    pub open spec fn step(self, alive: nat, delta: nat) -> (WaveProgress, Option<nat>) {
        if self.complete() {
            (self, None)
        } else if !self.spawned {
            (WaveProgress { spawned: true, ..self }, Some(self.current))
        } else if alive > 0 {
            (self, None)
        } else if !self.cooldown.ticked(delta).finished {
            (WaveProgress { cooldown: self.cooldown.ticked(delta), ..self }, None)
        } else {
            (WaveProgress {
                current: self.current + 1,
                spawned: false,
                cooldown: self.cooldown.ticked(delta).restarted(),
                ..self
            }, None)
        }
    }

    /// The next wave to be spawned: the current one, or the one after it
    /// when the current one is out.
    pub open spec fn next_spawn(self) -> nat {
        if self.spawned { self.current + 1 } else { self.current }
    }
}

/// The waves that a run of frames spawns, in order, from `p` on; each frame
/// gives the number of living enemies and the time passed.
pub open spec fn spawned_in_run(p: WaveProgress, frames: Seq<(nat, nat)>) -> Seq<nat>
    decreases frames.len(),
{
    if frames.len() == 0 {
        Seq::empty()
    } else {
        let (q, s) = p.step(frames[0].0, frames[0].1);
        let rest = spawned_in_run(q, frames.drop_first());
        match s {
            Some(w) => seq![w] + rest,
            None => rest,
        }
    }
}

/// Waves come one at a time and in order: over any run of frames, the waves
/// spawned are consecutive, starting with the next one due, none skipped and
/// none twice, and never one past the last.
pub proof fn lemma_waves_in_order(p: WaveProgress, frames: Seq<(nat, nat)>)
    requires
        p.wf(),
    ensures
        forall|k: int| 0 <= k < spawned_in_run(p, frames).len() ==>
            #[trigger] spawned_in_run(p, frames)[k] == p.next_spawn() + k
            && spawned_in_run(p, frames)[k] < p.total,
    decreases frames.len(),
{
    if frames.len() > 0 {
        let (q, s) = p.step(frames[0].0, frames[0].1);
        lemma_waves_in_order(q, frames.drop_first());
        let rest = spawned_in_run(q, frames.drop_first());
        match s {
            Some(w) => {
                assert(q.next_spawn() == p.next_spawn() + 1);
                assert forall|k: int| 0 <= k < spawned_in_run(p, frames).len() implies
                    #[trigger] spawned_in_run(p, frames)[k] == p.next_spawn() + k
                    && spawned_in_run(p, frames)[k] < p.total by {
                    if k > 0 {
                        assert(spawned_in_run(p, frames)[k] == rest[k - 1]);
                    }
                }
            },
            None => {
                assert(q.next_spawn() == p.next_spawn());
            },
        }
    }
}

/// Whether the wave number goes up at some frame of a run.
pub open spec fn advances_in_run(p: WaveProgress, frames: Seq<(nat, nat)>) -> bool
    decreases frames.len(),
{
    if frames.len() == 0 {
        false
    } else {
        let q = p.step(frames[0].0, frames[0].1).0;
        q.current > p.current || advances_in_run(q, frames.drop_first())
    }
}

/// The time of the frames of a run during which no enemy was alive.
pub open spec fn clear_time(frames: Seq<(nat, nat)>) -> nat
    decreases frames.len(),
{
    if frames.len() == 0 {
        0
    } else {
        (if frames[0].0 == 0 { frames[0].1 } else { 0 }) + clear_time(frames.drop_first())
    }
}

/// Breathing room between waves: from a restarted cooldown, whether the
/// current wave is already out or still to be spawned, the next one comes only
/// after the field has been clear of enemies for the whole cooldown, counting
/// only the frames in which no enemy was alive.
pub proof fn lemma_breathing_room(p: WaveProgress, frames: Seq<(nat, nat)>)
    requires
        p.wf(),
        p.cooldown.elapsed == 0,
    ensures
        advances_in_run(p, frames) ==> p.cooldown.duration <= clear_time(frames),
{
    lemma_advance_needs_clear_time(p, frames);
}

/// With its cooldown still running, the wave number goes up in a run only if
/// the run's clear frames cover what remains of the cooldown.
proof fn lemma_advance_needs_clear_time(p: WaveProgress, frames: Seq<(nat, nat)>)
    requires
        p.wf(),
        !p.cooldown.finished,
    ensures
        advances_in_run(p, frames) ==> p.cooldown.duration <= p.cooldown.elapsed + clear_time(frames),
    decreases frames.len(),
{
    if frames.len() > 0 {
        let q = p.step(frames[0].0, frames[0].1).0;
        if q.current == p.current {
            lemma_advance_needs_clear_time(q, frames.drop_first());
        }
    }
}

/// Spawning a wave is all a spawn frame does: the wave due is sent, marked as
/// out, and the wave number and the cooldown stay as they were, however much
/// time the frame takes and however many enemies live.
pub proof fn lemma_spawn_keeps_cooldown(p: WaveProgress, alive: nat, delta: nat)
    requires
        !p.complete(),
        !p.spawned,
    ensures
        p.step(alive, delta).1 == Some(p.current),
        p.step(alive, delta).0.spawned,
        p.step(alive, delta).0.current == p.current,
        p.step(alive, delta).0.cooldown == p.cooldown,
        p.step(alive, delta).0.total == p.total,
{
}

/// The wave number goes up only in a frame with no enemy alive, after the
/// current wave was spawned, and when the ticked cooldown has run out; the
/// cooldown then starts again from nothing.
pub proof fn lemma_advance_only_when_clear(p: WaveProgress, alive: nat, delta: nat)
    requires
        p.step(alive, delta).0.current != p.current,
    ensures
        alive == 0,
        p.spawned,
        p.cooldown.ticked(delta).finished,
        p.step(alive, delta).0.current == p.current + 1,
        p.step(alive, delta).0.cooldown.elapsed == 0,
        p.step(alive, delta).1 is None,
{
}

/// A cleared level stays cleared: once every wave has been fought, frames
/// change nothing and spawn nothing.
pub proof fn lemma_cleared_level_rests(p: WaveProgress, frames: Seq<(nat, nat)>)
    requires
        p.complete(),
    ensures
        spawned_in_run(p, frames).len() == 0,
        !advances_in_run(p, frames),
    decreases frames.len(),
{
    if frames.len() > 0 {
        lemma_cleared_level_rests(p, frames.drop_first());
    }
}

/// Every step keeps the progress well formed and never goes back a wave.
pub proof fn lemma_step_keeps_progress(p: WaveProgress, alive: nat, delta: nat)
    requires
        p.wf(),
    ensures
        p.step(alive, delta).0.wf(),
        p.current <= p.step(alive, delta).0.current <= p.current + 1,
        p.step(alive, delta).0.total == p.total,
{
}

/// The level's five waves: ants, then ants and a snake, a heavier mix, a
/// snake-heavy wave, and a wave of five snakes.
pub open spec fn test_level_groups() -> Seq<Seq<(EnemyType, nat)>> {
    seq![
        seq![(EnemyType::Ant, 5nat)],
        seq![(EnemyType::Ant, 4nat), (EnemyType::GardenSnake, 1nat)],
        seq![(EnemyType::Ant, 6nat), (EnemyType::GardenSnake, 2nat)],
        seq![(EnemyType::Ant, 3nat), (EnemyType::GardenSnake, 3nat)],
        seq![(EnemyType::GardenSnake, 5nat)],
    ]
}

/// A wave's groups as (kind, count) pairs.
pub open spec fn wave_groups(w: Wave) -> Seq<(EnemyType, nat)> {
    w.groups@.map_values(|g: SpawnGroup| (g.enemy_type, g.count as nat))
}

/// The breathing room between waves: one and a half seconds, in nanoseconds.
pub const WAVE_COOLDOWN: u64 = 1_500_000_000;

fn group(enemy_type: EnemyType, count: usize) -> (g: SpawnGroup)
    ensures
        g == (SpawnGroup { enemy_type, count }),
{
    SpawnGroup { enemy_type, count }
}

/// The waves of the test level.
pub fn test_level_waves() -> (waves: Vec<Wave>)
    ensures
        waves@.len() == test_level_groups().len(),
        forall|w: int| 0 <= w < waves@.len() ==> #[trigger] wave_groups(waves@[w]) == test_level_groups()[w],
{
    let w0 = Wave { groups: vec![group(EnemyType::Ant, 5)] };
    let w1 = Wave { groups: vec![group(EnemyType::Ant, 4), group(EnemyType::GardenSnake, 1)] };
    let w2 = Wave { groups: vec![group(EnemyType::Ant, 6), group(EnemyType::GardenSnake, 2)] };
    let w3 = Wave { groups: vec![group(EnemyType::Ant, 3), group(EnemyType::GardenSnake, 3)] };
    let w4 = Wave { groups: vec![group(EnemyType::GardenSnake, 5)] };
    proof {
        assert(wave_groups(w0) =~= test_level_groups()[0]);
        assert(wave_groups(w1) =~= test_level_groups()[1]);
        assert(wave_groups(w2) =~= test_level_groups()[2]);
        assert(wave_groups(w3) =~= test_level_groups()[3]);
        assert(wave_groups(w4) =~= test_level_groups()[4]);
    }
    let waves = vec![w0, w1, w2, w3, w4];
    proof {
        assert(waves@[0] == w0);
    }
    waves
}

impl WaveManager {
    /// The progress the wave logic depends on.
    pub open spec fn progress(&self) -> WaveProgress {
        WaveProgress {
            total: self.waves@.len(),
            current: self.current as nat,
            spawned: self.spawned_current,
            cooldown: self.cooldown@,
        }
    }

    /// Never past the last wave, with a well-formed cooldown.
    pub open spec fn wf(&self) -> bool {
        self.progress().wf()
    }

    /// How many waves there are.
    pub fn total(&self) -> (n: usize)
        ensures
            n == self.waves@.len(),
    {
        self.waves.len()
    }

    /// The wave to show, counted from one, and never more than there are.
    pub fn display_current(&self) -> (n: usize)
        requires
            self.current < usize::MAX,
        ensures
            n == (if self.current + 1 <= self.waves@.len() { self.current + 1 } else { self.waves@.len() as int }),
    {
        let next = self.current + 1;
        if next <= self.waves.len() {
            next
        } else {
            self.waves.len()
        }
    }

    /// Every wave has been fought.
    pub fn all_complete(&self) -> (b: bool)
        ensures
            b == self.progress().complete(),
    {
        self.current >= self.waves.len()
    }
}

/// The test level at its start: first wave, not yet spawned, with the
/// breathing room of `WAVE_COOLDOWN` between waves.
pub fn init_waves() -> (m: WaveManager)
    ensures
        m.wf(),
        m.waves@.len() == test_level_groups().len(),
        forall|w: int| 0 <= w < m.waves@.len() ==> #[trigger] wave_groups(m.waves@[w]) == test_level_groups()[w],
        m.current == 0,
        !m.spawned_current,
        m.cooldown@ == OnceTimerView::fresh(WAVE_COOLDOWN as nat),
{
    WaveManager {
        waves: test_level_waves(),
        current: 0,
        cooldown: OnceTimer::new(WAVE_COOLDOWN),
        spawned_current: false,
    }
}

/// One frame of wave logic (see `WaveProgress::step`) with `alive` enemies on
/// the field and `delta` nanoseconds passed: returns the index of the wave to
/// spawn now, if any.
pub fn advance_waves(manager: &mut WaveManager, alive: usize, delta: u64) -> (spawn: Option<usize>)
    ensures
        old(manager).wf() ==> final(manager).wf(),
        spawn is Some ==> final(manager).cooldown@ == old(manager).cooldown@
            && final(manager).current == old(manager).current && spawn == Some(old(manager).current),
        final(manager).current != old(manager).current ==> alive == 0 && old(manager).spawned_current,
        final(manager).waves@ == old(manager).waves@,
        ({
            let (q, s) = old(manager).progress().step(alive as nat, delta as nat);
            &&& final(manager).progress() == q
            &&& match spawn {
                Some(w) => s == Some(w as nat),
                None => s is None,
            }
        }),
{
    let n = manager.waves.len();
    if manager.current >= n {
        return None;
    }
    if !manager.spawned_current {
        manager.spawned_current = true;
        return Some(manager.current);
    }
    if alive > 0 {
        return None;
    }
    manager.cooldown.tick(delta);
    if !manager.cooldown.is_finished() {
        return None;
    }
    manager.current = manager.current + 1;
    manager.spawned_current = false;
    manager.cooldown.reset();
    None
}

} // verus!
