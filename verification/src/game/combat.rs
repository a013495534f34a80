//! The damage pipeline: auto-peck, contact damage, damage events, health, death.
use vstd::prelude::*;
use crate::proximity::{any_within, is_nearest_within, nearest_within, first_below};
use crate::states::GameState;
use crate::timers::{OnceTimer, OnceTimerView, lemma_finishes_when_time_adds_up, ticked_by, total_time};

verus! {

/// Hit points: the current count and the most there can be.
#[derive(Clone, Copy, Debug, PartialEq, Eq, Structural)]
pub struct Health {
    pub current: i32,
    pub max: i32,
}

impl Health {
    /// Full health of `max` points.
    pub fn full(max: i32) -> (h: Health)
        ensures
            h == (Health { current: max, max: max }),
    {
        Health { current: max, max }
    }

    /// Loses `amount` points (a negative amount heals).
    pub fn take_damage(&mut self, amount: i32)
        requires
            i32::MIN <= old(self).current - amount <= i32::MAX,
        ensures
            final(self).current == old(self).current - amount,
            final(self).max == old(self).max,
    {
        self.current = self.current - amount;
    }

    /// Back to full health.
    pub fn refill(&mut self)
        ensures
            final(self).current == old(self).max,
            final(self).max == old(self).max,
    {
        self.current = self.max;
    }

    /// Out of health: no points left.
    pub fn is_depleted(&self) -> (b: bool)
        ensures
            b == (self.current <= 0),
    {
        self.current <= 0
    }
}

/// The player's automatic peck: how far it reaches (the order key of the
/// range, see `proximity`), its cooldown, and the damage it deals.
pub struct AutoPeck {
    pub range: u32,
    pub cooldown: OnceTimer,
    pub damage: i32,
}

/// Brief invincibility after taking contact damage.
pub struct IFrames {
    pub timer: OnceTimer,
}

/// Damage aimed at an entity (named by its bits).
#[derive(Clone, Copy, Debug, PartialEq, Eq, Structural)]
pub struct DamageEvent {
    pub target: u64,
    pub amount: i32,
}

/// Enemies closer than 20 units touch the player: the order key of 20.0.
pub const CONTACT_RANGE: u32 = 0x41a0_0000;

/// A touch costs the player one point.
pub const CONTACT_DAMAGE: i32 = 1;

/// A touch grants half a second of invincibility, in nanoseconds.
pub const IFRAMES_DURATION: u64 = 500_000_000;

/// The cooldown ticks; once it has run out, the peck strikes the nearest enemy
/// in range (the first of equally near ones), and only then the cooldown
/// restarts. Returns the index of the enemy struck; the damage dealt is
/// `peck.damage`.
pub fn auto_peck(peck: &mut AutoPeck, delta: u64, enemy_keys: &[u32]) -> (target: Option<usize>)
    ensures
        final(peck).range == old(peck).range,
        final(peck).damage == old(peck).damage,
        final(peck).cooldown@.wf(),
        ({
            let ticked = old(peck).cooldown@.ticked(delta as nat);
            &&& target is Some <==> ticked.finished && any_within(enemy_keys@, old(peck).range)
            &&& target matches Some(i) ==> is_nearest_within(enemy_keys@, old(peck).range, i as int)
            &&& final(peck).cooldown@ == (if target is Some { ticked.restarted() } else { ticked })
        }),
        (final(peck).cooldown@, target is Some) == peck_step(old(peck).cooldown@, delta as nat, any_within(enemy_keys@, old(peck).range)),
{
    peck.cooldown.tick(delta);
    if !peck.cooldown.is_finished() {
        return None;
    }
    let nearest = nearest_within(enemy_keys, peck.range);
    if nearest.is_some() {
        peck.cooldown.reset();
    }
    nearest
}

/// One frame of the auto-peck as its cooldown sees it: the cooldown ticks,
/// and the peck strikes when it has run out and an enemy is in range, which
/// restarts it. Gives the cooldown after the frame and whether it struck.
pub open spec fn peck_step(cooldown: OnceTimerView, delta: nat, enemy_in_range: bool) -> (OnceTimerView, bool) {
    let t = cooldown.ticked(delta);
    if t.finished && enemy_in_range {
        (t.restarted(), true)
    } else {
        (t, false)
    }
}

/// Whether the peck strikes at some frame of a run; each frame gives the time
/// passed and whether an enemy is in range.
pub open spec fn strikes_in_run(cooldown: OnceTimerView, frames: Seq<(nat, bool)>) -> bool
    decreases frames.len(),
{
    if frames.len() == 0 {
        false
    } else {
        let (t, struck) = peck_step(cooldown, frames[0].0, frames[0].1);
        struck || strikes_in_run(t, frames.drop_first())
    }
}

/// The time a run of frames takes, in nanoseconds.
pub open spec fn run_time(frames: Seq<(nat, bool)>) -> nat
    decreases frames.len(),
{
    if frames.len() == 0 {
        0
    } else {
        frames[0].0 + run_time(frames.drop_first())
    }
}

/// Pecks are spaced by the cooldown: after a peck, whatever enemies come in
/// range, the next peck comes only once the frames since add up to the
/// cooldown's whole duration.
pub proof fn lemma_peck_spacing(cooldown: OnceTimerView, frames: Seq<(nat, bool)>)
    requires
        cooldown.wf(),
    ensures
        strikes_in_run(cooldown.restarted(), frames) ==> cooldown.duration <= run_time(frames),
{
    lemma_strike_needs_time(cooldown.restarted(), frames);
}

/// An unfinished cooldown strikes in a run only if the run covers what remains of it.
proof fn lemma_strike_needs_time(t: OnceTimerView, frames: Seq<(nat, bool)>)
    requires
        t.wf(),
        !t.finished,
    ensures
        strikes_in_run(t, frames) ==> t.duration <= t.elapsed + run_time(frames),
    decreases frames.len(),
{
    if frames.len() > 0 {
        let u = t.ticked(frames[0].0);
        if !u.finished {
            lemma_strike_needs_time(u, frames.drop_first());
        }
    }
}

/// Invincibility from a touch lasts exactly `IFRAMES_DURATION`: it runs out
/// on the tick at which the time since the touch adds up to it, and not before.
pub proof fn lemma_iframes_last(deltas: Seq<nat>)
    ensures
        ticked_by(OnceTimerView::fresh(IFRAMES_DURATION as nat), deltas).finished
            <==> total_time(deltas) >= IFRAMES_DURATION,
{
    lemma_finishes_when_time_adds_up(OnceTimerView::fresh(IFRAMES_DURATION as nat), deltas);
}

/// Ticks the invincibility; returns whether it has run out (and is to end).
pub fn tick_iframes(iframes: &mut IFrames, delta: u64) -> (expired: bool)
    ensures
        final(iframes).timer@ == old(iframes).timer@.ticked(delta as nat),
        final(iframes).timer@.wf(),
        expired == final(iframes).timer@.finished,
{
    iframes.timer.tick(delta);
    iframes.timer.is_finished()
}

/// A player without invincibility who is touched by an enemy (one closer than
/// `CONTACT_RANGE`) takes `CONTACT_DAMAGE` and gains fresh invincibility of
/// `IFRAMES_DURATION`: at most once per frame however many enemies touch.
pub fn enemy_contact_damage(player_invincible: bool, enemy_keys: &[u32]) -> (hit: Option<IFrames>)
    ensures
        hit is Some <==> !player_invincible && exists|j: int|
            0 <= j < enemy_keys@.len() && #[trigger] enemy_keys@[j] < CONTACT_RANGE,
        hit matches Some(f) ==> f.timer@ == OnceTimerView::fresh(IFRAMES_DURATION as nat) && f.timer@.wf(),
{
    if player_invincible {
        return None;
    }
    match first_below(enemy_keys, CONTACT_RANGE) {
        Some(_) => Some(IFrames { timer: OnceTimer::new(IFRAMES_DURATION) }),
        None => None,
    }
}

/// The damage that `events` aim at `target`, all added up.
pub open spec fn total_damage(events: Seq<DamageEvent>, target: u64) -> int
    decreases events.len(),
{
    if events.len() == 0 {
        0
    } else {
        total_damage(events.drop_last(), target) + damage_to(events.last(), target)
    }
}

/// No entity's health leaves the range of `i32` while the events are applied
/// in order.
pub open spec fn damage_fits(entities: Seq<u64>, healths: Seq<Health>, events: Seq<DamageEvent>) -> bool {
    forall|i: int, n: int|
        0 <= i < healths.len() && 0 <= n <= events.len() ==> i32::MIN <= #[trigger] healths[i].current
            - total_damage(#[trigger] events.take(n), entities[i]) <= i32::MAX
}

/// The damage one event deals to `entity`: its amount if aimed there, else none.
pub open spec fn damage_to(ev: DamageEvent, entity: u64) -> int {
    if ev.target == entity { ev.amount as int } else { 0 }
}

/// Applies one damage event: every entry of its target loses its amount.
fn apply_damage_event(entities: &[u64], healths: &mut Vec<Health>, ev: DamageEvent)
    requires
        entities@.len() == old(healths)@.len(),
        forall|i: int| 0 <= i < old(healths)@.len() ==>
            i32::MIN <= #[trigger] old(healths)@[i].current - damage_to(ev, entities@[i]) <= i32::MAX,
    ensures
        final(healths)@.len() == old(healths)@.len(),
        forall|i: int| 0 <= i < final(healths)@.len() ==> {
            &&& #[trigger] final(healths)@[i].current == old(healths)@[i].current - damage_to(ev, entities@[i])
            &&& final(healths)@[i].max == old(healths)@[i].max
        },
{
    let ghost start = healths@;
    let mut j: usize = 0;
    while j < healths.len()
        invariant
            j <= healths@.len(),
            entities@.len() == start.len(),
            healths@.len() == start.len(),
            forall|i: int| 0 <= i < start.len() ==>
                i32::MIN <= #[trigger] start[i].current - damage_to(ev, entities@[i]) <= i32::MAX,
            forall|i: int| 0 <= i < j ==> {
                &&& #[trigger] healths@[i].current == start[i].current - damage_to(ev, entities@[i])
                &&& healths@[i].max == start[i].max
            },
            forall|i: int| j <= i < healths@.len() ==> #[trigger] healths@[i] == start[i],
        decreases healths@.len() - j,
    {
        let ghost before = healths@;
        if entities[j] == ev.target {
            let mut h = healths[j];
            assert(i32::MIN <= start[j as int].current - damage_to(ev, entities@[j as int]) <= i32::MAX);
            h.take_damage(ev.amount);
            healths.set(j, h);
        }
        proof {
            assert forall|i: int| 0 <= i < healths@.len() && i != j implies #[trigger] healths@[i] == before[i] by {}
        }
        j = j + 1;
    }
}

/// Applies damage events in order: each lowers the health of its target by its
/// amount. `entities[i]` is the entity whose health is `healths[i]`; an event
/// aimed at an entity without health does nothing.
pub fn apply_damage(entities: &[u64], healths: &mut Vec<Health>, events: &[DamageEvent])
    requires
        entities@.len() == old(healths)@.len(),
        damage_fits(entities@, old(healths)@, events@),
    ensures
        final(healths)@.len() == old(healths)@.len(),
        forall|i: int| 0 <= i < final(healths)@.len() ==> {
            &&& #[trigger] final(healths)@[i].current == old(healths)@[i].current - total_damage(events@, entities@[i])
            &&& final(healths)@[i].max == old(healths)@[i].max
        },
{
    let ghost start = healths@;
    let mut k: usize = 0;
    while k < events.len()
        invariant
            k <= events.len(),
            entities@.len() == start.len(),
            healths@.len() == start.len(),
            damage_fits(entities@, start, events@),
            forall|i: int| 0 <= i < healths@.len() ==> {
                &&& #[trigger] healths@[i].current == start[i].current - total_damage(events@.take(k as int), entities@[i])
                &&& healths@[i].max == start[i].max
            },
        decreases events.len() - k,
    {
        let ev = events[k];
        let ghost before = healths@;
        proof {
            assert(events@.take(k + 1).drop_last() =~= events@.take(k as int));
            assert(events@.take(k + 1).last() == ev);
            assert forall|i: int| 0 <= i < before.len() implies
                i32::MIN <= #[trigger] before[i].current - damage_to(ev, entities@[i]) <= i32::MAX by {
                assert(total_damage(events@.take(k + 1), entities@[i])
                    == total_damage(events@.take(k as int), entities@[i]) + damage_to(ev, entities@[i]));
                assert(i32::MIN <= start[i].current - total_damage(events@.take(k + 1), entities@[i]) <= i32::MAX);
            }
        }
        apply_damage_event(entities, healths, ev);
        proof {
            assert forall|i: int| 0 <= i < healths@.len() implies
                #[trigger] healths@[i].current == start[i].current - total_damage(events@.take(k + 1), entities@[i])
                && healths@[i].max == start[i].max by {
                assert(total_damage(events@.take(k + 1), entities@[i])
                    == total_damage(events@.take(k as int), entities@[i]) + damage_to(ev, entities@[i]));
                assert(before[i].current == start[i].current - total_damage(events@.take(k as int), entities@[i]));
            }
        }
        k = k + 1;
    }
    proof {
        assert(events@.take(events@.len() as int) =~= events@);
        assert forall|i: int| 0 <= i < healths@.len() implies
            #[trigger] healths@[i].current == start[i].current - total_damage(events@, entities@[i]) by {
            assert(healths@[i].current == start[i].current - total_damage(events@.take(k as int), entities@[i]));
        }
    }
}

/// Damage aimed at an entity splits over consecutive batches of events: applying
/// one batch and then another lowers health as much as applying both at once.
pub proof fn lemma_damage_batches(first: Seq<DamageEvent>, second: Seq<DamageEvent>, target: u64)
    ensures
        total_damage(first + second, target) == total_damage(first, target) + total_damage(second, target),
    decreases second.len(),
{
    if second.len() == 0 {
        assert(first + second =~= first);
    } else {
        lemma_damage_batches(first, second.drop_last(), target);
        assert((first + second).drop_last() =~= first + second.drop_last());
    }
}

/// What a death check decides: which entities to despawn (in order), and the
/// state to move to when the player has died.
pub struct DeathOutcome {
    pub despawn: Vec<usize>,
    pub next_state: Option<GameState>,
}

/// `i` is the first player out of health.
pub open spec fn is_first_dead_player(healths: Seq<Health>, players: Seq<bool>, i: int) -> bool {
    &&& 0 <= i < healths.len()
    &&& healths[i].current <= 0 && players[i]
    &&& forall|j: int| 0 <= j < i ==> !(#[trigger] healths[j].current <= 0 && players[j])
}

/// How many entries the death check looks at: up to and not including the
/// first dead player, or all when no player is dead.
pub open spec fn death_scan_len(healths: Seq<Health>, players: Seq<bool>) -> int {
    if exists|i: int| is_first_dead_player(healths, players, i) {
        choose|i: int| is_first_dead_player(healths, players, i)
    } else {
        healths.len() as int
    }
}

/// Checks the entities in order: a dead player sends the game back to the main
/// menu and ends the check; every other entity out of health before that is
/// despawned. `players[i]` tells whether entity `i` is the player.
pub fn check_death(healths: &[Health], players: &[bool]) -> (out: DeathOutcome)
    requires
        healths@.len() == players@.len(),
    ensures
        out.next_state == Some(GameState::MainMenu) <==> exists|i: int|
            0 <= i < healths@.len() && players@[i] && #[trigger] healths@[i].current <= 0,
        out.next_state is None || out.next_state == Some(GameState::MainMenu),
        forall|k: int| 0 <= k < out.despawn@.len() ==> {
            let e = #[trigger] out.despawn@[k] as int;
            0 <= e < healths@.len() && healths@[e].current <= 0 && !players@[e]
        },
        out.next_state is None ==> forall|e: int| 0 <= e < healths@.len() && #[trigger] healths@[e].current <= 0
            && !players@[e] ==> out.despawn@.contains(e as usize),
        out.next_state == (if exists|i: int| is_first_dead_player(healths@, players@, i) {
            Some(GameState::MainMenu)
        } else {
            None::<GameState>
        }),
        ({
            let n = death_scan_len(healths@, players@);
            &&& forall|k: int| 0 <= k < out.despawn@.len() ==> {
                let e = #[trigger] out.despawn@[k] as int;
                0 <= e < n && healths@[e].current <= 0 && !players@[e]
            }
            &&& forall|k1: int, k2: int| 0 <= k1 < k2 < out.despawn@.len() ==> #[trigger] out.despawn@[k1] < #[trigger] out.despawn@[k2]
            &&& forall|e: int| 0 <= e < n && #[trigger] healths@[e].current <= 0 && !players@[e] ==> out.despawn@.contains(e as usize)
        }),
{
    let mut despawn: Vec<usize> = Vec::new();
    let mut k: usize = 0;
    while k < healths.len()
        invariant
            k <= healths@.len(),
            healths@.len() == players@.len(),
            forall|j: int| 0 <= j < k ==> !(#[trigger] healths@[j].current <= 0 && players@[j]),
            forall|m: int| 0 <= m < despawn@.len() ==> {
                let e = #[trigger] despawn@[m] as int;
                0 <= e < k && healths@[e].current <= 0 && !players@[e]
            },
            forall|m1: int, m2: int| 0 <= m1 < m2 < despawn@.len() ==> #[trigger] despawn@[m1] < #[trigger] despawn@[m2],
            forall|e: int| 0 <= e < k && #[trigger] healths@[e].current <= 0 && !players@[e] ==> despawn@.contains(e as usize),
        decreases healths@.len() - k,
    {
        if healths[k].current <= 0 {
            if players[k] {
                proof {
                    assert(is_first_dead_player(healths@, players@, k as int));
                    lemma_first_dead_player_unique(healths@, players@, k as int);
                }
                return DeathOutcome { despawn, next_state: Some(GameState::MainMenu) };
            }
            let ghost before = despawn@;
            despawn.push(k);
            proof {
                assert forall|e: int| 0 <= e < k + 1 && #[trigger] healths@[e].current <= 0 && !players@[e]
                    implies despawn@.contains(e as usize) by {
                    if e < k {
                        let m = choose|m: int| 0 <= m < before.len() && before[m] == e as usize;
                        assert(despawn@[m] == e as usize);
                    } else {
                        assert(despawn@[before.len() as int] == e as usize);
                    }
                }
            }
        }
        k = k + 1;
    }
    proof {
        assert(!exists|i: int| is_first_dead_player(healths@, players@, i));
    }
    DeathOutcome { despawn, next_state: None }
}

/// A player out of health is found by the death check: whenever entry `i` is
/// a player with no hit points left (`Health::is_depleted`), there is a first
/// dead player, at `i` or before it, and the check sends the game back to the
/// main menu.
pub proof fn lemma_dead_player_found(healths: Seq<Health>, players: Seq<bool>, i: int)
    requires
        healths.len() == players.len(),
        0 <= i < healths.len(),
        players[i],
        healths[i].current <= 0,
    ensures
        exists|f: int| 0 <= f <= i && #[trigger] is_first_dead_player(healths, players, f),
        0 <= death_scan_len(healths, players) <= i,
    decreases i,
{
    if exists|j: int| 0 <= j < i && players[j] && #[trigger] healths[j].current <= 0 {
        let j = choose|j: int| 0 <= j < i && players[j] && #[trigger] healths[j].current <= 0;
        lemma_dead_player_found(healths, players, j);
    } else {
        assert(is_first_dead_player(healths, players, i));
        lemma_first_dead_player_unique(healths, players, i);
    }
}

/// There is at most one first dead player.
proof fn lemma_first_dead_player_unique(healths: Seq<Health>, players: Seq<bool>, i: int)
    requires
        is_first_dead_player(healths, players, i),
    ensures
        death_scan_len(healths, players) == i,
{
    let c = choose|c: int| is_first_dead_player(healths, players, c);
    if c < i {
        assert(!(healths[c].current <= 0 && players[c]));
    } else if c > i {
        assert(!(healths[i].current <= 0 && players[i]));
    }
}

} // verus!
