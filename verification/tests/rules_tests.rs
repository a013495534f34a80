//! Scenarios for the game's rules, one per promise, on concrete values.

use pecking_order::game::combat::{
    apply_damage, auto_peck, check_death, enemy_contact_damage, tick_iframes, AutoPeck, DamageEvent, Health,
    CONTACT_DAMAGE, CONTACT_RANGE, IFRAMES_DURATION,
};
use pecking_order::game::pause::{pause_menu_input, toggle_pause};
use pecking_order::game::player::{
    animate_player, move_player, sprite_flipped, tick_peck_flash, trigger_peck_flash, Facing, MoveInput, PlayerSprite, WalkCycle,
    PECK_FLASH_DURATION,
};
use pecking_order::game::tools::{
    activate_tool, pickup_tool, pinecone_blast, HeldTool, ToolKind, PICKUP_RANGE, PINECONE_BLAST_RADIUS, PINECONE_DAMAGE,
};
use pecking_order::game::waves::{
    advance_waves, init_waves, spawn_roster, test_level_waves, EnemyType, SpawnGroup, Wave, WaveManager, WAVE_COOLDOWN,
};
use pecking_order::game::juice::{
    hit_flash_timer, particle_lifetime, tick_hit_flash, tick_particle_lifetime, HIT_FLASH_DURATION, PARTICLE_LIFETIME,
};
use pecking_order::game::{back_to_menu, player_health, player_peck, PLAYER_PECK_COOLDOWN, PLAYER_PECK_DAMAGE, PLAYER_PECK_RANGE};
use pecking_order::hud::health::{heart_lit, update_hearts, HEART_COUNT};
use pecking_order::hud::wave_indicator::update_wave_indicator;
use pecking_order::loading::{check_loading, start_loading, LOADING_WAIT};
use pecking_order::menu::main_menu::{button_action, ButtonInteraction, MenuButtonAction};
use ButtonInteraction::{Hovered, Idle, Pressed};
use MenuButtonAction::{Play, Quit};
use pecking_order::proximity::{all_within, first_below, nearest, nearest_within};
use pecking_order::states::GameState;
use pecking_order::timers::OnceTimer;

const MS: u64 = 1_000_000;

fn key(d: f32) -> u32 {
    d.to_bits()
}

#[test]
fn range_constants_are_the_keys_of_their_distances() {
    assert_eq!(key(20.0), CONTACT_RANGE);
    assert_eq!(key(48.0), PICKUP_RANGE);
    assert_eq!(key(50.0), PLAYER_PECK_RANGE);
    assert_eq!(key(60.0), PINECONE_BLAST_RADIUS);
}

#[test]
fn keys_order_as_distances_do() {
    let ds = [0.0f32, 0.5, 1.0, 19.99, 20.0, 48.0, 1000.0, f32::INFINITY];
    for w in ds.windows(2) {
        assert!(key(w[0]) < key(w[1]));
    }
    assert!(key(f32::NAN) > key(f32::INFINITY));
}

#[test]
fn nearest_within_picks_first_of_equally_near() {
    let keys = vec![key(30.0), key(10.0), key(70.0), key(10.0)];
    assert_eq!(nearest_within(&keys, key(50.0)), Some(1));
    assert_eq!(nearest_within(&keys, key(5.0)), None);
    assert_eq!(nearest_within(&[], key(50.0)), None);
    assert_eq!(nearest_within(&[key(f32::NAN)], key(50.0)), None);
    assert_eq!(nearest(&[key(9.0), key(3.0), key(3.0)]), Some(1));
    assert_eq!(nearest(&[]), None);
}

#[test]
fn first_below_and_all_within() {
    let keys = vec![key(25.0), key(19.0), key(5.0)];
    assert_eq!(first_below(&keys, key(20.0)), Some(1));
    assert_eq!(first_below(&keys, key(5.0)), None);
    assert_eq!(all_within(&keys, key(19.0)), vec![1, 2]);
    assert_eq!(all_within(&keys, key(1.0)), Vec::<usize>::new());
}

#[test]
fn once_timer_matches_bevy_timer() {
    let mut ours = OnceTimer::new(400 * MS);
    let mut theirs = bevy::time::Timer::new(std::time::Duration::from_millis(400), bevy::time::TimerMode::Once);
    for step in [100u64, 250, 30, 100, 0, 500] {
        ours.tick(step * MS);
        theirs.tick(std::time::Duration::from_millis(step));
        assert_eq!(ours.elapsed() as u128, theirs.elapsed().as_nanos());
        assert_eq!(ours.is_finished(), theirs.is_finished());
        assert_eq!(ours.just_finished(), theirs.just_finished());
    }
    ours.reset();
    theirs.reset();
    assert_eq!(ours.elapsed(), 0);
    assert!(!ours.is_finished() && !theirs.is_finished());
}

#[test]
fn once_timer_finishes_when_ticks_add_up() {
    let mut t = OnceTimer::new(1000);
    t.tick(400);
    assert!(!t.is_finished());
    assert_eq!(t.elapsed(), 400);
    t.tick(599);
    assert!(!t.is_finished());
    t.tick(1);
    assert!(t.is_finished() && t.just_finished());
    assert_eq!(t.elapsed(), 1000);
    t.tick(u64::MAX);
    assert!(t.is_finished() && !t.just_finished());
    assert_eq!(t.duration(), 1000);
}

#[test]
fn auto_peck_waits_for_cooldown_then_strikes_nearest() {
    let mut peck = player_peck();
    assert_eq!(peck.damage, PLAYER_PECK_DAMAGE);
    assert_eq!(peck.cooldown.duration(), PLAYER_PECK_COOLDOWN);
    let enemies = vec![key(45.0), key(12.0), key(80.0)];
    assert_eq!(auto_peck(&mut peck, 300 * MS, &enemies), None);
    assert_eq!(auto_peck(&mut peck, 100 * MS, &enemies), None);
    assert_eq!(auto_peck(&mut peck, 6, &enemies), Some(1));
    // the cooldown restarted with the strike
    assert!(!peck.cooldown.is_finished());
    assert_eq!(peck.cooldown.elapsed(), 0);
    assert_eq!(auto_peck(&mut peck, 400 * MS, &enemies), None);
    assert_eq!(auto_peck(&mut peck, 6, &enemies), Some(1));
}

#[test]
fn auto_peck_keeps_cooldown_ready_without_targets() {
    let mut peck = AutoPeck { range: key(50.0), cooldown: OnceTimer::new(400 * MS), damage: 1 };
    assert_eq!(auto_peck(&mut peck, 500 * MS, &[key(51.0)]), None);
    assert!(peck.cooldown.is_finished());
    // an enemy stepping in range is struck at once
    assert_eq!(auto_peck(&mut peck, 0, &[key(51.0), key(50.0)]), Some(1));
}

#[test]
fn contact_damage_once_then_invincible() {
    let enemies = vec![key(30.0), key(19.5), key(2.0)];
    let hit = enemy_contact_damage(false, &enemies);
    assert!(hit.is_some());
    assert_eq!(CONTACT_DAMAGE, 1);
    let mut iframes = hit.unwrap();
    assert_eq!(iframes.timer.duration(), IFRAMES_DURATION);
    assert!(enemy_contact_damage(true, &enemies).is_none());
    assert!(enemy_contact_damage(false, &[key(20.0), key(25.0)]).is_none());
    assert!(!tick_iframes(&mut iframes, 499 * MS));
    assert!(tick_iframes(&mut iframes, 1 * MS));
}

#[test]
fn damage_events_sum_per_target() {
    let entities = vec![7u64, 9, 11];
    let mut healths = vec![Health::full(10), Health { current: 4, max: 4 }, Health::full(1)];
    let events = vec![
        DamageEvent { target: 7, amount: 1 },
        DamageEvent { target: 9, amount: 5 },
        DamageEvent { target: 42, amount: 100 },
        DamageEvent { target: 7, amount: 3 },
    ];
    apply_damage(&entities, &mut healths, &events);
    assert_eq!(healths[0], Health { current: 6, max: 10 });
    assert_eq!(healths[1], Health { current: -1, max: 4 });
    assert_eq!(healths[2], Health { current: 1, max: 1 });
}

#[test]
fn damage_batches_equal_all_at_once() {
    let entities = vec![1u64, 2];
    let events = vec![
        DamageEvent { target: 1, amount: 2 },
        DamageEvent { target: 2, amount: 1 },
        DamageEvent { target: 1, amount: 3 },
    ];
    let mut together = vec![Health::full(10), Health::full(10)];
    apply_damage(&entities, &mut together, &events);
    let mut in_turn = vec![Health::full(10), Health::full(10)];
    apply_damage(&entities, &mut in_turn, &events[..1]);
    apply_damage(&entities, &mut in_turn, &events[1..]);
    assert_eq!(together, in_turn);
}

#[test]
fn health_refill_and_depletion() {
    let mut h = player_health();
    assert_eq!(h, Health { current: 10, max: 10 });
    h.take_damage(10);
    assert!(h.is_depleted());
    h.refill();
    assert_eq!(h.current, 10);
}

#[test]
fn death_check_stops_at_dead_player() {
    let healths = vec![
        Health { current: 0, max: 1 },
        Health { current: 3, max: 4 },
        Health { current: -2, max: 10 },
        Health { current: -1, max: 1 },
    ];
    let out = check_death(&healths, &[false, false, true, false]);
    assert_eq!(out.despawn, vec![0]);
    assert_eq!(out.next_state, Some(GameState::MainMenu));
    let out = check_death(&healths, &[false, false, false, false]);
    assert_eq!(out.despawn, vec![0, 2, 3]);
    assert_eq!(out.next_state, None);
    let out = check_death(&healths, &[false, true, false, false]);
    assert_eq!(out.despawn, vec![0, 2, 3]);
    assert_eq!(out.next_state, None);
}

fn small_manager() -> WaveManager {
    WaveManager {
        waves: vec![
            Wave { groups: vec![SpawnGroup { enemy_type: EnemyType::Ant, count: 2 }] },
            Wave { groups: vec![SpawnGroup { enemy_type: EnemyType::GardenSnake, count: 1 }] },
        ],
        current: 0,
        cooldown: OnceTimer::new(1000),
        spawned_current: false,
    }
}

#[test]
fn waves_advance_only_when_cleared_and_rested() {
    let mut wm = small_manager();
    assert_eq!(advance_waves(&mut wm, 0, 0), Some(0));
    assert!(wm.spawned_current);
    // enemies alive: the level waits, the cooldown does not run
    assert_eq!(advance_waves(&mut wm, 2, 5000), None);
    assert_eq!(wm.cooldown.elapsed(), 0);
    // cleared: breathing room
    assert_eq!(advance_waves(&mut wm, 0, 600), None);
    assert_eq!(wm.current, 0);
    assert_eq!(advance_waves(&mut wm, 0, 400), None);
    assert_eq!(wm.current, 1);
    assert!(!wm.spawned_current);
    assert_eq!(wm.cooldown.elapsed(), 0);
    assert_eq!(advance_waves(&mut wm, 0, 0), Some(1));
    assert_eq!(advance_waves(&mut wm, 0, 1000), None);
    assert!(wm.all_complete());
    assert_eq!(advance_waves(&mut wm, 0, 1000), None);
    assert_eq!(wm.current, 2);
}

#[test]
fn waves_spawn_in_order_over_a_run() {
    let mut wm = init_waves();
    let mut spawned = Vec::new();
    for frame in 0..200u64 {
        let alive = if frame % 7 == 0 { 3 } else { 0 };
        if let Some(w) = advance_waves(&mut wm, alive, 100 * MS) {
            spawned.push(w);
        }
    }
    assert_eq!(spawned, vec![0, 1, 2, 3, 4]);
    assert!(wm.all_complete());
}

#[test]
fn test_level_has_five_authored_waves() {
    let waves = test_level_waves();
    let shape: Vec<Vec<(EnemyType, usize)>> =
        waves.iter().map(|w| w.groups.iter().map(|g| (g.enemy_type, g.count)).collect()).collect();
    assert_eq!(
        shape,
        vec![
            vec![(EnemyType::Ant, 5)],
            vec![(EnemyType::Ant, 4), (EnemyType::GardenSnake, 1)],
            vec![(EnemyType::Ant, 6), (EnemyType::GardenSnake, 2)],
            vec![(EnemyType::Ant, 3), (EnemyType::GardenSnake, 3)],
            vec![(EnemyType::GardenSnake, 5)],
        ]
    );
    let wm = init_waves();
    assert_eq!(wm.cooldown.duration(), WAVE_COOLDOWN);
    assert_eq!(WAVE_COOLDOWN, 1_500_000_000);
}

#[test]
fn spawn_roster_lists_groups_in_turn() {
    let wave = Wave {
        groups: vec![
            SpawnGroup { enemy_type: EnemyType::Ant, count: 2 },
            SpawnGroup { enemy_type: EnemyType::GardenSnake, count: 0 },
            SpawnGroup { enemy_type: EnemyType::GardenSnake, count: 1 },
        ],
    };
    assert_eq!(spawn_roster(&wave), vec![EnemyType::Ant, EnemyType::Ant, EnemyType::GardenSnake]);
    assert_eq!(spawn_roster(&Wave { groups: vec![] }), Vec::<EnemyType>::new());
}

#[test]
fn enemy_stats_exact() {
    assert_eq!(EnemyType::Ant.health(), 1);
    assert_eq!(EnemyType::GardenSnake.health(), 2);
    assert_eq!(EnemyType::Ant.speed(), 60);
    assert_eq!(EnemyType::GardenSnake.speed(), 110);
    assert_eq!(EnemyType::Ant.size(), (12, 12));
    assert_eq!(EnemyType::GardenSnake.size(), (20, 10));
}

#[test]
fn wave_counter_text() {
    let mut wm = init_waves();
    assert_eq!(update_wave_indicator(&wm), "Wave 1/5");
    wm.current = 4;
    assert_eq!(update_wave_indicator(&wm), "Wave 5/5");
    wm.current = 5;
    assert_eq!(update_wave_indicator(&wm), "All waves cleared!");
    let mut big = small_manager();
    big.waves = (0..12).map(|_| Wave { groups: vec![] }).collect();
    big.current = 9;
    assert_eq!(update_wave_indicator(&big), "Wave 10/12");
}

#[test]
fn pickup_swaps_one_tool_for_another() {
    let keys = vec![key(60.0), key(30.0), key(30.0)];
    let kinds = vec![ToolKind::Pinecone; 3];
    assert_eq!(pickup_tool(false, None, &keys, &kinds), None);
    let p = pickup_tool(true, None, &keys, &kinds).unwrap();
    assert_eq!(p.item, 1);
    assert_eq!(p.taken, ToolKind::Pinecone);
    assert_eq!(p.dropped, None);
    let p = pickup_tool(true, Some(HeldTool(ToolKind::Pinecone)), &keys, &kinds).unwrap();
    assert_eq!(p.dropped, Some(ToolKind::Pinecone));
    assert_eq!(pickup_tool(true, None, &[key(48.5)], &[ToolKind::Pinecone]), None);
    assert!(pickup_tool(true, None, &[key(48.0)], &[ToolKind::Pinecone]).is_some());
}

#[test]
fn pinecone_is_thrown_at_nearest_and_used_up() {
    let mut held = Some(HeldTool(ToolKind::Pinecone));
    assert_eq!(activate_tool(false, &mut held, &[key(3.0)]), None);
    assert!(held.is_some());
    let t = activate_tool(true, &mut held, &[key(90.0), key(40.0), key(40.0)]).unwrap();
    assert_eq!(t.target, Some(1));
    assert!(held.is_none());
    assert_eq!(activate_tool(true, &mut held, &[key(1.0)]), None);
    let mut held = Some(HeldTool(ToolKind::Pinecone));
    assert_eq!(activate_tool(true, &mut held, &[]).unwrap().target, None);
}

#[test]
fn pinecone_blast_hits_all_in_radius() {
    assert_eq!(PINECONE_DAMAGE, 5);
    let keys = vec![key(10.0), key(61.0), key(60.0), key(f32::NAN)];
    assert_eq!(pinecone_blast(&keys), vec![0, 2]);
}

#[test]
fn tool_label() {
    assert_eq!(ToolKind::Pinecone.label(), "Pinecone");
}

#[test]
fn movement_and_facing() {
    let mut facing = Facing { right: true };
    let m = move_player(MoveInput { up: true, down: false, left: true, right: false }, &mut facing);
    assert_eq!((m.dx, m.dy, m.moving), (-1, 1, true));
    assert!(!facing.right);
    assert!(sprite_flipped(&facing));
    let m = move_player(MoveInput { up: false, down: true, left: false, right: false }, &mut facing);
    assert_eq!((m.dx, m.dy, m.moving), (0, -1, true));
    assert!(!facing.right);
    let m = move_player(MoveInput { up: true, down: true, left: true, right: true }, &mut facing);
    assert_eq!((m.dx, m.dy, m.moving), (0, 0, false));
    assert!(!facing.right);
    move_player(MoveInput { up: false, down: false, left: false, right: true }, &mut facing);
    assert!(facing.right && !sprite_flipped(&facing));
}

#[test]
fn walk_cycle_wraps_and_peck_flash_wins() {
    let mut walk = WalkCycle { current_frame: 0, frame_count: 3, moving: true };
    assert_eq!(animate_player(&mut walk, false, true), PlayerSprite::Walking(1));
    assert_eq!(animate_player(&mut walk, false, false), PlayerSprite::Walking(1));
    assert_eq!(animate_player(&mut walk, false, true), PlayerSprite::Walking(2));
    assert_eq!(animate_player(&mut walk, false, true), PlayerSprite::Walking(0));
    walk.current_frame = 2;
    assert_eq!(animate_player(&mut walk, true, true), PlayerSprite::Pecking);
    assert_eq!(walk.current_frame, 2);
    walk.moving = false;
    assert_eq!(animate_player(&mut walk, false, true), PlayerSprite::Standing);
    assert_eq!(walk.current_frame, 0);
    let mut flash = trigger_peck_flash();
    assert!(!tick_peck_flash(&mut flash, 119 * MS));
    assert!(tick_peck_flash(&mut flash, 1 * MS));
}

#[test]
fn pause_toggles_back_and_forth() {
    assert_eq!(toggle_pause(true, GameState::Playing), Some(GameState::Paused));
    assert_eq!(toggle_pause(true, GameState::Paused), Some(GameState::Playing));
    assert_eq!(toggle_pause(true, GameState::MainMenu), None);
    assert_eq!(toggle_pause(false, GameState::Playing), None);
    assert_eq!(back_to_menu(true), Some(GameState::MainMenu));
    assert_eq!(back_to_menu(false), None);
}

#[test]
fn pause_menu_quit_beats_resume() {
    assert_eq!(pause_menu_input(&[Pressed], &[Hovered]), Some(GameState::Playing));
    assert_eq!(pause_menu_input(&[Pressed], &[Pressed]), Some(GameState::MainMenu));
    assert_eq!(pause_menu_input(&[Idle], &[Hovered]), None);
}

#[test]
fn main_menu_buttons() {
    let out = button_action(&[(Pressed, Play), (Hovered, Quit)]);
    assert_eq!(out.next_state, Some(GameState::Playing));
    assert_eq!(out.exit_requests, 0);
    let out = button_action(&[(Pressed, Quit), (Idle, Play)]);
    assert_eq!(out.next_state, None);
    assert_eq!(out.exit_requests, 1);
}

#[test]
fn hearts_show_health() {
    let lit = |current: i32| (0..HEART_COUNT).filter(|&i| heart_lit(i, current)).count();
    assert_eq!(lit(10), 10);
    assert_eq!(lit(4), 4);
    assert_eq!(lit(0), 0);
    assert_eq!(lit(-3), 0);
    assert_eq!(lit(12), 10);
    let indices: Vec<i32> = (0..HEART_COUNT).collect();
    assert_eq!(update_hearts(&indices, 3).iter().filter(|&&b| b).count(), 3);
    assert_eq!(update_hearts(&[5, 0, 2], 3), vec![false, true, true]);
}

#[test]
fn loading_leaves_once() {
    let mut tracker = start_loading();
    assert_eq!(check_loading(&mut tracker, 50 * MS), None);
    assert_eq!(check_loading(&mut tracker, 50 * MS), None);
    assert!(!tracker.ready);
    assert_eq!(check_loading(&mut tracker, 1), Some(GameState::MainMenu));
    assert!(tracker.ready);
    assert_eq!(check_loading(&mut tracker, 50 * MS), None);
    assert!(tracker.ready);
}

#[test]
fn loading_leaves_at_first_frame_reaching_the_wait() {
    let deltas = [30 * MS, 30 * MS, 30 * MS, 30 * MS, 30 * MS];
    let mut tracker = start_loading();
    let mut requests = Vec::new();
    for (j, d) in deltas.iter().enumerate() {
        if check_loading(&mut tracker, *d).is_some() {
            requests.push(j);
        }
    }
    assert_eq!(requests, vec![3]);
}

#[test]
fn rule_durations_are_the_seconds_the_game_names() {
    let nanos = |s: f32| std::time::Duration::from_secs_f32(s).as_nanos() as u64;
    assert_eq!(PLAYER_PECK_COOLDOWN, nanos(0.4));
    assert_eq!(LOADING_WAIT, nanos(0.1));
    assert_eq!(PECK_FLASH_DURATION, nanos(0.12));
    assert_eq!(HIT_FLASH_DURATION, nanos(0.08));
    assert_eq!(PARTICLE_LIFETIME, nanos(0.4));
    assert_eq!(IFRAMES_DURATION, nanos(0.5));
    assert_eq!(WAVE_COOLDOWN, nanos(1.5));
    assert_eq!(hit_flash_timer().duration(), HIT_FLASH_DURATION);
    assert_eq!(particle_lifetime().duration(), PARTICLE_LIFETIME);
}

#[test]
fn game_starts_loading() {
    assert_eq!(GameState::default(), GameState::Loading);
}

#[test]
fn past_the_last_wave_nothing_happens() {
    let mut wm = small_manager();
    wm.current = 7;
    wm.spawned_current = false;
    assert_eq!(advance_waves(&mut wm, 0, 5000), None);
    assert_eq!(wm.current, 7);
    assert!(!wm.spawned_current);
    assert_eq!(update_wave_indicator(&wm), "All waves cleared!");
}

#[test]
fn walk_frame_wraps_from_any_index() {
    let mut walk = WalkCycle { current_frame: 5, frame_count: 3, moving: true };
    assert_eq!(animate_player(&mut walk, false, true), PlayerSprite::Walking(0));
}

#[test]
fn effect_timers_end_on_time() {
    let mut flash = OnceTimer::new(80 * MS);
    assert!(!tick_hit_flash(&mut flash, 79 * MS));
    assert!(tick_hit_flash(&mut flash, 1 * MS));
    let mut life = OnceTimer::new(400 * MS);
    assert!(!tick_particle_lifetime(&mut life, 200 * MS));
    assert_eq!(life.elapsed(), 200 * MS);
    assert!(tick_particle_lifetime(&mut life, 300 * MS));
    assert_eq!(life.elapsed(), 400 * MS);
}
