use netsync::action::{cooldown_bounds, MobAction, MobAttackAction, MobAttackType};
use netsync::clock::{ClockError, FrameClock};
use netsync::components::{
    Player, PlayerActions, PlayerCastAction, PlayerLastCastedSpells, PlayerLookAction,
    PlayerWalkAction, WorldPosition,
};
use netsync::connection::{ClientIntent, ConnectionError, EventLog, NetConnectionModel, NetEvent};
use netsync::math::{isqrt, scaled_direction, sq_dist, Vector2};
use netsync::missile::{
    can_cast, closest_monster, damage_at, energy_after_death, missile_energy, Missile,
    MissileSpawnerSystem, MissileTarget, ENERGY_FULL, MISSILE_DAMAGE, MISSILE_DECAY_FRAMES,
};
use netsync::registry::{EntityArena, Handle, NetError, Registry};
use netsync::replication::{
    apply_intent, decode_world_update, drain_connection, encode_world_update, reconcile,
    release_entities, LocalEntity,
};
use netsync::systems::{
    side_from_index, spawning_side, GameState, InputSystem, MonsterDefinition,
    MonsterSpawnerSystem, ParticleSystem, PlayersMovementSystem, PlayingState, Side, SpawnAction,
    SpawnType,
};

fn no_actions() -> PlayerActions {
    PlayerActions {
        walk_action: PlayerWalkAction { direction: Vector2::new(0, 0) },
        look_action: PlayerLookAction { direction: Vector2::new(0, 0) },
        cast_action: None,
    }
}

#[test]
fn clock_elapsed_is_zero_now_and_grows_with_ticks() {
    let mut c = FrameClock::new(16);
    assert_eq!(c.millis_since(c.current_frame()), Ok(0));
    let f = c.current_frame();
    let mut prev = 0;
    for _ in 0..5 {
        c.tick();
        let e = c.millis_since(f).unwrap();
        assert!(e > prev);
        prev = e;
    }
    assert_eq!(prev, 80);
    assert_eq!(c.now_millis(), 80);
}

#[test]
fn clock_rejects_future_frame() {
    let c = FrameClock::new(10);
    assert_eq!(c.millis_since(1), Err(ClockError::InvalidFrame));
    assert_eq!(c.frames_since_clamped(3), 0);
}

#[test]
fn resolve_fails_only_after_unregister() {
    let mut arena = EntityArena::new();
    let mut reg = Registry::new();
    let h = arena.spawn().unwrap();
    let other = arena.spawn().unwrap();
    assert_eq!(reg.resolve_to_identifier(h), Err(NetError::NotFound));
    let id = reg.register(h, 7);
    assert_eq!(reg.resolve_to_identifier(h), Ok(id));
    let oid = reg.register(other, 8);
    assert_ne!(id, oid);
    assert!(reg.unregister(other));
    assert_eq!(reg.resolve_to_identifier(h), Ok(id));
    assert_eq!(reg.metadata(h).unwrap().spawned_frame_number, 7);
    assert_eq!(reg.resolve_to_handle(id), Ok(h));
    assert!(reg.unregister(h));
    assert_eq!(reg.resolve_to_identifier(h), Err(NetError::NotFound));
    assert_eq!(reg.resolve_to_handle(id), Err(NetError::NotFound));
    assert!(!reg.unregister(h));
}

#[test]
fn register_twice_keeps_identifier_and_ids_are_not_reused() {
    let mut reg = Registry::new();
    let a = Handle { index: 0, generation: 0 };
    let b = Handle { index: 0, generation: 1 };
    let ia = reg.register(a, 0);
    assert_eq!(reg.register(a, 5), ia);
    reg.unregister(a);
    let ib = reg.register(b, 1);
    assert_ne!(ia, ib);
    assert_eq!(reg.resolve_to_identifier(a), Err(NetError::NotFound));
}

#[test]
fn arena_reuse_bumps_generation() {
    let mut arena = EntityArena::new();
    let h = arena.spawn().unwrap();
    assert!(arena.despawn(h));
    assert!(!arena.is_alive_handle(h));
    let h2 = arena.spawn().unwrap();
    assert_eq!(h2.index, h.index);
    assert_eq!(h2.generation, h.generation + 1);
    assert!(!arena.is_alive_handle(h));
    assert!(arena.is_alive_handle(h2));
    assert!(!arena.despawn(h));
}

#[test]
fn action_round_trip_through_registry() {
    let mut reg = Registry::new();
    let t = Handle { index: 3, generation: 2 };
    let id = reg.register(t, 0);
    let a = MobAction::Attack(MobAttackAction {
        target: t,
        attack_type: MobAttackType::SlowMelee { cooldown_millis: 900 },
    });
    let wire = a.load_entity_net_id(&reg).unwrap();
    assert_eq!(
        wire,
        MobAction::Attack(MobAttackAction {
            target: id,
            attack_type: MobAttackType::SlowMelee { cooldown_millis: 900 },
        })
    );
    assert_eq!(wire.load_entity_by_net_id(&reg), Ok(a));
    let c = MobAction::Chase(t);
    assert_eq!(c.load_entity_net_id(&reg).unwrap().load_entity_by_net_id(&reg), Ok(c));
    let m: MobAction<Handle> = MobAction::Move(Vector2::new(4, -2));
    assert_eq!(m.load_entity_net_id(&reg), Ok(MobAction::Move(Vector2::new(4, -2))));
    assert_eq!(MobAction::<Handle>::default(), MobAction::Idle);
}

#[test]
fn translation_fails_for_unknown_target() {
    let reg = Registry::new();
    let a = MobAction::Chase(Handle { index: 1, generation: 0 });
    assert_eq!(a.load_entity_net_id(&reg), Err(NetError::NotFound));
    let w: MobAction<u64> = MobAction::Chase(42);
    assert_eq!(w.load_entity_by_net_id(&reg), Err(NetError::NotFound));
}

#[test]
fn cooldown_spread_samples_stay_in_range() {
    assert_eq!(cooldown_bounds(1000, 200), (800, 1200));
    let nominal = MobAttackType::SlowMelee { cooldown_millis: 1000 };
    let mut sum: u64 = 0;
    let mut distinct = std::collections::HashSet::new();
    for _ in 0..10_000 {
        match nominal.randomize_params(200) {
            MobAttackType::SlowMelee { cooldown_millis } => {
                assert!((800..=1200).contains(&cooldown_millis));
                sum += cooldown_millis;
                distinct.insert(cooldown_millis);
            }
            other => panic!("unexpected {:?}", other),
        }
    }
    let mean = sum as f64 / 10_000.0;
    assert!((mean - 1000.0).abs() < 10.0, "mean {}", mean);
    assert!(distinct.len() > 1);
    assert_eq!(MobAttackType::Melee.randomize_params(200), MobAttackType::Melee);
}

#[test]
fn missile_energy_decays_to_zero() {
    assert_eq!(energy_after_death(0), ENERGY_FULL);
    assert_eq!(energy_after_death(1), 950);
    assert_eq!(energy_after_death(10), 500);
    assert_eq!(energy_after_death(MISSILE_DECAY_FRAMES), 0);
    assert_eq!(energy_after_death(MISSILE_DECAY_FRAMES + 7), 0);
    for k in 0..MISSILE_DECAY_FRAMES {
        assert!(energy_after_death(k) > energy_after_death(k + 1));
    }
    assert_eq!(damage_at(MISSILE_DAMAGE, 0), 0);
    assert_eq!(damage_at(MISSILE_DAMAGE, 500), 25);
    let mut clock = FrameClock::new(10);
    for _ in 0..4 {
        clock.tick();
    }
    assert_eq!(missile_energy(None, &clock), ENERGY_FULL);
    assert_eq!(missile_energy(Some(2), &clock), 900);
    assert_eq!(missile_energy(Some(9), &clock), ENERGY_FULL);
}

#[test]
fn cast_gated_by_cooldown() {
    assert!(can_cast(None, 0));
    assert!(!can_cast(Some(100), 599));
    assert!(can_cast(Some(100), 600));
}

#[test]
fn cast_scenario_spawns_and_gates() {
    let system = MissileSpawnerSystem;
    let mut actions = no_actions();
    let mut last = PlayerLastCastedSpells { missile: None };
    let near = Handle { index: 1, generation: 0 };
    let far = Handle { index: 2, generation: 0 };
    let monsters = vec![(far, Vector2::new(150, 60)), (near, Vector2::new(110, 10))];
    let cast = PlayerCastAction {
        cast_position: Vector2::new(0, 0),
        target_position: Vector2::new(100, 0),
    };

    // 100 ms per frame: frames 0, 3 and 6 are t = 0 s, 0.3 s and 0.6 s.
    let mut clock = FrameClock::new(100);
    actions.cast_action = Some(cast);
    let (pos, m) = system.run(&clock, &mut actions, &mut last, &monsters).unwrap();
    assert_eq!(pos, WorldPosition::new(Vector2::new(0, 0)));
    assert_eq!(m.target, MissileTarget::Target(near));
    assert_eq!(m.velocity, Vector2::new(500, 0));
    assert_eq!(m.damage, MISSILE_DAMAGE);
    assert!(actions.cast_action.is_none());
    assert_eq!(last.missile, Some(0));

    for _ in 0..3 {
        clock.tick();
    }
    actions.cast_action = Some(cast);
    assert!(system.run(&clock, &mut actions, &mut last, &monsters).is_none());
    assert!(actions.cast_action.is_none());
    assert_eq!(last.missile, Some(0));

    for _ in 0..3 {
        clock.tick();
    }
    actions.cast_action = Some(cast);
    let (_, m2) = system.run(&clock, &mut actions, &mut last, &monsters).unwrap();
    assert_eq!(m2.frame_spawned, 6);
    assert_eq!(last.missile, Some(600));
}

#[test]
fn cast_without_monster_in_range_flies_to_point() {
    let system = MissileSpawnerSystem;
    let mut actions = no_actions();
    let mut last = PlayerLastCastedSpells { missile: None };
    actions.cast_action = Some(PlayerCastAction {
        cast_position: Vector2::new(0, 0),
        target_position: Vector2::new(0, -30),
    });
    let monsters = vec![(Handle { index: 0, generation: 0 }, Vector2::new(500, 500))];
    let clock = FrameClock::new(16);
    let (_, m) = system.run(&clock, &mut actions, &mut last, &monsters).unwrap();
    assert_eq!(m.target, MissileTarget::Destination(Vector2::new(0, -30)));
    assert_eq!(m.velocity, Vector2::new(0, -500));
}

#[test]
fn closest_monster_picks_nearest_in_range() {
    let h = |i| Handle { index: i, generation: 0 };
    let monsters = vec![
        (h(0), Vector2::new(300, 0)),
        (h(1), Vector2::new(30, 40)),
        (h(2), Vector2::new(-50, 0)),
        (h(3), Vector2::new(0, 50)),
    ];
    assert_eq!(closest_monster(Vector2::new(0, 0), &monsters, 100), Some(1));
    assert_eq!(closest_monster(Vector2::new(0, 0), &monsters, 10), None);
    assert_eq!(closest_monster(Vector2::new(0, 0), &Vec::new(), 10), None);
}

#[test]
fn missile_target_degrades_to_destination() {
    let t = Handle { index: 4, generation: 1 };
    let mut m = Missile::new(5, MissileTarget::Target(t), Vector2::new(1, 0), 3);
    m.degrade_target(true, Vector2::new(9, 9));
    assert_eq!(m.target, MissileTarget::Target(t));
    m.degrade_target(false, Vector2::new(9, 9));
    assert_eq!(m.target, MissileTarget::Destination(Vector2::new(9, 9)));
    assert_eq!(m.radius, 5);
    assert_eq!(m.frame_spawned, 3);
}

#[test]
fn geometry_helpers() {
    assert_eq!(sq_dist(Vector2::new(0, 0), Vector2::new(3, 4)), 25);
    assert_eq!(isqrt(24), 4);
    assert_eq!(isqrt(25), 5);
    assert_eq!(isqrt(0), 0);
    assert_eq!(
        scaled_direction(Vector2::new(0, 0), Vector2::new(3, -4), 500),
        Vector2::new(300, -400)
    );
    assert_eq!(
        scaled_direction(Vector2::new(2, 2), Vector2::new(2, 2), 500),
        Vector2::new(0, 0)
    );
}

#[test]
fn intents_for_two_frames_drain_into_one_update() {
    let mut log = EventLog::new();
    log.push(NetEvent::Heartbeat { sent_at: 1 });
    let mut conn = NetConnectionModel::new(9, &log, 5);
    assert_eq!(conn.reader, 1);
    log.push(NetEvent::Heartbeat { sent_at: 2 });
    let cast = PlayerCastAction {
        cast_position: Vector2::new(0, 0),
        target_position: Vector2::new(1, 1),
    };
    log.push(NetEvent::Intent(ClientIntent {
        frame: 10,
        walk_dir: Some(Vector2::new(1, 0)),
        look_dir: None,
        cast: Some(cast),
    }));
    log.push(NetEvent::Intent(ClientIntent {
        frame: 11,
        walk_dir: Some(Vector2::new(0, 1)),
        look_dir: Some(Vector2::new(2, 2)),
        cast: None,
    }));
    let mut actions = no_actions();
    let drained = drain_connection(&mut conn, &log, &mut actions, 40);
    assert_eq!(drained.len(), 3);
    assert!(matches!(drained[1], NetEvent::Intent(ClientIntent { frame: 10, .. })));
    assert!(matches!(drained[2], NetEvent::Intent(ClientIntent { frame: 11, .. })));
    assert_eq!(actions.walk_action.direction, Vector2::new(0, 1));
    assert_eq!(actions.look_action.direction, Vector2::new(2, 2));
    assert_eq!(actions.cast_action, Some(cast));
    assert_eq!(conn.reader, 4);
    assert_eq!(conn.last_pinged_at, 40);

    let mut clock = FrameClock::new(16);
    for _ in 0..3 {
        clock.tick();
    }
    let mut reg = Registry::new();
    let h = Handle { index: 0, generation: 0 };
    let id = reg.register(h, 0);
    let entities = vec![LocalEntity { handle: h, position: Vector2::new(5, 6), action: MobAction::Idle }];
    let update = encode_world_update(&clock, &reg, &entities);
    assert_eq!(update.frame, 3);
    assert_eq!(update.entity_deltas.len(), 1);
    assert_eq!(update.entity_deltas[0].id, id);
    assert_eq!(drain_connection(&mut conn, &log, &mut actions, 40).len(), 0);
}

#[test]
fn world_update_skips_untranslatable_entities() {
    let clock = FrameClock::new(16);
    let mut reg = Registry::new();
    let a = Handle { index: 0, generation: 0 };
    let gone = Handle { index: 1, generation: 0 };
    reg.register(a, 0);
    let entities = vec![
        LocalEntity { handle: a, position: Vector2::new(1, 1), action: MobAction::Chase(gone) },
        LocalEntity { handle: gone, position: Vector2::new(2, 2), action: MobAction::Idle },
        LocalEntity { handle: a, position: Vector2::new(3, 3), action: MobAction::Chase(a) },
    ];
    let update = encode_world_update(&clock, &reg, &entities);
    assert_eq!(update.entity_deltas.len(), 1);
    assert_eq!(update.entity_deltas[0].position, Vector2::new(3, 3));
    let back = decode_world_update(&reg, &update);
    assert_eq!(back, vec![entities[2]]);
    reg.unregister(a);
    assert!(decode_world_update(&reg, &update).is_empty());
}

#[test]
fn connection_liveness_and_acknowledgement() {
    let log = EventLog::new();
    let mut conn = NetConnectionModel::new(1, &log, 100);
    assert_eq!(conn.check_liveness(1099, 1000), Ok(()));
    assert_eq!(conn.check_liveness(1100, 1000), Err(ConnectionError::ConnectionTimeout));
    conn.heartbeat(900);
    conn.heartbeat(50);
    assert_eq!(conn.last_pinged_at, 900);
    assert_eq!(conn.check_liveness(1100, 1000), Ok(()));
    assert_eq!(conn.last_acknowledged_update, None);
    conn.acknowledge(12);
    conn.acknowledge(8);
    assert_eq!(conn.last_acknowledged_update, Some(12));
    assert_eq!(conn.created_at, 100);
}

#[test]
fn intent_keeps_first_cast_of_tick() {
    let first = PlayerCastAction { cast_position: Vector2::new(0, 0), target_position: Vector2::new(1, 0) };
    let second = PlayerCastAction { cast_position: Vector2::new(0, 0), target_position: Vector2::new(0, 1) };
    let mut a = no_actions();
    apply_intent(&mut a, ClientIntent { frame: 1, walk_dir: None, look_dir: None, cast: Some(first) });
    apply_intent(&mut a, ClientIntent { frame: 2, walk_dir: None, look_dir: None, cast: Some(second) });
    assert_eq!(a.cast_action, Some(first));
}

#[test]
fn spawn_sides_of_level() {
    let dims = Vector2::new(1000, 800);
    let (s, e, d) = spawning_side(Side::Top, dims);
    assert_eq!((s, e, d), (Vector2::new(-475, 500), Vector2::new(475, 500), Vector2::new(0, -700)));
    let (s, e, d) = spawning_side(Side::Left, dims);
    assert_eq!((s, e, d), (Vector2::new(-600, -375), Vector2::new(-600, 375), Vector2::new(900, 0)));
    assert_eq!(side_from_index(0), Side::Top);
    assert_eq!(side_from_index(1), Side::Right);
    assert_eq!(side_from_index(2), Side::Bottom);
    assert_eq!(side_from_index(3), Side::Left);
    let spawner = MonsterSpawnerSystem;
    assert_eq!(spawner.borderline_count(s, e), 15);
    for _ in 0..100 {
        let p = spawner.random_point_between(s, e);
        assert_eq!(p.x, -600);
        assert!(p.y >= -375 && p.y <= 375);
    }
}

#[test]
fn player_moves_and_stays_in_level() {
    let system = PlayersMovementSystem;
    let mut player = Player::new();
    let mut pos = Vector2::new(0, 0);
    let dims = Vector2::new(1000, 800);
    system.run(&mut player, &mut pos, Some((1, 0)), 100, dims);
    assert_eq!(player.velocity, Vector2::new(500, 0));
    assert_eq!(pos, Vector2::new(50, 0));
    system.run(&mut player, &mut pos, Some((0, -1)), 2000, dims);
    assert_eq!(pos, Vector2::new(50, -400));
    system.run(&mut player, &mut pos, Some((0, 0)), 100, dims);
    assert_eq!(player.velocity, Vector2::new(0, 0));
    assert_eq!(pos, Vector2::new(50, -400));
    assert_eq!(Player::default(), Player::new());
}

#[test]
fn input_sets_intents() {
    let system = InputSystem;
    let mut a = no_actions();
    system.process_input(&mut a, Some((1, -1)), Some(Vector2::new(10, 10)), true, Vector2::new(4, 2));
    assert_eq!(a.walk_action.direction, Vector2::new(1, -1));
    assert_eq!(a.look_action.direction, Vector2::new(6, 8));
    assert_eq!(
        a.cast_action,
        Some(PlayerCastAction { cast_position: Vector2::new(4, 2), target_position: Vector2::new(10, 10) })
    );
    let mut b = no_actions();
    system.process_input(&mut b, None, None, true, Vector2::new(4, 2));
    assert_eq!(b, no_actions());
}

#[test]
fn particle_spread_and_lifetime() {
    let ps = ParticleSystem;
    assert_eq!(ps.particle_spread(500, false), 524);
    assert_eq!(ps.particle_spread(300, false), 2513);
    assert_eq!(ps.particle_spread(400, false), 1518);
    assert_eq!(ps.particle_spread(400, true), 6283);
    assert_eq!(ps.particle_spread(0, false), 6283);
    assert!(ps.particle_spread(450, false) <= ps.particle_spread(350, false));
    assert_eq!(ps.particle_inertia(Vector2::new(3, 4), true), Vector2::new(0, 0));
    assert_eq!(ps.particle_inertia(Vector2::new(3, 4), false), Vector2::new(3, 4));
    let mut clock = FrameClock::new(100);
    assert!(!ps.particle_expired(&clock, 0));
    for _ in 0..3 {
        clock.tick();
    }
    assert!(ps.particle_expired(&clock, 0));
    assert!(!ps.particle_expired(&clock, 1));
    assert!(!ps.particle_expired(&clock, 9));
}

#[test]
fn playing_state_starts_waves() {
    let mut state = GameState::Loading;
    let waves = PlayingState.on_start(&mut state);
    assert_eq!(state, GameState::Playing);
    assert_eq!(waves.len(), 2);
    assert_eq!((waves[0].num, waves[0].spawn_type), (1, SpawnType::Borderline));
    assert_eq!((waves[1].num, waves[1].spawn_type), (5, SpawnType::Random));
}

#[test]
fn borderline_wave_spreads_along_side() {
    let spawner = MonsterSpawnerSystem;
    let dims = Vector2::new(200, 100);
    let wave = spawner.borderline_wave(Side::Top, dims);
    // Top line runs from (-75, 150) to (75, 150): 150 units, three monsters.
    assert_eq!(wave.len(), 3);
    assert_eq!(wave[0].0, Vector2::new(-75, 150));
    assert_eq!(wave[1].0, Vector2::new(-25, 150));
    assert_eq!(wave[2].0, Vector2::new(25, 150));
    assert_eq!(wave[1].1, MobAction::Move(Vector2::new(-25, 150)));
    let bottom = spawner.borderline_wave(Side::Bottom, dims);
    assert_eq!(bottom[1].0, Vector2::new(25, -150));
}

#[test]
fn random_wave_stays_on_side() {
    let spawner = MonsterSpawnerSystem;
    let dims = Vector2::new(200, 100);
    let wave = spawner.random_wave(Side::Right, dims, 5);
    assert_eq!(wave.len(), 5);
    for (p, a) in wave {
        assert_eq!(p.x, 200);
        assert!(p.y >= -25 && p.y <= 25);
        assert_eq!(a, MobAction::Idle);
    }
}

#[test]
fn spawner_run_drains_actions() {
    let spawner = MonsterSpawnerSystem;
    let mut queued = vec![
        SpawnAction { num: 1, spawn_type: SpawnType::Borderline },
        SpawnAction { num: 5, spawn_type: SpawnType::Random },
    ];
    let waves = spawner.run(&mut queued, Vector2::new(1000, 800));
    assert!(queued.is_empty());
    assert_eq!(waves.len(), 2);
    assert!(waves[0].len() == 19 || waves[0].len() == 15);
    assert!(waves[0].iter().all(|(_, a)| matches!(a, MobAction::Move(_))));
    assert_eq!(waves[1].len(), 5);
    assert!(waves[1].iter().all(|(_, a)| *a == MobAction::Idle));
}

#[test]
fn monster_from_definition() {
    let spawner = MonsterSpawnerSystem;
    let def = MonsterDefinition {
        name: "Ghoul".to_string(),
        base_health: 300,
        base_speed: 80,
        base_attack: 12,
        radius: 16,
    };
    let m = spawner.spawn_monster(Vector2::new(1, 2), MobAction::Move(Vector2::new(7, 8)), &def);
    assert_eq!(m.name, "Ghoul");
    assert_eq!(m.health, 300);
    assert_eq!(m.attack_damage, 12);
    assert_eq!(m.destination, Vector2::new(7, 8));
    assert_eq!(m.radius, 16);
    let idle = spawner.spawn_monster(Vector2::new(1, 2), MobAction::Idle, &def);
    assert_eq!(idle.destination, Vector2::new(0, 0));
}

#[test]
fn reconcile_overwrites_only_mentioned_entities() {
    let a = Handle { index: 0, generation: 0 };
    let b = Handle { index: 1, generation: 0 };
    let mut local = vec![
        LocalEntity { handle: a, position: Vector2::new(1, 1), action: MobAction::Idle },
        LocalEntity { handle: b, position: Vector2::new(2, 2), action: MobAction::Idle },
    ];
    let update = vec![
        LocalEntity { handle: b, position: Vector2::new(9, 9), action: MobAction::Chase(a) },
        LocalEntity { handle: b, position: Vector2::new(8, 8), action: MobAction::Idle },
    ];
    reconcile(&mut local, &update);
    assert_eq!(local[0].position, Vector2::new(1, 1));
    assert_eq!(local[1], update[0]);
}

#[test]
fn teardown_releases_owned_entities() {
    let mut reg = Registry::new();
    let a = Handle { index: 0, generation: 0 };
    let b = Handle { index: 1, generation: 0 };
    let c = Handle { index: 2, generation: 0 };
    reg.register(a, 0);
    reg.register(b, 0);
    let ic = reg.register(c, 0);
    release_entities(&mut reg, &vec![a, b, a]);
    assert_eq!(reg.resolve_to_identifier(a), Err(NetError::NotFound));
    assert_eq!(reg.resolve_to_identifier(b), Err(NetError::NotFound));
    assert_eq!(reg.resolve_to_identifier(c), Ok(ic));
}

#[test]
fn new_attack_randomizes_cooldown() {
    let t = Handle { index: 0, generation: 0 };
    let a = MobAttackAction::new(t, MobAttackType::SlowMelee { cooldown_millis: 2000 }, 100);
    assert_eq!(a.target, t);
    match a.attack_type {
        MobAttackType::SlowMelee { cooldown_millis } => assert!((1800..=2200).contains(&cooldown_millis)),
        other => panic!("unexpected {:?}", other),
    }
    assert_eq!(MobAttackAction::new(t, MobAttackType::Range, 100).attack_type, MobAttackType::Range);
}

#[test]
fn clock_splits_wall_time_into_ticks() {
    let c = FrameClock::new(16);
    assert_eq!(c.ticks_due(50), (3, 2));
    assert_eq!(c.ticks_due(15), (0, 15));
}
