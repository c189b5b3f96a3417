use shooter_ai::{
    ai_blueprint, ai_fire, ai_move, choose_attacker, discharge_toward, first_candidate,
    handle_clicks_to_fire, handle_mouse_to_move, ready_attackers, spawn_ais, update_spawn_interval,
    AiBlueprint, Attacker, Cooldown, Point, RepeatingTimer, RestartingTimer, SpawnPacing, Weapon,
    ARENA_HALF_HEIGHT, ARENA_HALF_WIDTH, FIRE_PERIOD, GROWTH_PERIOD, WANDER_PERIOD,
};

fn attacker(x: i64, y: i64, start: u64) -> Attacker {
    Attacker {
        position: Point::new(x, y),
        team: 1,
        cooldown: Cooldown::new(start, 2_000_000),
        weapon: Weapon { bullets: 3, max: 360, spread: 60 },
    }
}

#[test]
fn repeating_timer_keeps_overshoot() {
    let mut t = RepeatingTimer::new(1_000);
    assert!(!t.tick(600));
    assert_eq!(t.elapsed, 600);
    assert!(t.tick(600));
    assert_eq!(t.elapsed, 200);
    assert!(t.tick(2_900));
    assert_eq!(t.elapsed, 100);
    assert!(!t.tick(0));
}

#[test]
fn repeating_timer_fires_at_exact_period() {
    let mut t = RepeatingTimer::new(WANDER_PERIOD);
    assert!(!t.tick(WANDER_PERIOD - 1));
    assert!(t.tick(1));
    assert_eq!(t.elapsed, 0);
}

#[test]
fn restarting_timer_fires_first_then_waits() {
    let mut t = RestartingTimer::new();
    assert!(t.tick(16_000, 5_000_000));
    assert_eq!(t, RestartingTimer { period: 5_000_000, elapsed: 0 });
    assert!(!t.tick(4_000_000, 1));
    assert!(t.tick(1_500_000, 3_000_000));
    assert_eq!(t, RestartingTimer { period: 3_000_000, elapsed: 0 });
}

#[test]
fn ready_attackers_lists_ready_in_order() {
    let a = vec![attacker(0, 0, 0), attacker(0, 0, 5_000_000), attacker(0, 0, 1_000_000)];
    assert_eq!(ready_attackers(&a, 3_000_000), vec![0, 2]);
    assert_eq!(ready_attackers(&a, 1_000_000), Vec::<usize>::new());
    assert_eq!(ready_attackers(&Vec::new(), 1), Vec::<usize>::new());
}

#[test]
fn first_candidate_takes_head() {
    assert_eq!(first_candidate(&vec![4, 1, 2]), Some(4));
    assert_eq!(first_candidate(&Vec::new()), None);
}

#[test]
fn choose_attacker_only_from_ready_and_roughly_uniform() {
    let a = vec![attacker(0, 0, 0), attacker(0, 0, 0), attacker(0, 0, 9_000_000), attacker(0, 0, 0)];
    let mut counts = [0usize; 4];
    for _ in 0..3_000 {
        let i = choose_attacker(&a, 3_000_000).expect("some attacker is ready");
        counts[i] += 1;
    }
    assert_eq!(counts[2], 0);
    for i in [0, 1, 3] {
        assert!(counts[i] > 700, "counts {:?}", counts);
    }
}

#[test]
fn choose_attacker_none_ready() {
    let a = vec![attacker(0, 0, 9_000_000)];
    assert_eq!(choose_attacker(&a, 3_000_000), None);
    assert_eq!(choose_attacker(&Vec::new(), 3_000_000), None);
}

#[test]
fn ai_fire_one_discharge_per_period() {
    let a = vec![attacker(10, 0, 0), attacker(20, 0, 9_000_000), attacker(30, 0, 0)];
    let mut t = RepeatingTimer::new(FIRE_PERIOD);
    let reference = Some(Point::new(100, 100));
    let jitter = Point::new(5, -5);
    assert_eq!(ai_fire(&mut t, 500_000, 3_000_000, &a, reference, jitter), None);
    let q = ai_fire(&mut t, 500_000, 3_000_000, &a, reference, jitter).expect("timer completed");
    assert!(q.attacker == 0 || q.attacker == 2);
    let origin = a[q.attacker].position;
    assert_eq!(q.origin, origin);
    assert_eq!(q.aim, Point::new(105 - origin.x, 95));
    assert_eq!(q.now, 3_000_000);
    assert_eq!(q.bullets, 3);
    assert_eq!(q.spread, 60);
    assert_eq!(q.team, 1);
    assert_eq!(q.cooldown, a[q.attacker].cooldown);
}

#[test]
fn ai_fire_without_reference_or_ready_does_nothing() {
    let a = vec![attacker(10, 0, 0)];
    let mut t = RepeatingTimer::new(FIRE_PERIOD);
    assert_eq!(ai_fire(&mut t, FIRE_PERIOD, 3_000_000, &a, None, Point::new(0, 0)), None);
    let b = vec![attacker(10, 0, 2_000_000)];
    assert_eq!(ai_fire(&mut t, FIRE_PERIOD, 3_000_000, &b, Some(Point::new(0, 0)), Point::new(0, 0)), None);
}

#[test]
fn degenerate_aim_is_zero_vector() {
    let a = attacker(7, -3, 0);
    let q = discharge_toward(4, &a, &Point::new(7, -3), 12);
    assert_eq!(q.aim, Point::new(0, 0));
    assert_eq!(q.attacker, 4);
}

#[test]
fn ai_move_retargets_around_reference() {
    let mut t = RepeatingTimer::new(WANDER_PERIOD);
    let mut intents = vec![None, Some(Point::new(1, 1))];
    let offsets = vec![Point::new(200_000, 0), Point::new(0, -200_000)];
    ai_move(&mut t, WANDER_PERIOD, &mut intents, Some(Point::new(10, 20)), &offsets);
    assert_eq!(intents, vec![Some(Point::new(200_010, 20)), Some(Point::new(10, -199_980))]);
}

#[test]
fn ai_move_waits_for_period() {
    let mut t = RepeatingTimer::new(WANDER_PERIOD);
    let mut intents = vec![None];
    ai_move(&mut t, 1_000_000, &mut intents, Some(Point::new(0, 0)), &vec![Point::new(1, 1)]);
    assert_eq!(intents, vec![None]);
}

#[test]
fn ai_move_without_reference_leaves_intents() {
    let mut t = RepeatingTimer::new(WANDER_PERIOD);
    let before = vec![Some(Point::new(3, 4)), None, Some(Point::new(-5, 6))];
    let mut intents = before.clone();
    let offsets = vec![Point::new(1, 1); 3];
    ai_move(&mut t, WANDER_PERIOD * 2, &mut intents, None, &offsets);
    assert_eq!(intents, before);
}

#[test]
fn spawn_ais_first_tick_spawns_inside_area() {
    let pacing = SpawnPacing::new(3_000_000, 9, 10);
    let mut t = RestartingTimer::new();
    let b = spawn_ais(&mut t, 16_000, &pacing).expect("first tick spawns");
    assert!(-ARENA_HALF_WIDTH <= b.position.x && b.position.x < ARENA_HALF_WIDTH);
    assert!(-ARENA_HALF_HEIGHT <= b.position.y && b.position.y < ARENA_HALF_HEIGHT);
    assert_eq!(b, ai_blueprint(b.position));
    assert_eq!(t, RestartingTimer { period: 3_000_000, elapsed: 0 });
    assert!(spawn_ais(&mut t, 2_000_000, &pacing).is_none());
    assert!(spawn_ais(&mut t, 1_000_000, &pacing).is_some());
}

#[test]
fn spawn_positions_vary() {
    let pacing = SpawnPacing::new(0, 1, 1);
    let mut t = RestartingTimer::new();
    let mut xs = Vec::new();
    for _ in 0..50 {
        xs.push(spawn_ais(&mut t, 1, &pacing).expect("zero interval spawns every tick").position.x);
    }
    assert!(xs.iter().any(|x| *x != xs[0]));
}

#[test]
fn blueprint_is_fixed() {
    let b = ai_blueprint(Point::new(1, 2));
    assert_eq!(
        b,
        AiBlueprint {
            position: Point::new(1, 2),
            move_speed: 100_000,
            move_target: Some(Point::new(200_000, 200_000)),
            health_current: 1,
            health_max: 1,
            weapon: Weapon { bullets: 1, max: 360, spread: 360 },
            cooldown: Cooldown::new(0, 2_000_000),
            team: 1,
        }
    );
    assert!(b.cooldown.is_ready(2_000_000));
}

#[test]
fn spawn_interval_compounds() {
    let mut pacing = SpawnPacing::new(8_000_000, 1, 2);
    let mut t = RepeatingTimer::new(GROWTH_PERIOD);
    assert!(!update_spawn_interval(&mut t, 3_000_000, &mut pacing));
    assert_eq!(pacing.interval, 8_000_000);
    for _ in 0..3 {
        assert!(update_spawn_interval(&mut t, GROWTH_PERIOD, &mut pacing));
    }
    assert_eq!(pacing.interval, 1_000_000);
}

#[test]
fn spawn_interval_rounds_down() {
    let mut pacing = SpawnPacing::new(1_000, 9, 10);
    pacing.grow();
    assert_eq!(pacing.interval, 900);
    let mut p = SpawnPacing::new(7, 1, 2);
    p.grow();
    assert_eq!(p.interval, 3);
    let mut q = SpawnPacing::new(u64::MAX, u64::MAX, u64::MAX);
    q.grow();
    assert_eq!(q.interval, u64::MAX);
}

#[test]
fn pointer_release_clears_intent() {
    let mut intents = vec![None];
    handle_mouse_to_move(true, Some(Point::new(40, -10)), &mut intents);
    assert_eq!(intents, vec![Some(Point::new(40, -10))]);
    handle_mouse_to_move(false, Some(Point::new(40, -10)), &mut intents);
    assert_eq!(intents, vec![None]);
}

#[test]
fn pointer_held_without_world_point_is_noop() {
    let mut intents = vec![Some(Point::new(1, 2))];
    handle_mouse_to_move(true, None, &mut intents);
    assert_eq!(intents, vec![Some(Point::new(1, 2))]);
}

#[test]
fn clicks_fire_toward_pointer() {
    let players = vec![attacker(10, 10, 0)];
    let r = handle_clicks_to_fire(true, Some(Point::new(20, 0)), 5, &players);
    assert_eq!(r.len(), 1);
    assert_eq!(r[0].aim, Point::new(10, -10));
    assert_eq!(r[0].origin, Point::new(10, 10));
    assert_eq!(r[0].now, 5);
    assert!(handle_clicks_to_fire(false, Some(Point::new(20, 0)), 5, &players).is_empty());
    assert!(handle_clicks_to_fire(true, None, 5, &players).is_empty());
}
