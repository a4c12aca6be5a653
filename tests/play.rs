use lice_core::chunks::{
    chunk_system, spawn_chunk, spawn_chunk_explosion, ChunkComponent, BURST_X_MAX, BURST_X_MIN,
    BURST_Y_MAX, BURST_Y_MIN, CHUNK_SCALE_MAX, CHUNK_SCALE_MIN, CHUNK_SPIN,
};
use lice_core::geometry::{CollisionEvent, Point, Velocity};
use lice_core::launch::{fling_louse_system, Cue, FlingOutcome, LaunchResource, MouseAction};
use lice_core::level::{lose_system, LevelResource, LOSE_TIME};
use lice_core::louse::{
    louse_behavior_system, spawn_louse, LouseComponent, LouseType, SpawnLouseEvent, LOUSE_DAMAGE,
    LOUSE_SPIN,
};
use lice_core::timer::{Timer, TimerMode};
use lice_core::ui::game_ui_system;

fn resting_louse(entity: u64) -> LouseComponent {
    let event = SpawnLouseEvent {
        position: Point { x: 0, y: 0 },
        velocity: Velocity { x: 0, y: 0 },
        louse_type: LouseType::Basic,
    };
    LouseComponent::new(entity, &event, 0)
}

#[test]
fn once_timer_finishes_once() {
    let mut t = Timer::new(3000, TimerMode::Once);
    t.tick(2999);
    assert!(!t.just_finished);
    t.tick(1);
    assert!(t.just_finished);
    assert!(t.finished());
    t.tick(5000);
    assert!(!t.just_finished);
    assert_eq!(t.elapsed, 3000);
    t.reset();
    assert_eq!(t.elapsed, 0);
    assert!(!t.finished());
}

#[test]
fn repeating_timer_wraps() {
    let mut t = Timer::new(100, TimerMode::Repeating);
    t.tick(250);
    assert!(t.just_finished);
    assert_eq!(t.elapsed, 50);
    t.tick(40);
    assert!(!t.just_finished);
    assert_eq!(t.elapsed, 90);
    t.tick(u64::MAX);
    assert!(t.just_finished);
    assert_eq!(t.elapsed, ((90u128 + u64::MAX as u128) % 100) as u64);
}

#[test]
fn resting_louse_leaves_after_three_seconds() {
    let mut lice = vec![resting_louse(1)];
    for _ in 0..29 {
        let gone = louse_behavior_system(&mut lice, 100);
        assert!(gone.is_empty());
    }
    assert_eq!(lice[0].despawn_timer.elapsed, 2900);
    let gone = louse_behavior_system(&mut lice, 100);
    assert_eq!(gone.len(), 1);
    assert_eq!(gone[0].entity, 1);
    assert!(lice.is_empty());
}

#[test]
fn moving_again_starts_the_idle_count_over() {
    let mut lice = vec![resting_louse(1), resting_louse(2)];
    louse_behavior_system(&mut lice, 2000);
    assert_eq!(lice[0].despawn_timer.elapsed, 2000);
    lice[0].set_motion(Point { x: 0, y: 0 }, Velocity { x: 6_000, y: 0 });
    louse_behavior_system(&mut lice, 500);
    assert_eq!(lice[0].despawn_timer.elapsed, 0);
    lice[0].set_motion(Point { x: 0, y: 0 }, Velocity { x: 0, y: 0 });
    // at the first louse's old deadline only the second one leaves
    let gone = louse_behavior_system(&mut lice, 500);
    assert_eq!(gone.len(), 1);
    assert_eq!(gone[0].entity, 2);
    assert_eq!(lice.len(), 1);
    assert_eq!(lice[0].entity, 1);
    assert_eq!(lice[0].despawn_timer.elapsed, 500);
}

#[test]
fn spawned_louse_takes_the_request() {
    let event = SpawnLouseEvent {
        position: Point { x: -400_000, y: 10 },
        velocity: Velocity { x: 7, y: -14 },
        louse_type: LouseType::Exploding,
    };
    let l = spawn_louse(9, &event);
    assert_eq!(l.entity, 9);
    assert_eq!(l.louse_type, LouseType::Exploding);
    assert_eq!(l.position, event.position);
    assert_eq!(l.velocity, event.velocity);
    assert_eq!(l.damage, LOUSE_DAMAGE);
    assert!(l.spin >= -LOUSE_SPIN && l.spin <= LOUSE_SPIN);
}

#[test]
fn full_queue_and_next_louse() {
    let mut level = LevelResource::new();
    assert_eq!(level.louse_queue.len(), 18);
    assert_eq!(level.next_louse(), Some(LouseType::Basic));
    assert_eq!(level.next_louse(), Some(LouseType::Exploding));
    assert_eq!(level.louse_queue.len(), 16);
}

#[test]
fn defeat_after_two_quiet_seconds() {
    let mut level = LevelResource::new();
    level.louse_queue.clear();
    assert!(!lose_system(&mut level, 0, 1999));
    assert!(lose_system(&mut level, 0, 1));
    assert_eq!(level.lose_timer.elapsed, LOSE_TIME);
}

#[test]
fn louse_in_play_resets_the_defeat_timer() {
    let mut level = LevelResource::new();
    level.louse_queue.clear();
    assert!(!lose_system(&mut level, 0, 1500));
    assert!(!lose_system(&mut level, 1, 16));
    assert_eq!(level.lose_timer.elapsed, 0);
    assert!(!lose_system(&mut level, 0, 1500));
    assert!(lose_system(&mut level, 0, 500));
}

#[test]
fn no_defeat_while_lice_are_queued() {
    let mut level = LevelResource::new();
    for _ in 0..10 {
        assert!(!lose_system(&mut level, 0, 1000));
    }
    assert_eq!(level.lose_timer.elapsed, 0);
}

#[test]
fn press_and_release_behind_the_line_launch() {
    let mut level = LevelResource::new();
    let mut launch = LaunchResource::new();
    let press = fling_louse_system(&mut launch, &mut level, MouseAction::Press, Some(Point { x: -400_000, y: 0 }));
    assert_eq!(press.cue, Some(Cue::Pull));
    assert_eq!(launch.initial_position, Some(Point { x: -400_000, y: 0 }));
    let out = fling_louse_system(&mut launch, &mut level, MouseAction::Release, Some(Point { x: -450_000, y: -20_000 }));
    assert_eq!(out.cue, Some(Cue::Release));
    let spawn = out.spawn.unwrap();
    assert_eq!(spawn.position, Point { x: -450_000, y: -20_000 });
    assert_eq!(spawn.velocity, Velocity { x: 350_000, y: 140_000 });
    assert_eq!(spawn.louse_type, LouseType::Basic);
    assert_eq!(level.louse_queue.len(), 17);
    assert_eq!(launch.initial_position, None);
}

#[test]
fn release_past_the_line_keeps_the_louse() {
    let mut level = LevelResource::new();
    let mut launch = LaunchResource::new();
    fling_louse_system(&mut launch, &mut level, MouseAction::Press, Some(Point { x: -400_000, y: 0 }));
    let out = fling_louse_system(&mut launch, &mut level, MouseAction::Release, Some(Point { x: -300_000, y: 0 }));
    assert_eq!(out, FlingOutcome { cue: Some(Cue::Rejected), spawn: None });
    assert_eq!(level.louse_queue.len(), 18);
    assert_eq!(launch.initial_position, None);
}

#[test]
fn press_past_the_line_or_off_screen_is_refused() {
    let mut level = LevelResource::new();
    let mut launch = LaunchResource::new();
    let out = fling_louse_system(&mut launch, &mut level, MouseAction::Press, Some(Point { x: 0, y: 0 }));
    assert_eq!(out.cue, Some(Cue::Rejected));
    assert_eq!(launch.initial_position, None);
    let out = fling_louse_system(&mut launch, &mut level, MouseAction::Press, None);
    assert_eq!(out.cue, Some(Cue::Rejected));
    assert_eq!(launch.initial_position, None);
    let out = fling_louse_system(&mut launch, &mut level, MouseAction::Release, Some(Point { x: -500_000, y: 0 }));
    assert_eq!(out, FlingOutcome { cue: None, spawn: None });
    assert_eq!(level.louse_queue.len(), 18);
}

#[test]
fn press_with_empty_queue_is_refused() {
    let mut level = LevelResource::new();
    level.louse_queue.clear();
    let mut launch = LaunchResource::new();
    let out = fling_louse_system(&mut launch, &mut level, MouseAction::Press, Some(Point { x: -400_000, y: 0 }));
    assert_eq!(out.cue, Some(Cue::Rejected));
    assert_eq!(launch.initial_position, None);
}

#[test]
fn release_off_screen_drops_the_drag() {
    let mut level = LevelResource::new();
    let mut launch = LaunchResource::new();
    fling_louse_system(&mut launch, &mut level, MouseAction::Press, Some(Point { x: -400_000, y: 0 }));
    let out = fling_louse_system(&mut launch, &mut level, MouseAction::Release, None);
    assert_eq!(out, FlingOutcome { cue: Some(Cue::Rejected), spawn: None });
    assert_eq!(launch.initial_position, None);
    assert_eq!(level.louse_queue.len(), 18);
}

#[test]
fn explosion_makes_the_asked_number_of_chunks() {
    let at = Point { x: 12, y: -34 };
    let chunks = spawn_chunk_explosion(100, 3, at, 10, 500);
    assert_eq!(chunks.len(), 10);
    for (i, c) in chunks.iter().enumerate() {
        assert_eq!(c.entity, 100 + i as u64);
        assert_eq!(c.position, at);
        assert_eq!(c.hitbox, 500);
        assert!(c.sprite < 3);
        assert!(c.velocity.x >= BURST_X_MIN && c.velocity.x <= BURST_X_MAX);
        assert!(c.velocity.y >= BURST_Y_MIN && c.velocity.y <= BURST_Y_MAX);
        assert!(c.scale >= CHUNK_SCALE_MIN && c.scale <= CHUNK_SCALE_MAX);
        assert!(c.spin >= -CHUNK_SPIN && c.spin <= CHUNK_SPIN);
    }
    assert!(spawn_chunk_explosion(0, 1, at, 0, 500).is_empty());
}

#[test]
fn lice_eat_the_chunks_they_touch() {
    let v = Velocity { x: 0, y: -10_000 };
    let mut chunks: Vec<ChunkComponent> =
        (0..3).map(|i| spawn_chunk(10 + i, 1, Point { x: 0, y: 0 }, v, 10_000)).collect();
    let lice = vec![resting_louse(1)];
    let events = vec![
        CollisionEvent::Started(11, 1),
        CollisionEvent::Stopped(1, 12),
        CollisionEvent::Started(10, 99),
    ];
    let eaten = chunk_system(&mut chunks, &lice, &events);
    assert_eq!(eaten, 1);
    let left: Vec<u64> = chunks.iter().map(|c| c.entity).collect();
    assert_eq!(left, vec![10, 12]);
}

#[test]
fn icons_show_the_next_louse_first() {
    let queue = vec![LouseType::Basic, LouseType::Exploding, LouseType::Basic, LouseType::Exploding];
    let icons = game_ui_system(&queue);
    let kinds: Vec<LouseType> = icons.iter().map(|i| i.louse_type).collect();
    assert_eq!(kinds, vec![LouseType::Exploding, LouseType::Basic, LouseType::Exploding, LouseType::Basic]);
    let lefts: Vec<u128> = icons.iter().map(|i| i.left).collect();
    assert_eq!(lefts, vec![30, 60, 90, 120]);
    assert!(game_ui_system(&vec![]).is_empty());
}

#[test]
fn defeat_window_counts_from_the_last_louse() {
    let mut level = LevelResource::new();
    level.louse_queue.clear();
    assert!(!lose_system(&mut level, 0, 1500));
    assert!(!lose_system(&mut level, 1, 16));
    assert!(!lose_system(&mut level, 0, 1000));
    assert_eq!(level.lose_timer.elapsed, 1000);
    assert!(!lose_system(&mut level, 0, 999));
    assert!(lose_system(&mut level, 0, 1));
}
