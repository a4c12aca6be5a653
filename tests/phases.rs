use lice_core::game::{scenery_props, Game, PropKind, DANDRUFF_COUNT, ROOT_Y};
use lice_core::hair::{FLAKES_PER_SEGMENT, FLAKE_HITBOX};
use lice_core::geometry::{CollisionEvent, Point, Velocity};
use lice_core::hair::SegmentKind;
use lice_core::launch::{Cue, MouseAction};
use lice_core::louse::LouseType;
use lice_core::states::{
    advance, animate_dance_lice, clear_state_system, quit_game_system, start_credits_system,
    start_game_system, start_gameover_system, start_instructions_system, start_main_menu_system,
    start_victory_system, phase_audio, AnimationTimer, AppStateComponent, AppStates, Channel,
    Command, Keys, Track,
};

fn no_keys() -> Keys {
    Keys { start: false, credits: false, menu: false, quit: false, lose: false, win: false }
}

fn game_in_play() -> Game {
    let mut g = Game::new();
    g.change_state(AppStates::Game, 4);
    g
}

#[test]
fn key_systems() {
    let start = Keys { start: true, ..no_keys() };
    assert_eq!(start_game_system(&start), Some(AppStates::LoadingGame));
    assert_eq!(start_game_system(&no_keys()), None);
    assert_eq!(start_instructions_system(&start), Some(AppStates::Instructions));
    assert_eq!(start_credits_system(&Keys { credits: true, ..no_keys() }), Some(AppStates::Credits));
    assert_eq!(start_main_menu_system(&Keys { menu: true, ..no_keys() }), Some(AppStates::MainMenu));
    assert_eq!(start_gameover_system(&Keys { lose: true, ..no_keys() }), Some(AppStates::GameOver));
    assert_eq!(start_victory_system(&Keys { win: true, ..no_keys() }), Some(AppStates::Victory));
    assert!(quit_game_system(&Keys { quit: true, ..no_keys() }));
    assert!(!quit_game_system(&start));
}

#[test]
fn phase_machine_paths() {
    let k = no_keys();
    assert_eq!(advance(AppStates::LoadingMainMenu, &k, false, false, false), Command::Stay);
    assert_eq!(advance(AppStates::LoadingMainMenu, &k, true, false, false), Command::Go(AppStates::MainMenu));
    let start = Keys { start: true, ..k };
    assert_eq!(advance(AppStates::MainMenu, &start, false, false, false), Command::Go(AppStates::Instructions));
    assert_eq!(advance(AppStates::Instructions, &start, false, false, false), Command::Go(AppStates::LoadingGame));
    assert_eq!(advance(AppStates::LoadingGame, &k, true, false, false), Command::Go(AppStates::Game));
    assert_eq!(advance(AppStates::Game, &k, false, false, false), Command::Stay);
    assert_eq!(advance(AppStates::Victory, &start, false, false, false), Command::Go(AppStates::LoadingGame));
    assert_eq!(advance(AppStates::GameOver, &start, false, false, false), Command::Go(AppStates::LoadingGame));
    assert_eq!(advance(AppStates::Credits, &Keys { menu: true, ..k }, false, false, false), Command::Go(AppStates::MainMenu));
    assert_eq!(advance(AppStates::MainMenu, &Keys { credits: true, ..k }, false, false, false), Command::Go(AppStates::Credits));
    assert_eq!(advance(AppStates::MainMenu, &Keys { quit: true, start: true, ..k }, false, false, false), Command::Quit);
}

#[test]
fn victory_comes_before_defeat() {
    let k = no_keys();
    assert_eq!(advance(AppStates::Game, &k, false, true, true), Command::Go(AppStates::Victory));
    assert_eq!(advance(AppStates::Game, &k, false, false, true), Command::Go(AppStates::GameOver));
    assert_eq!(advance(AppStates::Game, &Keys { lose: true, win: true, ..k }, false, false, false), Command::Go(AppStates::Victory));
}

#[test]
fn leaving_a_phase_clears_its_entities() {
    let tagged = vec![
        (1, AppStateComponent(AppStates::Game)),
        (2, AppStateComponent(AppStates::MainMenu)),
        (3, AppStateComponent(AppStates::Game)),
    ];
    assert_eq!(clear_state_system(&tagged, AppStates::Game), vec![1, 3]);
    assert_eq!(clear_state_system(&tagged, AppStates::MainMenu), vec![2]);
    assert!(clear_state_system(&tagged, AppStates::Victory).is_empty());
}

#[test]
fn dance_frames_loop() {
    let mut t = AnimationTimer::new();
    assert_eq!(animate_dance_lice(&mut t, 0, 4, 50), 0);
    assert_eq!(animate_dance_lice(&mut t, 0, 4, 50), 1);
    assert_eq!(animate_dance_lice(&mut t, 3, 4, 100), 0);
}

#[test]
fn entering_a_game_builds_the_level() {
    let g = game_in_play();
    assert_eq!(g.state, AppStates::Game);
    assert_eq!(g.level.louse_queue.len(), 18);
    assert_eq!(g.level.lose_timer.elapsed, 0);
    let roots = g.hairs.segments.iter().filter(|s| s.kind == SegmentKind::Root).count();
    assert_eq!(roots, 4);
    assert_eq!(g.chunks.len(), DANDRUFF_COUNT as usize);
    assert!(g.lice.is_empty());
}

#[test]
fn leaving_a_game_clears_it() {
    let mut g = game_in_play();
    g.change_state(AppStates::Victory, 4);
    assert_eq!(g.state, AppStates::Victory);
    assert!(g.hairs.segments.is_empty());
    assert!(g.hairs.joints.is_empty());
    assert!(g.chunks.is_empty());
    assert!(g.lice.is_empty());
}

#[test]
fn fling_puts_a_louse_in_play() {
    let mut g = game_in_play();
    let out = g.fling(MouseAction::Press, Some(Point { x: -400_000, y: 0 }));
    assert_eq!(out.cue, Some(Cue::Pull));
    let out = g.fling(MouseAction::Release, Some(Point { x: -410_000, y: 0 }));
    assert_eq!(out.cue, Some(Cue::Release));
    assert_eq!(g.lice.len(), 1);
    assert_eq!(g.lice[0].velocity, Velocity { x: 70_000, y: 0 });
    assert_eq!(g.lice[0].louse_type, LouseType::Basic);
    assert_eq!(g.level.louse_queue.len(), 17);
}

#[test]
fn fallen_segment_bursts_into_ten_flakes() {
    let mut g = game_in_play();
    g.fling(MouseAction::Press, Some(Point { x: -400_000, y: 0 }));
    g.fling(MouseAction::Release, Some(Point { x: -410_000, y: 0 }));
    let louse = g.lice[0].entity;
    // a tip has 400 units of health: speed 800 takes all of it
    g.set_louse_motion(0, Point { x: 0, y: 0 }, Velocity { x: 800_000, y: 0 });
    let tip = g.hairs.segments.iter().find(|s| s.kind == SegmentKind::Tip).copied().unwrap();
    let segments_before = g.hairs.segments.len();
    let chunks_before = g.chunks.len();
    let r = g.play_tick(&vec![CollisionEvent::Stopped(louse, tip.entity)], 16, &no_keys(), 2);
    assert_eq!(r.fallen.len(), 1);
    assert_eq!(r.fallen[0].entity, tip.entity);
    assert_eq!(r.flakes.len(), 1);
    assert_eq!(r.flakes[0].len(), FLAKES_PER_SEGMENT as usize);
    assert!(r.flakes[0].iter().all(|c| c.position == tip.position && c.hitbox == FLAKE_HITBOX));
    assert_eq!(g.hairs.segments.len(), segments_before - 1);
    assert_eq!(g.chunks.len(), chunks_before + 10);
    assert!(g.hairs.segments.iter().all(|s| s.entity != tip.entity));
    assert_eq!(r.command, Command::Stay);
}

#[test]
fn last_root_falling_wins_in_the_same_tick() {
    let mut g = game_in_play();
    let roots: Vec<u64> = g.hairs.segments.iter().filter(|s| s.kind == SegmentKind::Root).map(|s| s.entity).collect();
    g.fling(MouseAction::Press, Some(Point { x: -400_000, y: 0 }));
    g.fling(MouseAction::Release, Some(Point { x: -410_000, y: 0 }));
    let louse = g.lice[0].entity;
    // a root has 500 units of health: speed 1000 takes all of it
    g.set_louse_motion(0, Point { x: 0, y: 0 }, Velocity { x: 0, y: 1_000_000 });
    let events: Vec<CollisionEvent> = roots.iter().map(|r| CollisionEvent::Stopped(*r, louse)).collect();
    let r = g.play_tick(&events, 16, &no_keys(), 2);
    assert_eq!(r.fallen.len(), 4);
    assert_eq!(r.command, Command::Go(AppStates::Victory));
}

#[test]
fn out_of_lice_loses_after_the_grace_time() {
    let mut g = game_in_play();
    g.level.louse_queue.clear();
    let r = g.play_tick(&vec![], 1000, &no_keys(), 2);
    assert!(!r.lost);
    assert_eq!(r.command, Command::Stay);
    let r = g.play_tick(&vec![], 1000, &no_keys(), 2);
    assert!(r.lost);
    assert_eq!(r.command, Command::Go(AppStates::GameOver));
}

#[test]
fn phase_changes_stop_and_start_music() {
    let a = phase_audio(AppStates::Game, AppStates::Victory);
    assert_eq!(a.stop, Some(Channel::GameMusic));
    assert_eq!(
        a.play,
        vec![(Channel::SoundEffects, Track::Celebration), (Channel::MenuMusic, Track::MenuMusic)]
    );
    let a = phase_audio(AppStates::MainMenu, AppStates::Instructions);
    assert_eq!(a.stop, Some(Channel::MenuMusic));
    assert!(a.play.is_empty());
    let a = phase_audio(AppStates::LoadingGame, AppStates::Game);
    assert_eq!(a.stop, None);
    assert_eq!(a.play, vec![(Channel::GameMusic, Track::GameMusic)]);
    let mut g = Game::new();
    let a = g.change_state(AppStates::MainMenu, 4);
    assert_eq!(a.stop, None);
    assert_eq!(a.play, vec![(Channel::MenuMusic, Track::MenuMusic)]);
}

#[test]
fn level_has_its_scenery_and_strands_in_place() {
    let g = game_in_play();
    assert_eq!(g.props, scenery_props());
    assert_eq!(g.props.len(), 8);
    assert_eq!(g.props[0].kind, PropKind::FireLine);
    assert_eq!(g.props[0].position.x, lice_core::launch::FIRE_LINE);
    assert!(g.props.iter().all(|p| p.state == AppStates::Game));
    let roots: Vec<(i32, i32)> = g
        .hairs
        .segments
        .iter()
        .filter(|s| s.kind == SegmentKind::Root)
        .map(|s| (s.position.x, s.position.y))
        .collect();
    assert_eq!(roots, vec![(0, ROOT_Y), (350_000, ROOT_Y), (170_000, ROOT_Y), (-190_000, ROOT_Y)]);
    assert!(g.hairs.segments.iter().all(|s| s.state == AppStates::Game));
    // entity numbers run on from the strands to the dandruff
    let ids: Vec<u64> = g.hairs.segments.iter().map(|s| s.entity).chain(g.chunks.iter().map(|c| c.entity)).collect();
    assert_eq!(ids, (0..ids.len() as u64).collect::<Vec<u64>>());
    let mut g = g;
    g.change_state(AppStates::GameOver, 4);
    assert!(g.props.is_empty());
}
