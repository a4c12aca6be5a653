use lice_core::geometry::{isqrt, speed, CollisionEvent, Point, Velocity};
use lice_core::hair::{
    build_hair, check_roots_system, hair_from_draw, hair_system, spawn_hair, take_hits, Hair,
    HairWorld, SegmentKind, FIRST_ANCHOR, FLAKES_PER_SEGMENT, FLAKE_HITBOX, LAST_JOINT_BOTTOM, MID_HEALTH, ROOT_HEALTH, TIP_HEALTH,
    WIDE_FIRST_ANCHOR,
};
use lice_core::louse::{LouseComponent, LouseType, SpawnLouseEvent};

fn louse(entity: u64, vx: i64, vy: i64) -> LouseComponent {
    let event = SpawnLouseEvent {
        position: Point { x: 0, y: 0 },
        velocity: Velocity { x: vx, y: vy },
        louse_type: LouseType::Basic,
    };
    LouseComponent::new(entity, &event, 0)
}

fn world_of(h: Hair) -> HairWorld {
    let mut w = HairWorld::new();
    w.add_hair(h);
    w
}

#[test]
fn integer_square_roots() {
    assert_eq!(isqrt(0), 0);
    assert_eq!(isqrt(1), 1);
    assert_eq!(isqrt(99), 9);
    assert_eq!(isqrt(100), 10);
    assert_eq!(isqrt(u128::MAX), u64::MAX);
    assert_eq!(speed(Velocity { x: 30_000, y: -40_000 }), 50_000);
    assert_eq!(speed(Velocity { x: i64::MIN, y: i64::MIN }), 13_043_817_825_332_782_212);
}

#[test]
fn no_middle_segments_gives_root_and_tip_with_wide_anchor() {
    let h = hair_from_draw(Point { x: 5_000, y: -130_000 }, 100, 7);
    assert_eq!(h.segments.len(), 2);
    assert_eq!(h.joints.len(), 1);
    assert_eq!(h.segments[0].kind, SegmentKind::Root);
    assert_eq!(h.segments[1].kind, SegmentKind::Tip);
    assert_eq!(h.joints[0].child_anchor, WIDE_FIRST_ANCHOR);
    assert_eq!(h.joints[0].parent, 7);
    assert_eq!(h.joints[0].child, 8);
    assert_eq!(h.segments[0].hair.health, ROOT_HEALTH);
    assert_eq!(h.segments[1].hair.health, TIP_HEALTH);
    assert_eq!(h.segments[1].position, Point { x: 5_000, y: -130_000 + 82_000 });
    assert_eq!(h.segments[1].radius, 9_100);
}

#[test]
fn three_middle_segments_get_thinner() {
    // the square root of 49 is 7, which leaves 3 middle segments
    let h = hair_from_draw(Point { x: 0, y: 0 }, 49, 0);
    assert_eq!(h.segments.len(), 5);
    assert_eq!(h.joints.len(), 4);
    let radii: Vec<u64> = h.segments.iter().map(|s| s.radius).collect();
    assert_eq!(radii, vec![14_000, 9_100, 5_915, 3_844, 2_498]);
    for w in radii.windows(2) {
        assert!(w[1] < w[0]);
    }
    let stiffness: Vec<u64> = h.joints.iter().map(|j| j.stiffness).collect();
    assert_eq!(stiffness, vec![500_000, 700_000, 980_000, 1_372_000]);
    assert_eq!(h.joints[0].child_anchor, FIRST_ANCHOR);
    assert_eq!(h.joints[3].child_anchor, LAST_JOINT_BOTTOM);
    assert_eq!(h.segments[1].hair.health, MID_HEALTH);
    assert_eq!(h.segments[3].position.y, 64_000 + 2 * 60_000);
    assert_eq!(h.segments[4].position.y, 82_000 + 3 * 60_000);
}

#[test]
fn build_hair_matches_draws() {
    let a = build_hair(Point { x: 0, y: 0 }, 3, 0);
    let b = hair_from_draw(Point { x: 0, y: 0 }, 63, 0);
    assert_eq!(a.segments, b.segments);
    assert_eq!(a.joints, b.joints);
}

#[test]
fn random_hair_has_between_two_and_twelve_segments() {
    for _ in 0..50 {
        let h = spawn_hair(Point { x: 0, y: -130_000 }, 0);
        assert!(h.segments.len() >= 2 && h.segments.len() <= 12);
        assert_eq!(h.joints.len() + 1, h.segments.len());
        assert_eq!(h.segments[0].kind, SegmentKind::Root);
    }
}

#[test]
fn fast_stop_deals_half_the_speed() {
    let h = build_hair(Point { x: 0, y: 0 }, 1, 100);
    let mut seg = h.segments[1];
    let lice = vec![louse(1, 30_000, 40_000)];
    let events = vec![CollisionEvent::Stopped(1, 101)];
    take_hits(&mut seg, &lice, &events);
    assert_eq!(seg.hair.health, MID_HEALTH - 25_000);
    assert!(!seg.hair.broken);
}

#[test]
fn either_order_and_several_events_add_up() {
    let h = build_hair(Point { x: 0, y: 0 }, 1, 100);
    let mut seg = h.segments[1];
    let lice = vec![louse(1, 30_000, 40_000), louse(2, 0, 100_000)];
    let events = vec![
        CollisionEvent::Stopped(101, 1),
        CollisionEvent::Stopped(2, 101),
        CollisionEvent::Started(1, 101),
        CollisionEvent::Stopped(1, 100),
    ];
    take_hits(&mut seg, &lice, &events);
    assert_eq!(seg.hair.health, MID_HEALTH - 25_000 - 50_000);
}

#[test]
fn slow_contacts_do_no_damage() {
    let h = build_hair(Point { x: 0, y: 0 }, 1, 100);
    let mut seg = h.segments[1];
    // exactly the threshold speed is not above it
    let lice = vec![louse(1, 5_000, 0)];
    let events = vec![CollisionEvent::Stopped(1, 101)];
    take_hits(&mut seg, &lice, &events);
    assert_eq!(seg.hair.health, MID_HEALTH);
}

#[test]
fn health_never_goes_below_zero() {
    let h = build_hair(Point { x: 0, y: 0 }, 0, 0);
    let mut seg = h.segments[0];
    let lice = vec![louse(50, i64::MAX, i64::MAX)];
    let events = vec![CollisionEvent::Stopped(50, 0), CollisionEvent::Stopped(0, 50)];
    take_hits(&mut seg, &lice, &events);
    assert_eq!(seg.hair.health, 0);
    assert!(seg.hair.health <= seg.hair.max_health);
    assert!(seg.hair.broken);
}

#[test]
fn broken_image_at_half_health_and_never_back() {
    let h = build_hair(Point { x: 0, y: 0 }, 0, 0);
    let mut seg = h.segments[1];
    // 400 units of health; a hit at speed 400 takes 200, half of it
    let lice = vec![louse(9, 400_000, 0)];
    let events = vec![CollisionEvent::Stopped(9, 1)];
    take_hits(&mut seg, &lice, &events);
    assert_eq!(seg.hair.health, 200_000);
    assert!(seg.hair.broken);
    // no more hits: it stays broken
    take_hits(&mut seg, &lice, &vec![]);
    assert!(seg.hair.broken);
    assert_eq!(seg.hair.health, 200_000);
}

#[test]
fn segment_at_zero_falls_with_its_joints() {
    let mut w = world_of(build_hair(Point { x: 0, y: 0 }, 2, 0));
    assert_eq!(w.segments.len(), 4);
    assert_eq!(w.joints.len(), 3);
    // 450 units of health: a hit at speed 900 takes exactly all of it
    let lice = vec![louse(77, 900_000, 0)];
    let events = vec![CollisionEvent::Stopped(77, 1)];
    let dead = hair_system(&mut w, &lice, &events, 1000, 2).fallen;
    assert_eq!(dead.len(), 1);
    assert_eq!(dead[0].entity, 1);
    assert_eq!(dead[0].hair.health, 0);
    let left: Vec<u64> = w.segments.iter().map(|s| s.entity).collect();
    assert_eq!(left, vec![0, 2, 3]);
    // only the joint between segments 2 and 3 is left
    assert_eq!(w.joints.len(), 1);
    assert_eq!((w.joints[0].parent, w.joints[0].child), (2, 3));
}

#[test]
fn roots_are_counted_until_gone() {
    let mut w = world_of(build_hair(Point { x: 0, y: 0 }, 0, 0));
    assert!(!check_roots_system(&w));
    let lice = vec![louse(40, 1_000_000, 0)];
    let events = vec![CollisionEvent::Stopped(0, 40)];
    let dead = hair_system(&mut w, &lice, &events, 1000, 2).fallen;
    assert_eq!(dead.len(), 1);
    assert_eq!(dead[0].kind, SegmentKind::Root);
    assert!(check_roots_system(&w));
    assert_eq!(w.segments.len(), 1);
    assert_eq!(w.joints.len(), 0);
}

#[test]
fn fallen_segments_burst_into_ten_flakes_each() {
    let mut w = world_of(build_hair(Point { x: 3, y: 4 }, 1, 0));
    let lice = vec![louse(77, 2_000_000, 0)];
    let events = vec![CollisionEvent::Stopped(77, 1), CollisionEvent::Stopped(2, 77)];
    let tick = hair_system(&mut w, &lice, &events, 500, 3);
    assert_eq!(tick.fallen.len(), 2);
    assert_eq!(tick.flakes.len(), 2);
    for (seg, burst) in tick.fallen.iter().zip(tick.flakes.iter()) {
        assert_eq!(burst.len(), FLAKES_PER_SEGMENT as usize);
        assert!(burst.iter().all(|c| c.position == seg.position && c.hitbox == FLAKE_HITBOX && c.sprite < 3));
    }
    let ids: Vec<u64> = tick.flakes.iter().flatten().map(|c| c.entity).collect();
    assert_eq!(ids, (500..520).collect::<Vec<u64>>());
    assert_eq!(w.segments.len(), 1);
    assert!(w.joints.is_empty());
}
