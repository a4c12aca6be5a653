use vstd::prelude::*;
use crate::geometry::{is_isqrt, isqrt, CollisionEvent, Point};
use crate::louse::{LouseComponent, LOUSE_MIN_VEL};
use crate::chunks::{burst_velocity, chunk_as_asked, spawn_chunk_explosion, ChunkComponent};
use crate::rng::random_between;
use crate::states::AppStates;

verus! {

/// The random draw behind the number of middle segments lies in this range;
/// its square root, rounded down, is taken off `MAX_MID_SEGMENTS`.
pub const MID_SEG_LOW: i64 = 0;
pub const MID_SEG_HIGH: i64 = 100;
pub const MAX_MID_SEGMENTS: u64 = 10;

pub const ROOT_HEALTH: u64 = 500_000;
pub const MID_HEALTH: u64 = 450_000;
pub const TIP_HEALTH: u64 = 400_000;

/// Half the straight length of each kind of capsule collider.
pub const ROOT_HALF_HEIGHT: u64 = 23_000;
pub const MID_HALF_HEIGHT: u64 = 20_000;
pub const TIP_HALF_HEIGHT: u64 = 43_000;

/// The root's collider radius; each later segment's is `RADIUS_DECAY` percent
/// of the one before.
pub const BASE_RADIUS: u64 = 14_000;
pub const RADIUS_DECAY: u64 = 65;

/// The motor stiffness of the joint above the root; each later joint's is
/// `STIFFNESS_GROWTH` tenths of the one before.
pub const BASE_STIFFNESS: u64 = 500_000;
pub const STIFFNESS_GROWTH: u64 = 14;
pub const JOINT_DAMPING: u64 = 10_000;

/// Heights above the root of the first middle segment and of the tip when
/// there are no middle segments, and the spacing between middle segments.
pub const FIRST_MID_OFFSET: i32 = 64_000;
pub const TIP_OFFSET: i32 = 82_000;
pub const SEGMENT_SPACING: i32 = 60_000;

/// Joint anchors along the segments' vertical axes.
pub const ROOT_ANCHOR: i32 = 32_000;
pub const FIRST_ANCHOR: i32 = -32_000;
pub const WIDE_FIRST_ANCHOR: i32 = -55_000;
pub const JOINT_TOP: i32 = 30_000;
pub const JOINT_BOTTOM: i32 = -30_000;
pub const LAST_JOINT_BOTTOM: i32 = -50_000;

/// The highest root a strand can stand on: its tip must fit in the coordinates.
pub const MAX_ROOT_Y: i32 = 2_146_801_647;

/// Where a segment stands in its strand. Only roots count for victory.
#[derive(Clone, Copy, Debug, PartialEq, Eq, Structural)]
pub enum SegmentKind {
    Root,
    Mid,
    Tip,
}

/// The health of a segment and whether it shows its broken image.
#[derive(Clone, Copy, Debug, PartialEq, Eq, Structural)]
pub struct HairComponent {
    pub max_health: u64,
    pub health: u64,
    pub broken: bool,
}

impl HairComponent {
    pub open spec fn wf(self) -> bool {
        0 < self.max_health && self.health <= self.max_health
    }

    pub fn new(max_health: u64) -> (h: HairComponent)
        requires
            max_health > 0,
        ensures
            h.wf(),
            h == (HairComponent { max_health, health: max_health, broken: false }),
    {
        HairComponent { max_health, health: max_health, broken: false }
    }
}

/// One segment of a hair strand.
#[derive(Clone, Copy, Debug, PartialEq, Eq, Structural)]
pub struct HairSegment {
    pub entity: u64,
    pub kind: SegmentKind,
    pub hair: HairComponent,
    pub position: Point,
    pub radius: u64,
    pub half_height: u64,
    /// The phase whose end removes this segment.
    pub state: AppStates,
}

/// A revolute joint from `parent` to `child`, with a motor that holds the
/// angle at zero.
#[derive(Clone, Copy, Debug, PartialEq, Eq, Structural)]
pub struct HairJoint {
    pub parent: u64,
    pub child: u64,
    pub parent_anchor: i32,
    pub child_anchor: i32,
    pub stiffness: u64,
    pub damping: u64,
    pub state: AppStates,
}

/// A strand: segments from the root up, and the joints between neighbours.
#[derive(Clone, Debug)]
pub struct Hair {
    pub segments: Vec<HairSegment>,
    pub joints: Vec<HairJoint>,
}

/// The collider radius of the `k`-th segment from the root.
pub open spec fn radius_at(k: nat) -> nat
    decreases k,
{
    if k == 0 {
        BASE_RADIUS as nat
    } else {
        radius_at((k - 1) as nat) * RADIUS_DECAY as nat / 100
    }
}

/// The motor stiffness of the `k`-th joint from the root.
pub open spec fn stiffness_at(k: nat) -> nat
    decreases k,
{
    if k == 0 {
        BASE_STIFFNESS as nat
    } else {
        stiffness_at((k - 1) as nat) * STIFFNESS_GROWTH as nat / 10
    }
}

/// The number of middle segments that a draw from `MID_SEG_LOW..=MID_SEG_HIGH`
/// asks for, given the draw's integer square root.
pub open spec fn mid_count_for(root_of_draw: nat) -> nat {
    (MAX_MID_SEGMENTS - root_of_draw) as nat
}

/// The `k`-th segment of a strand with `n` middle segments rooted at `base`,
/// whose segments take the entity numbers from `first` on.
pub open spec fn planned_segment(base: Point, n: nat, first: u64, k: nat) -> HairSegment {
    let kind = if k == 0 {
        SegmentKind::Root
    } else if k <= n {
        SegmentKind::Mid
    } else {
        SegmentKind::Tip
    };
    let y = if k == 0 {
        base.y as int
    } else if k <= n {
        base.y + FIRST_MID_OFFSET + (k - 1) * SEGMENT_SPACING
    } else {
        base.y + TIP_OFFSET + n * SEGMENT_SPACING
    };
    let health = match kind {
        SegmentKind::Root => ROOT_HEALTH,
        SegmentKind::Mid => MID_HEALTH,
        SegmentKind::Tip => TIP_HEALTH,
    };
    let half_height = match kind {
        SegmentKind::Root => ROOT_HALF_HEIGHT,
        SegmentKind::Mid => MID_HALF_HEIGHT,
        SegmentKind::Tip => TIP_HALF_HEIGHT,
    };
    HairSegment {
        entity: (first + k) as u64,
        kind,
        hair: HairComponent { max_health: health, health, broken: false },
        position: Point { x: base.x, y: y as i32 },
        radius: radius_at(k) as u64,
        half_height,
        state: AppStates::Game,
    }
}

/// The `k`-th joint of a strand with `n` middle segments: it holds segment
/// `k + 1` to segment `k`. With no middle segments the tip hangs lower on the
/// root, and the joint under the tip sits lower than the others.
pub open spec fn planned_joint(n: nat, first: u64, k: nat) -> HairJoint {
    HairJoint {
        parent: (first + k) as u64,
        child: (first + k + 1) as u64,
        parent_anchor: if k == 0 { ROOT_ANCHOR } else { JOINT_TOP },
        child_anchor: if k == 0 {
            if n == 0 { WIDE_FIRST_ANCHOR } else { FIRST_ANCHOR }
        } else if k == n {
            LAST_JOINT_BOTTOM
        } else {
            JOINT_BOTTOM
        },
        stiffness: stiffness_at(k) as u64,
        damping: JOINT_DAMPING,
        state: AppStates::Game,
    }
}

/// The strand with `n` middle segments rooted at `base`.
pub open spec fn planned_hair(base: Point, n: nat, first: u64, h: Hair) -> bool {
    &&& h.segments@.len() == n + 2
    &&& h.joints@.len() == n + 1
    &&& forall|k: int| 0 <= k < n + 2 ==> #[trigger] h.segments@[k] == planned_segment(base, n, first, k as nat)
    &&& forall|k: int| 0 <= k < n + 1 ==> #[trigger] h.joints@[k] == planned_joint(n, first, k as nat)
}

proof fn lemma_radius_last()
    ensures
        radius_at(MAX_MID_SEGMENTS as nat + 1) == 121,
{
    assert(radius_at(0) == 14000);
    assert(radius_at(1) == 9100);
    assert(radius_at(2) == 5915);
    assert(radius_at(3) == 3844);
    assert(radius_at(4) == 2498);
    assert(radius_at(5) == 1623);
    assert(radius_at(6) == 1054);
    assert(radius_at(7) == 685);
    assert(radius_at(8) == 445);
    assert(radius_at(9) == 289);
    assert(radius_at(10) == 187);
    assert(radius_at(11) == 121);
}

proof fn lemma_radius_steps_down(k: nat)
    requires
        radius_at(k) > 0,
    ensures
        radius_at(k + 1) < radius_at(k),
{
    assert(radius_at(k + 1) == radius_at(k) * 65 / 100);
}

proof fn lemma_radius_no_larger(j: nat, k: nat)
    requires
        j <= k,
    ensures
        radius_at(k) <= radius_at(j),
        radius_at(k) <= BASE_RADIUS,
    decreases k,
{
    if k > 0 {
        lemma_radius_no_larger(0, (k - 1) as nat);
        if j < k {
            lemma_radius_no_larger(j, (k - 1) as nat);
        }
    }
}

/// Each segment of a strand is thinner than the one below it.
pub proof fn lemma_radius_shrinks(j: nat, k: nat)
    requires
        j < k <= MAX_MID_SEGMENTS + 1,
    ensures
        0 < radius_at(k) < radius_at(j),
{
    lemma_radius_last();
    lemma_radius_no_larger(k, MAX_MID_SEGMENTS as nat + 1);
    lemma_radius_no_larger(j, (k - 1) as nat);
    lemma_radius_no_larger((k - 1) as nat, MAX_MID_SEGMENTS as nat + 1);
    lemma_radius_steps_down((k - 1) as nat);
}

proof fn lemma_stiffness_grows(j: nat, k: nat)
    requires
        j <= k,
    ensures
        stiffness_at(j) <= stiffness_at(k),
    decreases k - j,
{
    if j < k {
        lemma_stiffness_grows(j, (k - 1) as nat);
    }
}

/// Builds a strand rooted at `base` with `n` middle segments.
pub fn build_hair(base: Point, n: u64, first: u64) -> (h: Hair)
    requires
        n <= MAX_MID_SEGMENTS,
        base.y <= MAX_ROOT_Y,
        first <= u64::MAX - (MAX_MID_SEGMENTS + 2),
    ensures
        planned_hair(base, n as nat, first, h),
{
    let mut segments: Vec<HairSegment> = Vec::new();
    let mut joints: Vec<HairJoint> = Vec::new();
    segments.push(
        HairSegment {
            entity: first,
            kind: SegmentKind::Root,
            hair: HairComponent::new(ROOT_HEALTH),
            position: base,
            radius: BASE_RADIUS,
            half_height: ROOT_HALF_HEIGHT,
            state: AppStates::Game,
        },
    );
    let mut radius: u64 = BASE_RADIUS;
    let mut stiffness: u64 = BASE_STIFFNESS;
    let mut i: u64 = 0;
    proof {
        reveal_with_fuel(stiffness_at, 12);
        assert(stiffness_at(11) <= 25_000_000);
    }
    while i <= n
        invariant
            n <= MAX_MID_SEGMENTS,
            base.y <= MAX_ROOT_Y,
            first <= u64::MAX - (MAX_MID_SEGMENTS + 2),
            stiffness_at(11) <= 25_000_000,
            i <= n + 1,
            segments@.len() == i + 1,
            joints@.len() == i,
            radius == radius_at(i as nat),
            radius <= BASE_RADIUS,
            stiffness == stiffness_at(i as nat),
            forall|k: int| 0 <= k <= i ==> #[trigger] segments@[k] == planned_segment(base, n as nat, first, k as nat),
            forall|k: int| 0 <= k < i ==> #[trigger] joints@[k] == planned_joint(n as nat, first, k as nat),
        decreases n + 1 - i,
    {
        // the joint that holds the next segment to the last one made
        let child_anchor = if i == 0 {
            if n == 0 { WIDE_FIRST_ANCHOR } else { FIRST_ANCHOR }
        } else if i == n {
            LAST_JOINT_BOTTOM
        } else {
            JOINT_BOTTOM
        };
        joints.push(
            HairJoint {
                parent: first + i,
                child: first + i + 1,
                parent_anchor: if i == 0 { ROOT_ANCHOR } else { JOINT_TOP },
                child_anchor,
                stiffness,
                damping: JOINT_DAMPING,
                state: AppStates::Game,
            },
        );
        radius = radius * RADIUS_DECAY / 100;
        proof {
            lemma_radius_no_larger(0, (i + 1) as nat);
        }
        proof {
            lemma_stiffness_grows((i + 1) as nat, 11);
        }
        stiffness = stiffness * STIFFNESS_GROWTH / 10;
        let segment = if i < n {
            HairSegment {
                entity: first + i + 1,
                kind: SegmentKind::Mid,
                hair: HairComponent::new(MID_HEALTH),
                position: Point {
                    x: base.x,
                    y: base.y + FIRST_MID_OFFSET + (i as i32) * SEGMENT_SPACING,
                },
                radius,
                half_height: MID_HALF_HEIGHT,
                state: AppStates::Game,
            }
        } else {
            HairSegment {
                entity: first + i + 1,
                kind: SegmentKind::Tip,
                hair: HairComponent::new(TIP_HEALTH),
                position: Point {
                    x: base.x,
                    y: base.y + TIP_OFFSET + (n as i32) * SEGMENT_SPACING,
                },
                radius,
                half_height: TIP_HALF_HEIGHT,
                state: AppStates::Game,
            }
        };
        segments.push(segment);
        i = i + 1;
    }
    Hair { segments, joints }
}

/// The strand that a draw `draw` from `MID_SEG_LOW..=MID_SEG_HIGH` asks for:
/// its number of middle segments is `MAX_MID_SEGMENTS` less the draw's square
/// root, rounded down.
pub fn hair_from_draw(base: Point, draw: i64, first: u64) -> (h: Hair)
    requires
        MID_SEG_LOW <= draw <= MID_SEG_HIGH,
        base.y <= MAX_ROOT_Y,
        first <= u64::MAX - (MAX_MID_SEGMENTS + 2),
    ensures
        forall|r: int| #[trigger] is_isqrt(draw as int, r) ==> planned_hair(base, mid_count_for(r as nat), first, h),
        exists|n: nat| n <= MAX_MID_SEGMENTS && #[trigger] planned_hair(base, n, first, h),
{
    let r = isqrt(draw as u128);
    assert(r <= 10) by (nonlinear_arith)
        requires
            r * r <= draw <= 100,
            r >= 0,
    ;
    proof {
        assert forall|q: int| #[trigger] is_isqrt(draw as int, q) implies q == r by {
            if q < r {
                assert((q + 1) * (q + 1) <= r * r) by (nonlinear_arith)
                    requires
                        0 <= q < r,
                ;
            } else if q > r {
                assert((r + 1) * (r + 1) <= q * q) by (nonlinear_arith)
                    requires
                        0 <= r < q,
                ;
            }
        }
    }
    let h = build_hair(base, MAX_MID_SEGMENTS - r, first);
    assert(planned_hair(base, (MAX_MID_SEGMENTS - r) as nat, first, h));
    h
}

/// Grows a strand at `base` with a random number of middle segments, fewer
/// segments being likelier than more.
pub fn spawn_hair(base: Point, first: u64) -> (h: Hair)
    requires
        base.y <= MAX_ROOT_Y,
        first <= u64::MAX - (MAX_MID_SEGMENTS + 2),
    ensures
        exists|n: nat| n <= MAX_MID_SEGMENTS && #[trigger] planned_hair(base, n, first, h),
{
    let draw = random_between(MID_SEG_LOW, MID_SEG_HIGH);
    hair_from_draw(base, draw, first)
}

/// Whether `e` is a contact between louse `l` and body `target` that has just
/// ended while the louse moves faster than the impact threshold. Either order
/// of the two bodies counts, and the threshold applies to both.
pub open spec fn is_hit(l: LouseComponent, target: u64, e: CollisionEvent) -> bool {
    match e {
        CollisionEvent::Stopped(a, b) => ((a == l.entity && b == target) || (a == target && b
            == l.entity)) && l.speed > LOUSE_MIN_VEL,
        CollisionEvent::Started(_, _) => false,
    }
}

/// The damage of one hit: the louse's damage factor times its speed.
pub open spec fn hit_damage(l: LouseComponent) -> nat {
    (l.damage * l.speed / 1000) as nat
}

/// The damage that louse `l` deals to `target` over the events `events`.
pub open spec fn louse_damage(l: LouseComponent, target: u64, events: Seq<CollisionEvent>) -> nat
    decreases events.len(),
{
    if events.len() == 0 {
        0
    } else {
        louse_damage(l, target, events.drop_last()) + if is_hit(l, target, events.last()) {
            hit_damage(l)
        } else {
            0
        }
    }
}

/// The damage that all of `lice` deal to `target` over the events `events`.
pub open spec fn total_damage(lice: Seq<LouseComponent>, target: u64, events: Seq<CollisionEvent>) -> nat
    decreases lice.len(),
{
    if lice.len() == 0 {
        0
    } else {
        total_damage(lice.drop_last(), target, events) + louse_damage(lice.last(), target, events)
    }
}

/// Health `health` less `damage`, but never below zero.
pub open spec fn drained(health: nat, damage: nat) -> nat {
    if damage >= health {
        0
    } else {
        (health - damage) as nat
    }
}

/// A segment after taking `damage`: its health drops, never below zero, and it
/// turns to its broken image once at most half of its health is left. A broken
/// segment stays broken.
pub open spec fn damaged(s: HairSegment, damage: nat) -> HairSegment {
    let health = drained(s.hair.health as nat, damage) as u64;
    HairSegment {
        hair: HairComponent {
            health,
            broken: s.hair.broken || 2 * health <= s.hair.max_health,
            ..s.hair
        },
        ..s
    }
}

/// A segment after one tick's events.
pub open spec fn struck(s: HairSegment, lice: Seq<LouseComponent>, events: Seq<CollisionEvent>) -> HairSegment {
    damaged(s, total_damage(lice, s.entity, events))
}

fn is_hit_exec(l: &LouseComponent, target: u64, e: &CollisionEvent) -> (r: bool)
    ensures
        r == is_hit(*l, target, *e),
{
    match *e {
        CollisionEvent::Stopped(a, b) => ((a == l.entity && b == target) || (a == target && b
            == l.entity)) && l.speed > LOUSE_MIN_VEL,
        CollisionEvent::Started(_, _) => false,
    }
}

/// Applies to segment `s` the damage of every hit in `events` by one of `lice`,
/// then swaps in its broken image if at most half of its health is left.
pub fn take_hits(s: &mut HairSegment, lice: &Vec<LouseComponent>, events: &Vec<CollisionEvent>)
    requires
        old(s).hair.wf(),
    ensures
        final(s).hair.wf(),
        *final(s) == struck(*old(s), lice@, events@),
{
    let ghost h0 = s.hair.health as nat;
    let target = s.entity;
    let mut health: u64 = s.hair.health;
    let mut i: usize = 0;
    while i < lice.len()
        invariant
            0 <= i <= lice@.len(),
            health == drained(h0, total_damage(lice@.take(i as int), target, events@)),
        decreases lice@.len() - i,
    {
        let l = &lice[i];
        let mut j: usize = 0;
        while j < events.len()
            invariant
                0 <= i < lice@.len(),
                *l == lice@[i as int],
                0 <= j <= events@.len(),
                health == drained(
                    h0,
                    total_damage(lice@.take(i as int), target, events@) + louse_damage(
                        *l,
                        target,
                        events@.take(j as int),
                    ),
                ),
            decreases events@.len() - j,
        {
            assert(events@.take(j + 1).drop_last() == events@.take(j as int));
            assert(events@.take(j + 1).last() == events@[j as int]);
            if is_hit_exec(l, target, &events[j]) {
                assert(l.damage as u128 * l.speed as u128 <= u128::MAX) by (nonlinear_arith)
                    requires
                        l.damage <= u64::MAX,
                        l.speed <= u64::MAX,
                ;
                let d: u128 = (l.damage as u128 * l.speed as u128) / 1000;
                health = if d >= health as u128 { 0 } else { health - d as u64 };
            }
            j = j + 1;
        }
        assert(events@.take(events@.len() as int) == events@);
        assert(lice@.take(i + 1).drop_last() == lice@.take(i as int));
        assert(lice@.take(i + 1).last() == lice@[i as int]);
        i = i + 1;
    }
    assert(lice@.take(lice@.len() as int) == lice@);
    s.hair.health = health;
    if health <= s.hair.max_health / 2 {
        s.hair.broken = true;
    }
}

/// Every strand segment and joint in play.
#[derive(Clone, Debug)]
pub struct HairWorld {
    pub segments: Vec<HairSegment>,
    pub joints: Vec<HairJoint>,
}

pub open spec fn segments_wf(segs: Seq<HairSegment>) -> bool {
    forall|i: int| 0 <= i < segs.len() ==> #[trigger] segs[i].hair.wf()
}

impl HairWorld {
    pub open spec fn wf(self) -> bool {
        segments_wf(self.segments@)
    }

    pub fn new() -> (w: HairWorld)
        ensures
            w.wf(),
            w.segments@ == Seq::<HairSegment>::empty(),
            w.joints@ == Seq::<HairJoint>::empty(),
    {
        HairWorld { segments: Vec::new(), joints: Vec::new() }
    }

    /// Puts a strand into play.
    pub fn add_hair(&mut self, hair: Hair)
        requires
            old(self).wf(),
            segments_wf(hair.segments@),
        ensures
            final(self).wf(),
            final(self).segments@ == old(self).segments@ + hair.segments@,
            final(self).joints@ == old(self).joints@ + hair.joints@,
    {
        let ghost added = hair.segments@;
        let mut hair = hair;
        self.segments.append(&mut hair.segments);
        self.joints.append(&mut hair.joints);
        assert forall|i: int| 0 <= i < self.segments@.len() implies #[trigger] self.segments@[i].hair.wf() by {
            if i >= old(self).segments@.len() {
                assert(self.segments@[i] == added[i - old(self).segments@.len()]);
            }
        }
    }
}

/// The segments of `segs` that still have health after one tick's hits.
pub open spec fn standing(segs: Seq<HairSegment>, lice: Seq<LouseComponent>, events: Seq<CollisionEvent>) -> Seq<HairSegment>
    decreases segs.len(),
{
    if segs.len() == 0 {
        Seq::empty()
    } else {
        let rest = standing(segs.drop_last(), lice, events);
        let s = struck(segs.last(), lice, events);
        if s.hair.health > 0 {
            rest.push(s)
        } else {
            rest
        }
    }
}

/// The segments of `segs` that one tick's hits bring down to no health.
pub open spec fn fallen(segs: Seq<HairSegment>, lice: Seq<LouseComponent>, events: Seq<CollisionEvent>) -> Seq<HairSegment>
    decreases segs.len(),
{
    if segs.len() == 0 {
        Seq::empty()
    } else {
        let rest = fallen(segs.drop_last(), lice, events);
        let s = struck(segs.last(), lice, events);
        if s.hair.health > 0 {
            rest
        } else {
            rest.push(s)
        }
    }
}

/// Whether joint `j` is attached to one of the segments `dead`.
pub open spec fn loose(j: HairJoint, dead: Seq<HairSegment>) -> bool {
    exists|i: int| 0 <= i < dead.len() && (#[trigger] dead[i].entity == j.parent || dead[i].entity == j.child)
}

/// The joints of `joints` attached to none of `dead`.
pub open spec fn held(joints: Seq<HairJoint>, dead: Seq<HairSegment>) -> Seq<HairJoint>
    decreases joints.len(),
{
    if joints.len() == 0 {
        Seq::empty()
    } else {
        let rest = held(joints.drop_last(), dead);
        if loose(joints.last(), dead) {
            rest
        } else {
            rest.push(joints.last())
        }
    }
}

fn is_loose(j: &HairJoint, dead: &Vec<HairSegment>) -> (r: bool)
    ensures
        r == loose(*j, dead@),
{
    let mut i: usize = 0;
    while i < dead.len()
        invariant
            0 <= i <= dead@.len(),
            forall|k: int| 0 <= k < i ==> !(#[trigger] dead@[k].entity == j.parent || dead@[k].entity == j.child),
        decreases dead@.len() - i,
    {
        if dead[i].entity == j.parent || dead[i].entity == j.child {
            return true;
        }
        i = i + 1;
    }
    false
}

/// Applies one tick's hits to every segment; those left with no health are
/// removed together with every joint attached to them, and are returned in
/// order.
fn strike_segments(world: &mut HairWorld, lice: &Vec<LouseComponent>, events: &Vec<CollisionEvent>) -> (dead: Vec<HairSegment>)
    requires
        old(world).wf(),
    ensures
        final(world).wf(),
        final(world).segments@ == standing(old(world).segments@, lice@, events@),
        dead@ == fallen(old(world).segments@, lice@, events@),
        final(world).joints@ == held(old(world).joints@, dead@),
{
    let ghost segs = world.segments@;
    let mut alive: Vec<HairSegment> = Vec::new();
    let mut dead: Vec<HairSegment> = Vec::new();
    let mut i: usize = 0;
    while i < world.segments.len()
        invariant
            world.segments@ == segs,
            segments_wf(segs),
            0 <= i <= segs.len(),
            alive@ == standing(segs.take(i as int), lice@, events@),
            dead@ == fallen(segs.take(i as int), lice@, events@),
            segments_wf(alive@),
        decreases segs.len() - i,
    {
        let mut s = world.segments[i];
        assert(segs.take(i + 1).drop_last() == segs.take(i as int));
        assert(segs.take(i + 1).last() == segs[i as int]);
        assert(s.hair.wf());
        take_hits(&mut s, lice, events);
        if s.hair.health > 0 {
            alive.push(s);
        } else {
            dead.push(s);
        }
        i = i + 1;
    }
    assert(segs.take(segs.len() as int) == segs);
    let ghost joints = world.joints@;
    let mut kept: Vec<HairJoint> = Vec::new();
    let mut k: usize = 0;
    while k < world.joints.len()
        invariant
            world.joints@ == joints,
            0 <= k <= joints.len(),
            kept@ == held(joints.take(k as int), dead@),
        decreases joints.len() - k,
    {
        assert(joints.take(k + 1).drop_last() == joints.take(k as int));
        assert(joints.take(k + 1).last() == joints[k as int]);
        if !is_loose(&world.joints[k], &dead) {
            kept.push(world.joints[k]);
        }
        k = k + 1;
    }
    assert(joints.take(joints.len() as int) == joints);
    world.segments = alive;
    world.joints = kept;
    dead
}

/// How many flakes a fallen segment bursts into, and half the side of each
/// flake's hitbox.
pub const FLAKES_PER_SEGMENT: u64 = 10;
pub const FLAKE_HITBOX: u64 = 500;

/// Whether `flakes` holds, for each of `dead`, `FLAKES_PER_SEGMENT` flakes
/// bursting from where that segment stood.
pub open spec fn flakes_for(dead: Seq<HairSegment>, flakes: Seq<Vec<ChunkComponent>>, sprites: u32) -> bool {
    &&& flakes.len() == dead.len()
    &&& forall|j: int| 0 <= j < dead.len() ==> #[trigger] burst_from(flakes[j]@, dead[j].position, sprites)
}

/// Whether `burst` is `FLAKES_PER_SEGMENT` flakes bursting out of `spot`,
/// each showing one of `sprites` sprites.
pub open spec fn burst_from(burst: Seq<ChunkComponent>, spot: Point, sprites: u32) -> bool {
    &&& burst.len() == FLAKES_PER_SEGMENT
    &&& forall|i: int| 0 <= i < FLAKES_PER_SEGMENT ==> {
        &&& #[trigger] burst[i].position == spot
        &&& burst[i].hitbox == FLAKE_HITBOX
        &&& burst[i].sprite < sprites
        &&& burst_velocity(burst[i].velocity)
    }
}

/// All chunks of `flakes`, one fallen segment's after another's.
pub open spec fn all_flakes(flakes: Seq<Vec<ChunkComponent>>) -> Seq<ChunkComponent>
    decreases flakes.len(),
{
    if flakes.len() == 0 {
        Seq::empty()
    } else {
        all_flakes(flakes.drop_last()) + flakes.last()@
    }
}

/// The segments brought down in a tick and the flakes they burst into.
#[derive(Clone, Debug)]
pub struct HairTick {
    pub fallen: Vec<HairSegment>,
    /// For each fallen segment, in order, the flakes it burst into.
    pub flakes: Vec<Vec<ChunkComponent>>,
}

/// Bursts each of `dead` into `FLAKES_PER_SEGMENT` flakes where it stood,
/// numbering the flakes from `first` on.
fn burst_fallen(dead: &Vec<HairSegment>, first: u64, sprites: u32) -> (flakes: Vec<Vec<ChunkComponent>>)
    requires
        sprites > 0,
        first <= u64::MAX - FLAKES_PER_SEGMENT * dead@.len(),
    ensures
        flakes_for(dead@, flakes@, sprites),
{
    let mut flakes: Vec<Vec<ChunkComponent>> = Vec::new();
    let mut next: u64 = first;
    let mut j: usize = 0;
    while j < dead.len()
        invariant
            0 <= j <= dead@.len(),
            sprites > 0,
            first <= u64::MAX - FLAKES_PER_SEGMENT * dead@.len(),
            next == first + FLAKES_PER_SEGMENT * j,
            flakes@.len() == j,
            forall|jj: int| 0 <= jj < j ==> #[trigger] burst_from(flakes@[jj]@, dead@[jj].position, sprites),
        decreases dead@.len() - j,
    {
        assert(FLAKES_PER_SEGMENT * j + FLAKES_PER_SEGMENT <= FLAKES_PER_SEGMENT * dead@.len()) by (nonlinear_arith)
            requires
                j < dead@.len(),
        ;
        let burst = spawn_chunk_explosion(next, sprites, dead[j].position, FLAKES_PER_SEGMENT, FLAKE_HITBOX);
        let ghost spot = dead@[j as int].position;
        assert forall|i: int| 0 <= i < FLAKES_PER_SEGMENT implies {
            &&& #[trigger] burst@[i].position == spot
            &&& burst@[i].hitbox == FLAKE_HITBOX
            &&& burst@[i].sprite < sprites
            &&& burst_velocity(burst@[i].velocity)
        } by {
            assert(chunk_as_asked(burst@[i], (next + i) as u64, sprites, spot, burst@[i].velocity, FLAKE_HITBOX));
        }
        let ghost old_flakes = flakes@;
        flakes.push(burst);
        assert forall|jj: int| 0 <= jj <= j implies #[trigger] burst_from(flakes@[jj]@, dead@[jj].position, sprites) by {
            if jj < j {
                assert(flakes@[jj] == old_flakes[jj]);
            } else {
                assert(flakes@[jj] == burst);
            }
        }
        next = next + FLAKES_PER_SEGMENT;
        j = j + 1;
    }
    flakes
}

/// Resolves one tick of contacts: every segment takes the damage of the hits
/// that `events` report between it and one of `lice`, its health never going
/// below zero; those left with no health are removed at once together with
/// every joint attached to them, and each bursts into `FLAKES_PER_SEGMENT`
/// flakes where it stood, numbered from `first` on.
pub fn hair_system(world: &mut HairWorld, lice: &Vec<LouseComponent>, events: &Vec<CollisionEvent>, first: u64, sprites: u32) -> (r: HairTick)
    requires
        old(world).wf(),
        sprites > 0,
        first <= u64::MAX - FLAKES_PER_SEGMENT * old(world).segments@.len(),
    ensures
        final(world).wf(),
        final(world).segments@ == standing(old(world).segments@, lice@, events@),
        r.fallen@ == fallen(old(world).segments@, lice@, events@),
        final(world).joints@ == held(old(world).joints@, r.fallen@),
        final(world).segments@.len() + r.fallen@.len() == old(world).segments@.len(),
        forall|k: int| 0 <= k < final(world).segments@.len() ==> #[trigger] final(world).segments@[k].hair.health > 0,
        forall|k: int| 0 <= k < r.fallen@.len() ==> #[trigger] r.fallen@[k].hair.health == 0,
        flakes_for(r.fallen@, r.flakes@, sprites),
{
    let ghost before = world.segments@;
    let dead = strike_segments(world, lice, events);
    proof {
        lemma_zero_health_falls(before, lice@, events@);
    }
    assert(FLAKES_PER_SEGMENT * dead@.len() <= FLAKES_PER_SEGMENT * before.len()) by (nonlinear_arith)
        requires
            dead@.len() <= before.len(),
    ;
    let flakes = burst_fallen(&dead, first, sprites);
    HairTick { fallen: dead, flakes }
}

/// The number of roots among `segs`.
pub open spec fn root_count(segs: Seq<HairSegment>) -> nat
    decreases segs.len(),
{
    if segs.len() == 0 {
        0
    } else {
        root_count(segs.drop_last()) + if segs.last().kind == SegmentKind::Root {
            1nat
        } else {
            0nat
        }
    }
}

/// Whether no root is left standing, which wins the game.
pub fn check_roots_system(world: &HairWorld) -> (none_left: bool)
    ensures
        none_left == (root_count(world.segments@) == 0),
{
    let mut i: usize = 0;
    let mut found = false;
    while i < world.segments.len()
        invariant
            0 <= i <= world.segments@.len(),
            found == (root_count(world.segments@.take(i as int)) > 0),
        decreases world.segments@.len() - i,
    {
        assert(world.segments@.take(i + 1).drop_last() == world.segments@.take(i as int));
        assert(world.segments@.take(i + 1).last() == world.segments@[i as int]);
        if world.segments[i].kind == SegmentKind::Root {
            found = true;
        }
        i = i + 1;
    }
    assert(world.segments@.take(world.segments@.len() as int) == world.segments@);
    !found
}

/// Damage never takes a segment's health below zero or above its maximum.
pub proof fn lemma_damage_keeps_health_in_range(s: HairSegment, damage: nat)
    requires
        s.hair.wf(),
    ensures
        damaged(s, damage).hair.wf(),
        0 <= damaged(s, damage).hair.health <= damaged(s, damage).hair.max_health,
{
}

/// Once a segment shows its broken image it keeps it, whatever hits follow.
pub proof fn lemma_broken_stays_broken(s: HairSegment, lice: Seq<LouseComponent>, events: Seq<CollisionEvent>)
    requires
        s.hair.broken,
    ensures
        struck(s, lice, events).hair.broken,
{
}

/// A tick splits the segments into those still standing, all with health
/// left, and those brought down, all with none: no segment at zero health
/// survives the tick in which it got there.
pub proof fn lemma_zero_health_falls(segs: Seq<HairSegment>, lice: Seq<LouseComponent>, events: Seq<CollisionEvent>)
    ensures
        standing(segs, lice, events).len() + fallen(segs, lice, events).len() == segs.len(),
        forall|k: int| 0 <= k < standing(segs, lice, events).len() ==> #[trigger] standing(segs, lice, events)[k].hair.health > 0,
        forall|k: int| 0 <= k < fallen(segs, lice, events).len() ==> #[trigger] fallen(segs, lice, events)[k].hair.health == 0,
    decreases segs.len(),
{
    if segs.len() > 0 {
        lemma_zero_health_falls(segs.drop_last(), lice, events);
        let st = standing(segs.drop_last(), lice, events);
        let fa = fallen(segs.drop_last(), lice, events);
        assert forall|k: int| 0 <= k < standing(segs, lice, events).len() implies #[trigger] standing(segs, lice, events)[k].hair.health > 0 by {
            if k < st.len() {
                assert(standing(segs, lice, events)[k] == st[k]);
            }
        }
        assert forall|k: int| 0 <= k < fallen(segs, lice, events).len() implies #[trigger] fallen(segs, lice, events)[k].hair.health == 0 by {
            if k < fa.len() {
                assert(fallen(segs, lice, events)[k] == fa[k]);
            }
        }
    }
}

/// A tick never adds a root: the number of roots can only go down.
pub proof fn lemma_roots_never_grow(segs: Seq<HairSegment>, lice: Seq<LouseComponent>, events: Seq<CollisionEvent>)
    ensures
        root_count(standing(segs, lice, events)) <= root_count(segs),
    decreases segs.len(),
{
    if segs.len() > 0 {
        lemma_roots_never_grow(segs.drop_last(), lice, events);
        let st = standing(segs.drop_last(), lice, events);
        let x = struck(segs.last(), lice, events);
        if x.hair.health > 0 {
            assert(st.push(x).drop_last() == st);
        }
    }
}

/// Counting roots adds up over a concatenation.
pub proof fn lemma_root_count_concat(a: Seq<HairSegment>, b: Seq<HairSegment>)
    ensures
        root_count(a + b) == root_count(a) + root_count(b),
    decreases b.len(),
{
    if b.len() > 0 {
        lemma_root_count_concat(a, b.drop_last());
        assert((a + b).drop_last() == a + b.drop_last());
        assert((a + b).last() == b.last());
    }
}

proof fn lemma_planned_prefix_roots(base: Point, n: nat, first: u64, h: Hair, k: nat)
    requires
        planned_hair(base, n, first, h),
        1 <= k <= n + 2,
    ensures
        root_count(h.segments@.take(k as int)) == 1,
    decreases k,
{
    let segs = h.segments@;
    assert(segs.take(k as int).drop_last() == segs.take(k - 1));
    assert(segs.take(k as int).last() == segs[k - 1]);
    assert(segs[k - 1] == planned_segment(base, n, first, (k - 1) as nat));
    if k > 1 {
        lemma_planned_prefix_roots(base, n, first, h, (k - 1) as nat);
        assert(segs[k - 1].kind != SegmentKind::Root);
    } else {
        assert(segs.take(0) =~= Seq::<HairSegment>::empty());
        assert(root_count(segs.take(0)) == 0);
        assert(segs[0].kind == SegmentKind::Root);
    }
    assert(root_count(segs.take(k as int)) == root_count(segs.take(k - 1)) + if segs[k - 1].kind
        == SegmentKind::Root {
        1nat
    } else {
        0nat
    });
}

/// A freshly built strand has exactly one root, and every segment at full
/// health.
pub proof fn lemma_planned_hair_one_root(base: Point, n: nat, first: u64, h: Hair)
    requires
        planned_hair(base, n, first, h),
    ensures
        root_count(h.segments@) == 1,
        segments_wf(h.segments@),
{
    lemma_planned_prefix_roots(base, n, first, h, n + 2);
    assert(h.segments@.take(n + 2 as int) == h.segments@);
    assert forall|i: int| 0 <= i < h.segments@.len() implies #[trigger] h.segments@[i].hair.wf() by {
        assert(h.segments@[i] == planned_segment(base, n, first, i as nat));
    }
}

/// The segments of a freshly built strand get thinner from the root up.
pub proof fn lemma_planned_radii_decrease(base: Point, n: nat, first: u64, h: Hair)
    requires
        planned_hair(base, n, first, h),
        n <= MAX_MID_SEGMENTS,
    ensures
        forall|i: int, j: int| 0 <= i < j < h.segments@.len() ==> #[trigger] h.segments@[j].radius < #[trigger] h.segments@[i].radius,
{
    assert forall|i: int, j: int| 0 <= i < j < h.segments@.len() implies #[trigger] h.segments@[j].radius < #[trigger] h.segments@[i].radius by {
        assert(h.segments@[i] == planned_segment(base, n, first, i as nat));
        assert(h.segments@[j] == planned_segment(base, n, first, j as nat));
        lemma_radius_shrinks(i as nat, j as nat);
        lemma_radius_no_larger(0, i as nat);
    }
}

} // verus!
