use vstd::prelude::*;
use crate::geometry::{is_isqrt, speed, speed_squared, Point, Velocity};
use crate::rng::random_between;
use crate::timer::{Timer, TimerMode};

verus! {

/// How long a louse may rest before it is removed, in milliseconds.
pub const LOUSE_DESPAWN_TIME: u64 = 3000;

/// Below this speed a louse counts as resting.
pub const LOUSE_MIN_VEL: u64 = 5000;

/// Damage dealt per unit of impact speed, in thousandths.
pub const LOUSE_DAMAGE: u64 = 500;

/// Largest initial spin of a flung louse, in thousandths of a radian per second.
pub const LOUSE_SPIN: i64 = 2000;

/// Half the side of a louse's square hitbox.
pub const LOUSE_HITBOX: u64 = 10000;

/// The kinds of louse the player can fling. They differ in looks only.
#[derive(Clone, Copy, Debug, PartialEq, Eq, Structural)]
pub enum LouseType {
    Basic,
    Exploding,
}

/// A request to put a louse into the world.
#[derive(Clone, Copy, Debug, PartialEq, Eq, Structural)]
pub struct SpawnLouseEvent {
    pub position: Point,
    pub velocity: Velocity,
    pub louse_type: LouseType,
}

/// A live louse: its physics body, the damage it deals, and its idle timer.
#[derive(Clone, Copy, Debug)]
pub struct LouseComponent {
    pub entity: u64,
    pub louse_type: LouseType,
    pub position: Point,
    pub velocity: Velocity,
    /// The length of `velocity`, rounded down.
    pub speed: u64,
    pub spin: i64,
    pub damage: u64,
    pub despawn_timer: Timer,
}

impl LouseComponent {
    pub open spec fn wf(self) -> bool {
        &&& is_isqrt(speed_squared(self.velocity), self.speed as int)
        &&& self.despawn_timer.wf()
        &&& self.despawn_timer.mode == TimerMode::Once
        &&& self.despawn_timer.duration == LOUSE_DESPAWN_TIME
    }

    /// The louse after resting or moving for `dt` milliseconds: its idle timer
    /// runs while it is slower than the threshold and starts over otherwise.
    pub open spec fn idled(self, dt: nat) -> LouseComponent {
        if self.speed < LOUSE_MIN_VEL {
            LouseComponent { despawn_timer: self.despawn_timer.ticked(dt), ..self }
        } else {
            LouseComponent {
                despawn_timer: Timer { elapsed: 0, just_finished: false, ..self.despawn_timer },
                ..self
            }
        }
    }

    /// A louse whose idle timer has just run out is removed.
    pub open spec fn expired(self) -> bool {
        self.despawn_timer.just_finished
    }

    /// The louse that a spawn request describes, with the given spin.
    pub fn new(entity: u64, event: &SpawnLouseEvent, spin: i64) -> (l: LouseComponent)
        ensures
            l.wf(),
            l.entity == entity,
            l.louse_type == event.louse_type,
            l.position == event.position,
            l.velocity == event.velocity,
            l.spin == spin,
            l.damage == LOUSE_DAMAGE,
            l.despawn_timer.elapsed == 0,
            !l.despawn_timer.just_finished,
    {
        LouseComponent {
            entity,
            louse_type: event.louse_type,
            position: event.position,
            velocity: event.velocity,
            speed: speed(event.velocity),
            spin,
            damage: LOUSE_DAMAGE,
            despawn_timer: Timer::new(LOUSE_DESPAWN_TIME, TimerMode::Once),
        }
    }

    /// Takes in the body's current position and velocity from the physics world.
    pub fn set_motion(&mut self, position: Point, velocity: Velocity)
        requires
            old(self).wf(),
        ensures
            final(self).wf(),
            *final(self) == (LouseComponent { position, velocity, speed: final(self).speed, ..*old(self) }),
    {
        self.position = position;
        self.velocity = velocity;
        self.speed = speed(velocity);
    }

    /// Runs or resets the idle timer for `dt` milliseconds; returns whether the
    /// louse has just rested long enough to be removed.
    pub fn idle_tick(&mut self, dt: u64) -> (despawn: bool)
        requires
            old(self).wf(),
        ensures
            final(self).wf(),
            *final(self) == old(self).idled(dt as nat),
            despawn == final(self).expired(),
    {
        if self.speed < LOUSE_MIN_VEL {
            self.despawn_timer.tick(dt);
        } else {
            self.despawn_timer.reset();
        }
        self.despawn_timer.just_finished
    }
}

/// Whether `l` is a new louse with body `entity` as `event` asks for it:
/// its place, velocity and kind are the request's, its spin is in range, and
/// its idle timer has not started.
pub open spec fn spawned_from(l: LouseComponent, entity: u64, event: SpawnLouseEvent) -> bool {
    &&& l.wf()
    &&& l.entity == entity
    &&& l.louse_type == event.louse_type
    &&& l.position == event.position
    &&& l.velocity == event.velocity
    &&& -LOUSE_SPIN <= l.spin <= LOUSE_SPIN
    &&& l.damage == LOUSE_DAMAGE
    &&& l.despawn_timer.elapsed == 0
    &&& !l.despawn_timer.just_finished
}

/// Builds the louse that a spawn request asks for, with a random spin.
pub fn spawn_louse(entity: u64, event: &SpawnLouseEvent) -> (l: LouseComponent)
    ensures
        spawned_from(l, entity, *event),
{
    let spin = random_between(-LOUSE_SPIN, LOUSE_SPIN);
    LouseComponent::new(entity, event, spin)
}

/// The lice of `lice` that are still in the world after an idle step.
pub open spec fn still_resting(lice: Seq<LouseComponent>, dt: nat) -> Seq<LouseComponent>
    decreases lice.len(),
{
    if lice.len() == 0 {
        Seq::empty()
    } else {
        let rest = still_resting(lice.drop_last(), dt);
        let l = lice.last().idled(dt);
        if l.expired() {
            rest
        } else {
            rest.push(l)
        }
    }
}

/// The lice of `lice` whose idle timer runs out in an idle step.
pub open spec fn worn_out(lice: Seq<LouseComponent>, dt: nat) -> Seq<LouseComponent>
    decreases lice.len(),
{
    if lice.len() == 0 {
        Seq::empty()
    } else {
        let rest = worn_out(lice.drop_last(), dt);
        let l = lice.last().idled(dt);
        if l.expired() {
            rest.push(l)
        } else {
            rest
        }
    }
}

pub open spec fn all_wf(lice: Seq<LouseComponent>) -> bool {
    forall|i: int| 0 <= i < lice.len() ==> #[trigger] lice[i].wf()
}

proof fn lemma_still_resting_wf(lice: Seq<LouseComponent>, dt: nat)
    requires
        all_wf(lice),
    ensures
        all_wf(still_resting(lice, dt)),
    decreases lice.len(),
{
    if lice.len() > 0 {
        assert(all_wf(lice.drop_last())) by {
            assert forall|i: int| 0 <= i < lice.drop_last().len() implies #[trigger] lice.drop_last()[i].wf() by {
                assert(lice.drop_last()[i] == lice[i]);
            }
        }
        lemma_still_resting_wf(lice.drop_last(), dt);
        assert(lice.last().wf());
        lice.last().despawn_timer.lemma_ticked_wf(dt);
    }
}

/// Advances every louse's idle timer by `dt` milliseconds and removes those
/// whose timer has just run out; these are returned, in order.
pub fn louse_behavior_system(lice: &mut Vec<LouseComponent>, dt: u64) -> (gone: Vec<LouseComponent>)
    requires
        all_wf(old(lice)@),
    ensures
        all_wf(final(lice)@),
        final(lice)@ == still_resting(old(lice)@, dt as nat),
        gone@ == worn_out(old(lice)@, dt as nat),
{
    let ghost start = lice@;
    let mut kept: Vec<LouseComponent> = Vec::new();
    let mut gone: Vec<LouseComponent> = Vec::new();
    let mut i: usize = 0;
    while i < lice.len()
        invariant
            lice@ == start,
            all_wf(start),
            0 <= i <= start.len(),
            kept@ == still_resting(start.take(i as int), dt as nat),
            gone@ == worn_out(start.take(i as int), dt as nat),
        decreases start.len() - i,
    {
        let mut l = lice[i];
        assert(start.take(i + 1).drop_last() == start.take(i as int));
        assert(start.take(i + 1).last() == start[i as int]);
        if l.idle_tick(dt) {
            gone.push(l);
        } else {
            kept.push(l);
        }
        i = i + 1;
    }
    assert(start.take(start.len() as int) == start);
    proof {
        lemma_still_resting_wf(start, dt as nat);
    }
    *lice = kept;
    gone
}

/// The milliseconds of the resting stretch at the end of `ticks`, each tick
/// being the louse's speed and how long it lasted: the ticks at the end in
/// which the louse was slower than `LOUSE_MIN_VEL`.
pub open spec fn resting_stretch(ticks: Seq<(u64, nat)>) -> nat
    decreases ticks.len(),
{
    if ticks.len() == 0 {
        0
    } else if ticks.last().0 < LOUSE_MIN_VEL {
        resting_stretch(ticks.drop_last()) + ticks.last().1
    } else {
        0
    }
}

/// Louse `l` after the ticks `ticks`, each setting its speed and then running
/// its idle timer.
pub open spec fn louse_run(l: LouseComponent, ticks: Seq<(u64, nat)>) -> LouseComponent
    decreases ticks.len(),
{
    if ticks.len() == 0 {
        l
    } else {
        LouseComponent { speed: ticks.last().0, ..louse_run(l, ticks.drop_last()) }.idled(ticks.last().1)
    }
}

/// From a fresh idle timer, the timer shows how long the louse has rested
/// without a break, up to `LOUSE_DESPAWN_TIME`; and the louse is due to leave
/// exactly on the tick in which that rest first reaches `LOUSE_DESPAWN_TIME`.
/// A tick at or above the threshold speed starts the count over, so a louse
/// that moves again is not removed at its old deadline.
pub proof fn lemma_despawn_after_rest(l: LouseComponent, ticks: Seq<(u64, nat)>)
    requires
        l.despawn_timer == (Timer { duration: LOUSE_DESPAWN_TIME, elapsed: 0, mode: TimerMode::Once, just_finished: false }),
    ensures
        louse_run(l, ticks).despawn_timer.wf(),
        louse_run(l, ticks).despawn_timer.duration == LOUSE_DESPAWN_TIME,
        louse_run(l, ticks).despawn_timer.mode == TimerMode::Once,
        louse_run(l, ticks).despawn_timer.elapsed == if resting_stretch(ticks) >= LOUSE_DESPAWN_TIME {
            LOUSE_DESPAWN_TIME as nat
        } else {
            resting_stretch(ticks)
        },
        ticks.len() > 0 ==> (louse_run(l, ticks).expired() <==> (ticks.last().0 < LOUSE_MIN_VEL
            && resting_stretch(ticks.drop_last()) < LOUSE_DESPAWN_TIME && resting_stretch(ticks)
            >= LOUSE_DESPAWN_TIME)),
    decreases ticks.len(),
{
    if ticks.len() > 0 {
        lemma_despawn_after_rest(l, ticks.drop_last());
    }
}

} // verus!
