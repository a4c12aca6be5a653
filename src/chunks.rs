use vstd::prelude::*;
use crate::geometry::{CollisionEvent, Point, Velocity};
use crate::louse::LouseComponent;
use crate::rng::random_between;
use crate::states::AppStates;

verus! {

/// Largest spin of a chunk, in thousandths of a radian per second.
pub const CHUNK_SPIN: i64 = 500;

/// Bounds of a chunk's scale, in thousandths.
pub const CHUNK_SCALE_MIN: i64 = 700;
pub const CHUNK_SCALE_MAX: i64 = 1200;

/// Bounds of the velocity that an explosion gives each chunk.
pub const BURST_X_MIN: i64 = -220_000;
pub const BURST_X_MAX: i64 = 220_000;
pub const BURST_Y_MIN: i64 = -40_000;
pub const BURST_Y_MAX: i64 = 500_000;

/// A piece of debris: a small body with no health that only decorates.
#[derive(Clone, Copy, Debug, PartialEq, Eq, Structural)]
pub struct ChunkComponent {
    pub entity: u64,
    /// Which of the sprites offered it shows.
    pub sprite: u32,
    pub position: Point,
    pub velocity: Velocity,
    pub scale: i64,
    pub spin: i64,
    /// Half the side of its square hitbox.
    pub hitbox: u64,
    pub state: AppStates,
}

/// Whether `c` is a chunk with the given body, place, velocity and hitbox,
/// showing one of `sprites` sprites, with a scale and spin in their ranges.
pub open spec fn chunk_as_asked(c: ChunkComponent, entity: u64, sprites: u32, position: Point, velocity: Velocity, hitbox: u64) -> bool {
    &&& c.entity == entity
    &&& c.sprite < sprites
    &&& c.position == position
    &&& c.velocity == velocity
    &&& CHUNK_SCALE_MIN <= c.scale <= CHUNK_SCALE_MAX
    &&& -CHUNK_SPIN <= c.spin <= CHUNK_SPIN
    &&& c.hitbox == hitbox
    &&& c.state == AppStates::Game
}

/// Whether `v` lies in the range that an explosion gives its chunks.
pub open spec fn burst_velocity(v: Velocity) -> bool {
    BURST_X_MIN <= v.x <= BURST_X_MAX && BURST_Y_MIN <= v.y <= BURST_Y_MAX
}

/// A chunk at `position` moving at `velocity`, with a random sprite out of
/// `sprites`, a random scale and a random spin.
pub fn spawn_chunk(entity: u64, sprites: u32, position: Point, velocity: Velocity, hitbox: u64) -> (c: ChunkComponent)
    requires
        sprites > 0,
    ensures
        chunk_as_asked(c, entity, sprites, position, velocity, hitbox),
{
    let scale = random_between(CHUNK_SCALE_MIN, CHUNK_SCALE_MAX);
    let sprite = random_between(0, sprites as i64 - 1) as u32;
    let spin = random_between(-CHUNK_SPIN, CHUNK_SPIN);
    ChunkComponent {
        entity,
        sprite,
        position,
        velocity,
        scale,
        spin,
        hitbox,
        state: AppStates::Game,
    }
}

/// `num_chunks` chunks bursting out of `position` with random velocities,
/// taking the entity numbers from `first` on.
pub fn spawn_chunk_explosion(first: u64, sprites: u32, position: Point, num_chunks: u64, hitbox: u64) -> (chunks: Vec<ChunkComponent>)
    requires
        sprites > 0,
        first <= u64::MAX - num_chunks,
    ensures
        chunks@.len() == num_chunks,
        forall|i: int| 0 <= i < chunks@.len() ==> {
            &&& chunk_as_asked(#[trigger] chunks@[i], (first + i) as u64, sprites, position, chunks@[i].velocity, hitbox)
            &&& burst_velocity(chunks@[i].velocity)
        },
{
    let mut chunks: Vec<ChunkComponent> = Vec::new();
    let mut i: u64 = 0;
    while i < num_chunks
        invariant
            sprites > 0,
            first <= u64::MAX - num_chunks,
            i <= num_chunks,
            chunks@.len() == i,
            forall|k: int| 0 <= k < chunks@.len() ==> {
                &&& chunk_as_asked(#[trigger] chunks@[k], (first + k) as u64, sprites, position, chunks@[k].velocity, hitbox)
                &&& burst_velocity(chunks@[k].velocity)
            },
        decreases num_chunks - i,
    {
        let velocity = Velocity {
            x: random_between(BURST_X_MIN, BURST_X_MAX),
            y: random_between(BURST_Y_MIN, BURST_Y_MAX),
        };
        chunks.push(spawn_chunk(first + i, sprites, position, velocity, hitbox));
        i = i + 1;
    }
    chunks
}

/// Whether a contact between louse `l` and chunk `c` begins in `events`.
pub open spec fn bitten_by(c: ChunkComponent, l: LouseComponent, events: Seq<CollisionEvent>) -> bool {
    exists|k: int| 0 <= k < events.len() && starts_contact(#[trigger] events[k], l.entity, c.entity)
}

/// Whether `e` reports that a contact between `a` and `b` began.
pub open spec fn starts_contact(e: CollisionEvent, a: u64, b: u64) -> bool {
    e == CollisionEvent::Started(a, b) || e == CollisionEvent::Started(b, a)
}

/// Whether one of `lice` begins a contact with chunk `c` in `events`.
pub open spec fn eaten(c: ChunkComponent, lice: Seq<LouseComponent>, events: Seq<CollisionEvent>) -> bool {
    exists|i: int| 0 <= i < lice.len() && bitten_by(c, #[trigger] lice[i], events)
}

/// The chunks of `chunks` that no louse reaches in `events`.
pub open spec fn uneaten(chunks: Seq<ChunkComponent>, lice: Seq<LouseComponent>, events: Seq<CollisionEvent>) -> Seq<ChunkComponent>
    decreases chunks.len(),
{
    if chunks.len() == 0 {
        Seq::empty()
    } else {
        let rest = uneaten(chunks.drop_last(), lice, events);
        if eaten(chunks.last(), lice, events) {
            rest
        } else {
            rest.push(chunks.last())
        }
    }
}

fn is_bitten_by(c: &ChunkComponent, l: &LouseComponent, events: &Vec<CollisionEvent>) -> (r: bool)
    ensures
        r == bitten_by(*c, *l, events@),
{
    let mut k: usize = 0;
    while k < events.len()
        invariant
            0 <= k <= events@.len(),
            forall|j: int| 0 <= j < k ==> !starts_contact(#[trigger] events@[j], l.entity, c.entity),
        decreases events@.len() - k,
    {
        let e = events[k];
        if e == CollisionEvent::Started(l.entity, c.entity) || e == CollisionEvent::Started(c.entity, l.entity) {
            return true;
        }
        k = k + 1;
    }
    false
}

fn is_eaten(c: &ChunkComponent, lice: &Vec<LouseComponent>, events: &Vec<CollisionEvent>) -> (r: bool)
    ensures
        r == eaten(*c, lice@, events@),
{
    let mut i: usize = 0;
    while i < lice.len()
        invariant
            0 <= i <= lice@.len(),
            forall|j: int| 0 <= j < i ==> !bitten_by(*c, #[trigger] lice@[j], events@),
        decreases lice@.len() - i,
    {
        if is_bitten_by(c, &lice[i], events) {
            return true;
        }
        i = i + 1;
    }
    false
}

/// Lice eat the chunks they touch: every chunk that a louse begins to touch
/// in `events` is removed. Returns how many were eaten.
pub fn chunk_system(chunks: &mut Vec<ChunkComponent>, lice: &Vec<LouseComponent>, events: &Vec<CollisionEvent>) -> (n: usize)
    ensures
        final(chunks)@ == uneaten(old(chunks)@, lice@, events@),
        n == old(chunks)@.len() - final(chunks)@.len(),
{
    let ghost start = chunks@;
    let mut kept: Vec<ChunkComponent> = Vec::new();
    let mut i: usize = 0;
    while i < chunks.len()
        invariant
            chunks@ == start,
            0 <= i <= start.len(),
            kept@ == uneaten(start.take(i as int), lice@, events@),
            kept@.len() <= i,
        decreases start.len() - i,
    {
        assert(start.take(i + 1).drop_last() == start.take(i as int));
        assert(start.take(i + 1).last() == start[i as int]);
        if !is_eaten(&chunks[i], lice, events) {
            kept.push(chunks[i]);
        }
        i = i + 1;
    }
    assert(start.take(start.len() as int) == start);
    let n = chunks.len() - kept.len();
    *chunks = kept;
    n
}

} // verus!
