use vstd::prelude::*;
use crate::chunks::{
    chunk_as_asked, chunk_system, spawn_chunk, uneaten,
    ChunkComponent,
};
use crate::geometry::{CollisionEvent, Point, Velocity};
use crate::hair::{
    fallen, hair_system, root_count, spawn_hair, standing, HairSegment, HairWorld, MAX_MID_SEGMENTS,
    check_roots_system, lemma_planned_hair_one_root, lemma_root_count_concat, planned_hair,
    planned_joint, planned_segment, HairJoint, all_flakes, flakes_for, FLAKES_PER_SEGMENT,
};
use crate::launch::{FIRE_LINE, fling_louse_system, fling_result, FlingOutcome, LaunchResource, MouseAction};
use crate::level::{full_queue, fresh_lose_timer, lose_step, lose_system, LevelResource};
use crate::louse::{
    all_wf, louse_behavior_system, spawn_louse, spawned_from, still_resting, worn_out, LouseComponent,
    SpawnLouseEvent,
};
use crate::rng::random_between;
use crate::states::{
    advance, next_command, opening_sounds, owned_channel, phase_audio, AppStates, Command, Keys,
    PhaseAudio,
};

verus! {

/// The dandruff lying about when a game starts: how many, where, how it
/// drifts and how large its hitbox is.
pub const DANDRUFF_COUNT: u64 = 15;
pub const DANDRUFF_X_MIN: i64 = -300_000;
pub const DANDRUFF_X_MAX: i64 = 400_000;
pub const DANDRUFF_Y_MIN: i64 = -100_000;
pub const DANDRUFF_Y_MAX: i64 = 300_000;
pub const DANDRUFF_FALL: i64 = -10_000;
pub const DANDRUFF_HITBOX: u64 = 10_000;

/// The height of the scalp that the strands grow from.
pub const ROOT_Y: i32 = -130_000;

/// Entity numbers that one game's setup uses at most.
pub const SETUP_ENTITIES: u64 = 4 * (MAX_MID_SEGMENTS + 2) + DANDRUFF_COUNT;

/// The height of the scalp surface, and of the hair drawn behind the strands.
pub const FLOOR_Y: i32 = -200_000;
pub const BACK_HAIR_LOW_Y: i32 = FLOOR_Y + 90_000;
pub const BACK_HAIR_HIGH_Y: i32 = FLOOR_Y + 190_000;

/// Half the width and half the height of the scalp's collider, and how it
/// bounces and grips, in thousandths.
pub const GROUND_HALF_WIDTH: u64 = 10_000_000;
pub const GROUND_HALF_HEIGHT: u64 = 50_000;
pub const GROUND_RESTITUTION: u64 = 350;
pub const GROUND_FRICTION: u64 = 900;

/// The fixed parts of a level.
#[derive(Clone, Copy, Debug, PartialEq, Eq, Structural)]
pub enum PropKind {
    /// The dashed line that lice must be launched behind.
    FireLine,
    Background,
    /// The picture that tells how to play.
    Prompt,
    /// One of the three layers of hair drawn behind the strands.
    BackHair(u32),
    /// The picture of the scalp.
    Ground,
    /// The scalp's collider, of `GROUND_HALF_WIDTH` by `GROUND_HALF_HEIGHT`.
    GroundBody,
}

/// A fixed part of a level: where it stands, its drawing depth (lower is
/// further back) and its scale, both in thousandths.
#[derive(Clone, Copy, Debug, PartialEq, Eq, Structural)]
pub struct Prop {
    pub kind: PropKind,
    pub position: Point,
    pub depth: i32,
    pub scale: u64,
    pub state: AppStates,
}

/// The fixed parts of every level, all removed when the game ends.
pub open spec fn scenery() -> Seq<Prop> {
    seq![
        Prop { kind: PropKind::FireLine, position: Point { x: FIRE_LINE, y: 0 }, depth: (-1000) as i32, scale: 1000, state: AppStates::Game },
        Prop { kind: PropKind::Background, position: Point { x: 0, y: 0 }, depth: (-5000) as i32, scale: 1000, state: AppStates::Game },
        Prop { kind: PropKind::Prompt, position: Point { x: (-370_000) as i32, y: 180_000 }, depth: (-2000) as i32, scale: 1000, state: AppStates::Game },
        Prop { kind: PropKind::BackHair(0), position: Point { x: 0, y: BACK_HAIR_LOW_Y }, depth: (-3000) as i32, scale: 1200, state: AppStates::Game },
        Prop { kind: PropKind::BackHair(1), position: Point { x: 0, y: BACK_HAIR_HIGH_Y }, depth: (-3100) as i32, scale: 1100, state: AppStates::Game },
        Prop { kind: PropKind::BackHair(2), position: Point { x: 0, y: BACK_HAIR_HIGH_Y }, depth: (-3200) as i32, scale: 1000, state: AppStates::Game },
        Prop { kind: PropKind::Ground, position: Point { x: 0, y: FLOOR_Y }, depth: (-2000) as i32, scale: 1500, state: AppStates::Game },
        Prop { kind: PropKind::GroundBody, position: Point { x: 0, y: FLOOR_Y }, depth: (0) as i32, scale: 1000, state: AppStates::Game },
    ]
}

/// The fixed parts of a level.
pub fn scenery_props() -> (props: Vec<Prop>)
    ensures
        props@ == scenery(),
{
    let props = vec![
        Prop { kind: PropKind::FireLine, position: Point { x: FIRE_LINE, y: 0 }, depth: -1000, scale: 1000, state: AppStates::Game },
        Prop { kind: PropKind::Background, position: Point { x: 0, y: 0 }, depth: -5000, scale: 1000, state: AppStates::Game },
        Prop { kind: PropKind::Prompt, position: Point { x: -370_000, y: 180_000 }, depth: -2000, scale: 1000, state: AppStates::Game },
        Prop { kind: PropKind::BackHair(0), position: Point { x: 0, y: BACK_HAIR_LOW_Y }, depth: -3000, scale: 1200, state: AppStates::Game },
        Prop { kind: PropKind::BackHair(1), position: Point { x: 0, y: BACK_HAIR_HIGH_Y }, depth: -3100, scale: 1100, state: AppStates::Game },
        Prop { kind: PropKind::BackHair(2), position: Point { x: 0, y: BACK_HAIR_HIGH_Y }, depth: -3200, scale: 1000, state: AppStates::Game },
        Prop { kind: PropKind::Ground, position: Point { x: 0, y: FLOOR_Y }, depth: -2000, scale: 1500, state: AppStates::Game },
        Prop { kind: PropKind::GroundBody, position: Point { x: 0, y: FLOOR_Y }, depth: 0, scale: 1000, state: AppStates::Game },
    ];
    assert(props@ == scenery());
    props
}

/// Everything that one tick of play changed besides the game itself.
#[derive(Clone, Debug)]
pub struct TickReport {
    /// Lice that rested too long and were removed.
    pub despawned: Vec<LouseComponent>,
    /// Segments brought down this tick.
    pub fallen: Vec<HairSegment>,
    /// For each fallen segment, the flakes it burst into.
    pub flakes: Vec<Vec<ChunkComponent>>,
    /// How many chunks the lice ate.
    pub eaten: usize,
    /// Whether the defeat timer has just run out.
    pub lost: bool,
    /// Where the phase machine goes next.
    pub command: Command,
}

/// The whole simulation: the current phase and everything in play.
#[derive(Clone, Debug)]
pub struct Game {
    pub state: AppStates,
    pub level: LevelResource,
    pub launch: LaunchResource,
    pub hairs: HairWorld,
    pub lice: Vec<LouseComponent>,
    pub chunks: Vec<ChunkComponent>,
    /// The fixed parts of the level in play.
    pub props: Vec<Prop>,
    /// The number the next new body gets.
    pub next_entity: u64,
}

/// Whether `segs` and `joints` end with a strand with `n` middle segments,
/// rooted at `base`, whose segments take the entity numbers from `first` on.
pub open spec fn strand_on_top(segs: Seq<HairSegment>, joints: Seq<HairJoint>, base: Point, n: nat, first: u64) -> bool {
    &&& segs.len() >= n + 2
    &&& joints.len() >= n + 1
    &&& forall|k: int| 0 <= k < n + 2 ==> #[trigger] segs[segs.len() - (n + 2) + k] == planned_segment(base, n, first, k as nat)
    &&& forall|k: int| 0 <= k < n + 1 ==> #[trigger] joints[joints.len() - (n + 1) + k] == planned_joint(n, first, k as nat)
}

/// Whether `segs` and `joints` are, one after another, freshly built strands
/// rooted on the scalp at the abscissas `xs`, each with up to
/// `MAX_MID_SEGMENTS` middle segments, numbered on from `first`.
pub open spec fn strands_at(segs: Seq<HairSegment>, joints: Seq<HairJoint>, xs: Seq<i32>, first: u64) -> bool
    decreases xs.len(),
{
    if xs.len() == 0 {
        segs.len() == 0 && joints.len() == 0
    } else {
        exists|n: nat|
            n <= MAX_MID_SEGMENTS && #[trigger] strand_on_top(
                segs,
                joints,
                Point { x: xs.last(), y: ROOT_Y },
                n,
                (first + segs.len() - (n + 2)) as u64,
            ) && strands_at(
                segs.take(segs.len() - (n + 2)),
                joints.take(joints.len() - (n + 1)),
                xs.drop_last(),
                first,
            )
    }
}

/// The abscissas of the four strands of a level.
pub open spec fn strand_roots() -> Seq<i32> {
    seq![0i32, 350_000i32, 170_000i32, (-190_000) as i32]
}

/// Whether `c` is a piece of dandruff as a level starts with: body `entity`,
/// one of `sprites` sprites, somewhere in the scatter area, drifting down.
pub open spec fn dandruff_as_asked(c: ChunkComponent, entity: u64, sprites: u32) -> bool {
    &&& chunk_as_asked(c, entity, sprites, c.position, Velocity { x: 0, y: DANDRUFF_FALL }, DANDRUFF_HITBOX)
    &&& DANDRUFF_X_MIN <= c.position.x <= DANDRUFF_X_MAX
    &&& DANDRUFF_Y_MIN <= c.position.y <= DANDRUFF_Y_MAX
}

/// Whether `g` holds a level just built with entity numbers from `first`
/// on: the full queue, a defeat timer at zero, no drag, the scenery, the four
/// strands at `strand_roots()` and then `DANDRUFF_COUNT` pieces of dandruff,
/// all tagged with the game phase, and no louse.
pub open spec fn fresh_level(g: Game, first: u64, sprites: u32) -> bool {
    &&& g.level.louse_queue@ == full_queue()
    &&& fresh_lose_timer(g.level.lose_timer)
    &&& g.launch.initial_position.is_none()
    &&& g.props@ == scenery()
    &&& strands_at(g.hairs.segments@, g.hairs.joints@, strand_roots(), first)
    &&& root_count(g.hairs.segments@) == 4
    &&& forall|k: int| 0 <= k < g.hairs.segments@.len() ==> #[trigger] g.hairs.segments@[k].state == AppStates::Game
    &&& g.lice@.len() == 0
    &&& g.chunks@.len() == DANDRUFF_COUNT
    &&& forall|k: int| 0 <= k < DANDRUFF_COUNT ==> #[trigger] dandruff_as_asked(g.chunks@[k], (first + g.hairs.segments@.len() + k) as u64, sprites)
}

fn append_chunks(dst: &mut Vec<ChunkComponent>, src: &Vec<ChunkComponent>)
    ensures
        final(dst)@ == old(dst)@ + src@,
{
    let mut i: usize = 0;
    while i < src.len()
        invariant
            0 <= i <= src@.len(),
            dst@ == old(dst)@ + src@.take(i as int),
        decreases src@.len() - i,
    {
        assert(src@.take(i + 1) == src@.take(i as int).push(src@[i as int]));
        dst.push(src[i]);
        i = i + 1;
    }
    assert(src@.take(src@.len() as int) == src@);
}

impl Game {
    pub open spec fn wf(self) -> bool {
        &&& self.level.wf()
        &&& self.hairs.wf()
        &&& all_wf(self.lice@)
    }

    /// A program that starts by loading the main menu, with nothing in play.
    pub fn new() -> (g: Game)
        ensures
            g.wf(),
            g.state == AppStates::LoadingMainMenu,
            g.hairs.segments@.len() == 0,
            g.lice@.len() == 0,
            g.chunks@.len() == 0,
            g.next_entity == 0,
    {
        Game {
            state: AppStates::LoadingMainMenu,
            level: LevelResource::new(),
            launch: LaunchResource::new(),
            hairs: HairWorld::new(),
            lice: Vec::new(),
            chunks: Vec::new(),
            props: Vec::new(),
            next_entity: 0,
        }
    }
}

impl Game {
    fn plant_hair(&mut self, x: i32, Ghost(xs): Ghost<Seq<i32>>, Ghost(first): Ghost<u64>)
        requires
            old(self).hairs.wf(),
            old(self).next_entity <= u64::MAX - (MAX_MID_SEGMENTS + 2),
            old(self).next_entity == first + old(self).hairs.segments@.len(),
            strands_at(old(self).hairs.segments@, old(self).hairs.joints@, xs, first),
            forall|i: int| 0 <= i < old(self).hairs.segments@.len() ==> #[trigger] old(self).hairs.segments@[i].state == AppStates::Game,
        ensures
            final(self).hairs.wf(),
            root_count(final(self).hairs.segments@) == root_count(old(self).hairs.segments@) + 1,
            old(self).next_entity < final(self).next_entity <= old(self).next_entity + MAX_MID_SEGMENTS + 2,
            final(self).next_entity == first + final(self).hairs.segments@.len(),
            strands_at(final(self).hairs.segments@, final(self).hairs.joints@, xs.push(x), first),
            forall|i: int| 0 <= i < final(self).hairs.segments@.len() ==> #[trigger] final(self).hairs.segments@[i].state == AppStates::Game,
            final(self).state == old(self).state,
            final(self).level == old(self).level,
            final(self).launch == old(self).launch,
            final(self).lice == old(self).lice,
            final(self).chunks == old(self).chunks,
            final(self).props == old(self).props,
    {
        let base = Point { x, y: ROOT_Y };
        let h = spawn_hair(base, self.next_entity);
        let ghost n = choose|n: nat| n <= MAX_MID_SEGMENTS && #[trigger] planned_hair(base, n, old(self).next_entity, h);
        let ghost hs = h.segments@;
        let ghost hj = h.joints@;
        proof {
            lemma_planned_hair_one_root(base, n, old(self).next_entity, h);
            lemma_root_count_concat(self.hairs.segments@, h.segments@);
        }
        let count = h.segments.len() as u64;
        self.hairs.add_hair(h);
        self.next_entity = self.next_entity + count;
        proof {
            let segs = self.hairs.segments@;
            let joints = self.hairs.joints@;
            let os = old(self).hairs.segments@;
            let oj = old(self).hairs.joints@;
            assert(segs.take(segs.len() - (n + 2)) == os);
            assert(joints.take(joints.len() - (n + 1)) == oj);
            assert forall|k: int| 0 <= k < n + 2 implies #[trigger] segs[segs.len() - (n + 2) + k] == planned_segment(base, n, old(self).next_entity, k as nat) by {
                assert(segs[segs.len() - (n + 2) + k] == hs[k]);
            }
            assert forall|k: int| 0 <= k < n + 1 implies #[trigger] joints[joints.len() - (n + 1) + k] == planned_joint(n, old(self).next_entity, k as nat) by {
                assert(joints[joints.len() - (n + 1) + k] == hj[k]);
            }
            assert(strand_on_top(segs, joints, base, n, (first + segs.len() - (n + 2)) as u64));
            assert(xs.push(x).drop_last() == xs);
            assert(xs.push(x).last() == x);
            assert forall|i: int| 0 <= i < segs.len() implies #[trigger] segs[i].state == AppStates::Game by {
                if i >= os.len() {
                    assert(segs[i] == hs[i - os.len()]);
                    assert(hs[i - os.len()] == planned_segment(base, n, old(self).next_entity, (i - os.len()) as nat));
                }
            }
        }
    }

    /// Builds the level for a new game: the full queue of lice, the scenery,
    /// four fresh strands rooted along the scalp and dandruff scattered about,
    /// all tagged with the game phase, with nothing else in play.
    pub fn setup_game_system(&mut self, dandruff_sprites: u32)
        requires
            old(self).wf(),
            dandruff_sprites > 0,
            old(self).next_entity <= u64::MAX - SETUP_ENTITIES,
        ensures
            final(self).wf(),
            final(self).state == old(self).state,
            fresh_level(*final(self), old(self).next_entity, dandruff_sprites),
            old(self).next_entity < final(self).next_entity <= old(self).next_entity + SETUP_ENTITIES,
    {
        let ghost first = self.next_entity;
        self.level = LevelResource::new();
        self.launch = LaunchResource::new();
        self.hairs = HairWorld::new();
        self.lice = Vec::new();
        self.chunks = Vec::new();
        self.props = scenery_props();
        let ghost none: Seq<i32> = Seq::empty();
        let ghost one: Seq<i32> = none.push(0);
        let ghost two: Seq<i32> = one.push(350_000);
        let ghost three: Seq<i32> = two.push(170_000);
        self.plant_hair(0, Ghost(none), Ghost(first));
        self.plant_hair(350_000, Ghost(one), Ghost(first));
        self.plant_hair(170_000, Ghost(two), Ghost(first));
        self.plant_hair(-190_000, Ghost(three), Ghost(first));
        assert(three.push((-190_000) as i32) == strand_roots());
        let ghost dandruff_first = self.next_entity;
        let mut i: u64 = 0;
        while i < DANDRUFF_COUNT
            invariant
                self.wf(),
                self.state == old(self).state,
                self.level.louse_queue@ == full_queue(),
                fresh_lose_timer(self.level.lose_timer),
                self.launch.initial_position.is_none(),
                root_count(self.hairs.segments@) == 4,
                strands_at(self.hairs.segments@, self.hairs.joints@, strand_roots(), first),
                forall|k: int| 0 <= k < self.hairs.segments@.len() ==> #[trigger] self.hairs.segments@[k].state == AppStates::Game,
                self.props@ == scenery(),
                self.lice@.len() == 0,
                dandruff_sprites > 0,
                i <= DANDRUFF_COUNT,
                self.chunks@.len() == i,
                first == old(self).next_entity,
                dandruff_first == first + self.hairs.segments@.len(),
                self.next_entity == dandruff_first + i,
                old(self).next_entity <= u64::MAX - SETUP_ENTITIES,
                old(self).next_entity < dandruff_first,
                dandruff_first + DANDRUFF_COUNT <= old(self).next_entity + SETUP_ENTITIES,
                forall|k: int| 0 <= k < i ==> #[trigger] dandruff_as_asked(self.chunks@[k], (dandruff_first + k) as u64, dandruff_sprites),
            decreases DANDRUFF_COUNT - i,
        {
            let position = Point {
                x: random_between(DANDRUFF_X_MIN, DANDRUFF_X_MAX) as i32,
                y: random_between(DANDRUFF_Y_MIN, DANDRUFF_Y_MAX) as i32,
            };
            let c = spawn_chunk(self.next_entity, dandruff_sprites, position, Velocity { x: 0, y: DANDRUFF_FALL }, DANDRUFF_HITBOX);
            self.chunks.push(c);
            self.next_entity = self.next_entity + 1;
            i = i + 1;
        }
    }

    /// Ends the current phase and starts `to`. Leaving a game removes
    /// everything in play; entering one builds a new level. Returns what the
    /// audio channels are to do.
    pub fn change_state(&mut self, to: AppStates, dandruff_sprites: u32) -> (audio: PhaseAudio)
        requires
            old(self).wf(),
            dandruff_sprites > 0,
            old(self).next_entity <= u64::MAX - SETUP_ENTITIES,
        ensures
            final(self).wf(),
            final(self).state == to,
            audio.stop == owned_channel(old(self).state),
            audio.play@ == opening_sounds(to),
            to != AppStates::Game && old(self).state == AppStates::Game ==> {
                &&& final(self).props@.len() == 0
                &&& final(self).hairs.segments@.len() == 0
                &&& final(self).hairs.joints@.len() == 0
                &&& final(self).lice@.len() == 0
                &&& final(self).chunks@.len() == 0
            },
            to != AppStates::Game && old(self).state != AppStates::Game ==> {
                &&& final(self).hairs == old(self).hairs
                &&& final(self).props == old(self).props
                &&& final(self).lice == old(self).lice
                &&& final(self).chunks == old(self).chunks
            },
            to == AppStates::Game ==> fresh_level(*final(self), old(self).next_entity, dandruff_sprites),
    {
        let audio = phase_audio(self.state, to);
        if self.state == AppStates::Game {
            self.hairs = HairWorld::new();
            self.lice = Vec::new();
            self.chunks = Vec::new();
            self.props = Vec::new();
            self.launch.initial_position = None;
        }
        self.state = to;
        if to == AppStates::Game {
            self.setup_game_system(dandruff_sprites);
        }
        audio
    }

    /// Puts a louse into play for a spawn request; returns its entity number.
    pub fn spawn_louse_system(&mut self, event: &SpawnLouseEvent) -> (entity: u64)
        requires
            old(self).wf(),
            old(self).next_entity < u64::MAX,
        ensures
            final(self).wf(),
            entity == old(self).next_entity,
            final(self).next_entity == old(self).next_entity + 1,
            final(self).lice@.len() == old(self).lice@.len() + 1,
            final(self).lice@.drop_last() == old(self).lice@,
            spawned_from(final(self).lice@.last(), entity, *event),
            final(self).state == old(self).state,
            final(self).launch == old(self).launch,
            final(self).level == old(self).level,
            final(self).hairs == old(self).hairs,
            final(self).chunks == old(self).chunks,
    {
        let entity = self.next_entity;
        let l = spawn_louse(entity, event);
        self.lice.push(l);
        self.next_entity = entity + 1;
        assert(self.lice@.drop_last() == old(self).lice@);
        assert forall|i: int| 0 <= i < self.lice@.len() implies #[trigger] self.lice@[i].wf() by {
            if i < old(self).lice@.len() {
                assert(self.lice@[i] == old(self).lice@[i]);
            }
        }
        entity
    }

    /// Handles this tick's mouse input; a launch puts its louse into play.
    pub fn fling(&mut self, action: MouseAction, cursor: Option<Point>) -> (out: FlingOutcome)
        requires
            old(self).wf(),
            old(self).next_entity < u64::MAX,
        ensures
            final(self).wf(),
            final(self).state == old(self).state,
            final(self).hairs == old(self).hairs,
            final(self).chunks == old(self).chunks,
            final(self).level.lose_timer == old(self).level.lose_timer,
            (final(self).launch, final(self).level.louse_queue@, out) == fling_result(
                old(self).launch,
                old(self).level.louse_queue@,
                action,
                cursor,
            ),
            out.spawn.is_none() ==> final(self).lice == old(self).lice
                && final(self).next_entity == old(self).next_entity,
            out.spawn.is_some() ==> {
                &&& final(self).lice@.drop_last() == old(self).lice@
                &&& spawned_from(final(self).lice@.last(), old(self).next_entity, out.spawn.unwrap())
                &&& final(self).next_entity == old(self).next_entity + 1
            },
    {
        let out = fling_louse_system(&mut self.launch, &mut self.level, action, cursor);
        if let Some(event) = out.spawn {
            self.spawn_louse_system(&event);
        }
        out
    }

    /// Takes in a louse's position and velocity from the physics world.
    pub fn set_louse_motion(&mut self, index: usize, position: Point, velocity: Velocity)
        requires
            old(self).wf(),
            index < old(self).lice@.len(),
        ensures
            final(self).wf(),
            final(self).lice@.len() == old(self).lice@.len(),
            final(self).lice@[index as int] == (LouseComponent {
                position,
                velocity,
                speed: final(self).lice@[index as int].speed,
                ..old(self).lice@[index as int]
            }),
            forall|i: int| 0 <= i < old(self).lice@.len() && i != index ==> final(self).lice@[i] == old(self).lice@[i],
            final(self).state == old(self).state,
            final(self).level == old(self).level,
            final(self).hairs == old(self).hairs,
            final(self).chunks == old(self).chunks,
    {
        let mut l = self.lice[index];
        l.set_motion(position, velocity);
        self.lice.set(index, l);
        assert forall|i: int| 0 <= i < self.lice@.len() implies #[trigger] self.lice@[i].wf() by {
            if i != index {
                assert(self.lice@[i] == old(self).lice@[i]);
            }
        }
    }

    /// One tick of play, in order: lice that rested too long leave; the
    /// contacts that ended hurt the strands, and each segment brought down
    /// bursts into flakes; lice eat the chunks they touch; the defeat timer
    /// runs; and the phase machine decides, victory first.
    pub fn play_tick(&mut self, events: &Vec<CollisionEvent>, dt: u64, keys: &Keys, flake_sprites: u32) -> (r: TickReport)
        requires
            old(self).wf(),
            flake_sprites > 0,
            old(self).next_entity <= u64::MAX - FLAKES_PER_SEGMENT * old(self).hairs.segments@.len(),
        ensures
            final(self).wf(),
            final(self).state == old(self).state,
            final(self).launch == old(self).launch,
            final(self).lice@ == still_resting(old(self).lice@, dt as nat),
            r.despawned@ == worn_out(old(self).lice@, dt as nat),
            final(self).hairs.segments@ == standing(old(self).hairs.segments@, final(self).lice@, events@),
            r.fallen@ == fallen(old(self).hairs.segments@, final(self).lice@, events@),
            flakes_for(r.fallen@, r.flakes@, flake_sprites),
            final(self).chunks@ == uneaten(old(self).chunks@, final(self).lice@, events@) + all_flakes(r.flakes@),
            r.eaten == old(self).chunks@.len() - uneaten(old(self).chunks@, final(self).lice@, events@).len(),
            final(self).next_entity == old(self).next_entity + FLAKES_PER_SEGMENT * r.fallen@.len(),
            final(self).level.louse_queue == old(self).level.louse_queue,
            final(self).level.lose_timer == lose_step(
                old(self).level.lose_timer,
                old(self).level.louse_queue@.len() == 0 && final(self).lice@.len() == 0,
                dt as nat,
            ),
            r.lost == final(self).level.lose_timer.just_finished,
            r.command == next_command(
                AppStates::Game,
                *keys,
                false,
                root_count(final(self).hairs.segments@) == 0,
                r.lost,
            ),
    {
        let despawned = louse_behavior_system(&mut self.lice, dt);
        let ghost before = self.hairs.segments@;
        let tick = hair_system(&mut self.hairs, &self.lice, events, self.next_entity, flake_sprites);
        let eaten = chunk_system(&mut self.chunks, &self.lice, events);
        let ghost base = self.chunks@;
        let mut j: usize = 0;
        while j < tick.flakes.len()
            invariant
                0 <= j <= tick.flakes@.len(),
                self.chunks@ == base + all_flakes(tick.flakes@.take(j as int)),
                self.wf(),
                self.state == old(self).state,
                self.launch == old(self).launch,
                self.next_entity == old(self).next_entity,
                self.level == old(self).level,
                self.lice@ == still_resting(old(self).lice@, dt as nat),
                self.hairs.segments@ == standing(old(self).hairs.segments@, self.lice@, events@),
            decreases tick.flakes@.len() - j,
        {
            assert(tick.flakes@.take(j + 1).drop_last() == tick.flakes@.take(j as int));
            assert(tick.flakes@.take(j + 1).last() == tick.flakes@[j as int]);
            append_chunks(&mut self.chunks, &tick.flakes[j]);
            j = j + 1;
        }
        assert(tick.flakes@.take(tick.flakes@.len() as int) == tick.flakes@);
        assert(FLAKES_PER_SEGMENT * tick.fallen@.len() <= FLAKES_PER_SEGMENT * before.len()) by (nonlinear_arith)
            requires
                tick.fallen@.len() <= before.len(),
        ;
        self.next_entity = self.next_entity + FLAKES_PER_SEGMENT * tick.fallen.len() as u64;
        let lost = lose_system(&mut self.level, self.lice.len(), dt);
        let no_roots = check_roots_system(&self.hairs);
        let command = advance(AppStates::Game, keys, false, no_roots, lost);
        TickReport { despawned, fallen: tick.fallen, flakes: tick.flakes, eaten, lost, command }
    }
}


} // verus!
