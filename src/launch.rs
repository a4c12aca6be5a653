use vstd::prelude::*;
use crate::geometry::{Point, Velocity};
use crate::level::LevelResource;
use crate::louse::{LouseType, SpawnLouseEvent};

verus! {

/// Lice can be aimed and let go only left of this line.
pub const FIRE_LINE: i32 = -300_000;

/// How much faster a louse flies than the drag that launched it.
pub const VELOCITY_MULTIPLIER: i32 = 7;

/// The sound that answers a press or a release.
#[derive(Clone, Copy, Debug, PartialEq, Eq, Structural)]
pub enum Cue {
    /// The slingshot is drawn.
    Pull,
    /// The slingshot lets go; whatever the channel was playing stops first.
    Release,
    /// The action is refused; whatever the channel was playing stops first.
    Rejected,
}

/// What the mouse button did this tick.
#[derive(Clone, Copy, Debug, PartialEq, Eq, Structural)]
pub enum MouseAction {
    Idle,
    Press,
    Release,
}

/// What a tick of input handling asks of the world.
#[derive(Clone, Copy, Debug, PartialEq, Eq, Structural)]
pub struct FlingOutcome {
    pub cue: Option<Cue>,
    pub spawn: Option<SpawnLouseEvent>,
}

/// The drag in progress, if any, and how drags turn into velocities.
#[derive(Clone, Copy, Debug, PartialEq, Eq, Structural)]
pub struct LaunchResource {
    pub initial_position: Option<Point>,
    pub velocity_multiplier: i32,
}

/// Whether `p` lies on the side of the fire line where lice may be launched.
pub open spec fn behind_line(p: Point) -> bool {
    p.x < FIRE_LINE
}

/// The velocity of a louse dragged from `from` and let go at `to`.
pub open spec fn launch_velocity(from: Point, to: Point, multiplier: i32) -> Velocity {
    Velocity {
        x: ((from.x - to.x) * multiplier) as i64,
        y: ((from.y - to.y) * multiplier) as i64,
    }
}

fn scaled_difference(a: i32, b: i32, m: i32) -> (r: i64)
    ensures
        r == (a - b) * m,
{
    let d: i64 = a as i64 - b as i64;
    assert(-0x1_0000_0000 < d < 0x1_0000_0000);
    assert(-0x8000_0000_0000_0000 < d * (m as i64) < 0x8000_0000_0000_0000) by (nonlinear_arith)
        requires
            -0x1_0000_0000 < d < 0x1_0000_0000,
            -0x8000_0000 <= m < 0x8000_0000,
    ;
    d * (m as i64)
}

impl LaunchResource {
    pub fn new() -> (r: LaunchResource)
        ensures
            r.initial_position.is_none(),
            r.velocity_multiplier == VELOCITY_MULTIPLIER,
    {
        LaunchResource { initial_position: None, velocity_multiplier: VELOCITY_MULTIPLIER }
    }

    /// The button goes down with the cursor at `cursor` (none when the cursor
    /// is off the view). A drag starts only behind the fire line and while
    /// lice are left to fling.
    pub fn press(&mut self, level: &LevelResource, cursor: Option<Point>) -> (cue: Cue)
        ensures
            final(self).velocity_multiplier == old(self).velocity_multiplier,
            match cursor {
                Some(p) if behind_line(p) && level.louse_queue@.len() > 0 => {
                    &&& cue == Cue::Pull
                    &&& final(self).initial_position == Some(p)
                },
                _ => {
                    &&& cue == Cue::Rejected
                    &&& *final(self) == *old(self)
                },
            },
    {
        match cursor {
            Some(p) => {
                if p.x < FIRE_LINE && level.louse_queue.len() > 0 {
                    self.initial_position = Some(p);
                    Cue::Pull
                } else {
                    Cue::Rejected
                }
            },
            None => Cue::Rejected,
        }
    }

    /// The button comes up with the cursor at `cursor`. A drag in progress
    /// launches the next louse from the queue if the cursor is behind the
    /// fire line, and is dropped without using up a louse otherwise. The drag
    /// ends either way.
    pub fn release(&mut self, level: &mut LevelResource, cursor: Option<Point>) -> (out: FlingOutcome)
        requires
            old(level).wf(),
        ensures
            final(level).wf(),
            final(self).initial_position.is_none(),
            final(self).velocity_multiplier == old(self).velocity_multiplier,
            match (old(self).initial_position, cursor) {
                (None, _) => {
                    &&& out == FlingOutcome { cue: None, spawn: None }
                    &&& *final(level) == *old(level)
                },
                (Some(from), Some(to)) if behind_line(to) => {
                    &&& out.cue == Some(Cue::Release)
                    &&& final(level).lose_timer == old(level).lose_timer
                    &&& if old(level).louse_queue@.len() > 0 {
                        &&& out.spawn == Some(
                            SpawnLouseEvent {
                                position: to,
                                velocity: launch_velocity(from, to, old(self).velocity_multiplier),
                                louse_type: old(level).louse_queue@.last(),
                            },
                        )
                        &&& final(level).louse_queue@ == old(level).louse_queue@.drop_last()
                    } else {
                        &&& out.spawn.is_none()
                        &&& final(level).louse_queue@ == old(level).louse_queue@
                    }
                },
                (Some(_), _) => {
                    &&& out == FlingOutcome { cue: Some(Cue::Rejected), spawn: None }
                    &&& *final(level) == *old(level)
                },
            },
    {
        let out = match (self.initial_position, cursor) {
            (None, _) => FlingOutcome { cue: None, spawn: None },
            (Some(from), Some(to)) => {
                if to.x < FIRE_LINE {
                    let velocity = Velocity {
                        x: scaled_difference(from.x, to.x, self.velocity_multiplier),
                        y: scaled_difference(from.y, to.y, self.velocity_multiplier),
                    };
                    let spawn = match level.next_louse() {
                        Some(louse_type) => Some(SpawnLouseEvent { position: to, velocity, louse_type }),
                        None => None,
                    };
                    FlingOutcome { cue: Some(Cue::Release), spawn }
                } else {
                    FlingOutcome { cue: Some(Cue::Rejected), spawn: None }
                }
            },
            (Some(_), None) => FlingOutcome { cue: Some(Cue::Rejected), spawn: None },
        };
        self.initial_position = None;
        out
    }
}

/// The drag state, the queue of lice and the outcome after a tick of mouse
/// input `action` with the cursor at `cursor`, from drag state `launch` and
/// queue `queue`.
///
/// A press behind the fire line while lice are left starts a drag from the
/// cursor with the pull cue; any other press, including one with the cursor
/// off the view, is refused and changes nothing. A release with a drag in
/// progress ends the drag: behind the line it launches the last louse of the
/// queue (if any) from the cursor with the release cue; elsewhere, or off the
/// view, it is refused and uses up no louse. A release with no drag does
/// nothing.
pub open spec fn fling_result(launch: LaunchResource, queue: Seq<LouseType>, action: MouseAction, cursor: Option<Point>) -> (LaunchResource, Seq<LouseType>, FlingOutcome) {
    let nothing = FlingOutcome { cue: None, spawn: None };
    let refused = FlingOutcome { cue: Some(Cue::Rejected), spawn: None };
    let ended = LaunchResource { initial_position: None, ..launch };
    match action {
        MouseAction::Idle => (launch, queue, nothing),
        MouseAction::Press => match cursor {
            Some(p) if behind_line(p) && queue.len() > 0 => (
                LaunchResource { initial_position: Some(p), ..launch },
                queue,
                FlingOutcome { cue: Some(Cue::Pull), spawn: None },
            ),
            _ => (launch, queue, refused),
        },
        MouseAction::Release => match (launch.initial_position, cursor) {
            (None, _) => (ended, queue, nothing),
            (Some(from), Some(to)) if behind_line(to) => if queue.len() > 0 {
                (
                    ended,
                    queue.drop_last(),
                    FlingOutcome {
                        cue: Some(Cue::Release),
                        spawn: Some(
                            SpawnLouseEvent {
                                position: to,
                                velocity: launch_velocity(from, to, launch.velocity_multiplier),
                                louse_type: queue.last(),
                            },
                        ),
                    },
                )
            } else {
                (ended, queue, FlingOutcome { cue: Some(Cue::Release), spawn: None })
            },
            (Some(_), _) => (ended, queue, refused),
        },
    }
}

/// One tick of slingshot input: a press may start a drag, a release may
/// launch a louse.
pub fn fling_louse_system(launch: &mut LaunchResource, level: &mut LevelResource, action: MouseAction, cursor: Option<Point>) -> (out: FlingOutcome)
    requires
        old(level).wf(),
    ensures
        final(level).wf(),
        final(level).lose_timer == old(level).lose_timer,
        (*final(launch), final(level).louse_queue@, out) == fling_result(
            *old(launch),
            old(level).louse_queue@,
            action,
            cursor,
        ),
{
    match action {
        MouseAction::Idle => FlingOutcome { cue: None, spawn: None },
        MouseAction::Press => {
            let cue = launch.press(level, cursor);
            FlingOutcome { cue: Some(cue), spawn: None }
        },
        MouseAction::Release => launch.release(level, cursor),
    }
}

} // verus!
