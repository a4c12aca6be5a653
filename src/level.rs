use vstd::prelude::*;
use crate::louse::LouseType;
use crate::timer::{Timer, TimerMode};

verus! {

/// How long the player must be out of lice, with none left in play, before
/// the game is lost, in milliseconds.
pub const LOSE_TIME: u64 = 2000;

/// The lice the player gets in each game. They are taken from the back.
pub open spec fn full_queue() -> Seq<LouseType> {
    seq![
        LouseType::Basic,
        LouseType::Basic,
        LouseType::Basic,
        LouseType::Exploding,
        LouseType::Basic,
        LouseType::Exploding,
        LouseType::Basic,
        LouseType::Basic,
        LouseType::Exploding,
        LouseType::Basic,
        LouseType::Exploding,
        LouseType::Basic,
        LouseType::Basic,
        LouseType::Exploding,
        LouseType::Basic,
        LouseType::Basic,
        LouseType::Exploding,
        LouseType::Basic,
    ]
}

/// The state of one game: the lice still to fling and the defeat timer.
#[derive(Clone, Debug)]
pub struct LevelResource {
    pub louse_queue: Vec<LouseType>,
    pub lose_timer: Timer,
}

/// A defeat timer that has not started.
pub open spec fn fresh_lose_timer(t: Timer) -> bool {
    t == Timer { duration: LOSE_TIME, elapsed: 0, mode: TimerMode::Once, just_finished: false }
}

/// The defeat timer after `dt` milliseconds: it runs while the field is quiet
/// (no lice to fling and none in play) and starts over as soon as it is not.
pub open spec fn lose_step(t: Timer, quiet: bool, dt: nat) -> Timer {
    if quiet {
        t.ticked(dt)
    } else {
        Timer { elapsed: 0, just_finished: false, ..t }
    }
}

impl LevelResource {
    pub open spec fn wf(self) -> bool {
        &&& self.lose_timer.wf()
        &&& self.lose_timer.mode == TimerMode::Once
        &&& self.lose_timer.duration == LOSE_TIME
    }

    /// A level with the full queue of lice and the defeat timer at zero.
    pub fn new() -> (level: LevelResource)
        ensures
            level.wf(),
            level.louse_queue@ == full_queue(),
            fresh_lose_timer(level.lose_timer),
    {
        let louse_queue = vec![
            LouseType::Basic,
            LouseType::Basic,
            LouseType::Basic,
            LouseType::Exploding,
            LouseType::Basic,
            LouseType::Exploding,
            LouseType::Basic,
            LouseType::Basic,
            LouseType::Exploding,
            LouseType::Basic,
            LouseType::Exploding,
            LouseType::Basic,
            LouseType::Basic,
            LouseType::Exploding,
            LouseType::Basic,
            LouseType::Basic,
            LouseType::Exploding,
            LouseType::Basic,
        ];
        assert(louse_queue@ == full_queue());
        LevelResource { louse_queue, lose_timer: Timer::new(LOSE_TIME, TimerMode::Once) }
    }

    /// Takes the next louse to fling, if any is left.
    pub fn next_louse(&mut self) -> (next: Option<LouseType>)
        requires
            old(self).wf(),
        ensures
            final(self).wf(),
            final(self).lose_timer == old(self).lose_timer,
            old(self).louse_queue@.len() == 0 ==> next.is_none()
                && final(self).louse_queue@ == old(self).louse_queue@,
            old(self).louse_queue@.len() > 0 ==> next == Some(old(self).louse_queue@.last())
                && final(self).louse_queue@ == old(self).louse_queue@.drop_last(),
    {
        self.louse_queue.pop()
    }
}

/// Runs the defeat timer of `level` for `dt` milliseconds with `live_lice`
/// lice in play. Returns whether the game is now lost: the queue has been
/// empty, with no louse in play, for `LOSE_TIME` on end.
pub fn lose_system(level: &mut LevelResource, live_lice: usize, dt: u64) -> (lost: bool)
    requires
        old(level).wf(),
    ensures
        final(level).wf(),
        final(level).louse_queue == old(level).louse_queue,
        final(level).lose_timer == lose_step(
            old(level).lose_timer,
            old(level).louse_queue@.len() == 0 && live_lice == 0,
            dt as nat,
        ),
        lost == final(level).lose_timer.just_finished,
{
    if level.louse_queue.len() == 0 && live_lice == 0 {
        level.lose_timer.tick(dt);
    } else {
        level.lose_timer.reset();
    }
    level.lose_timer.just_finished
}

/// The milliseconds of the quiet stretch at the end of `ticks`, each tick
/// being whether the field was quiet and how long it lasted.
pub open spec fn quiet_stretch(ticks: Seq<(bool, nat)>) -> nat
    decreases ticks.len(),
{
    if ticks.len() == 0 {
        0
    } else if ticks.last().0 {
        quiet_stretch(ticks.drop_last()) + ticks.last().1
    } else {
        0
    }
}

/// The defeat timer after the ticks `ticks`.
pub open spec fn lose_run(t: Timer, ticks: Seq<(bool, nat)>) -> Timer
    decreases ticks.len(),
{
    if ticks.len() == 0 {
        t
    } else {
        lose_step(lose_run(t, ticks.drop_last()), ticks.last().0, ticks.last().1)
    }
}

/// From a fresh defeat timer, the timer shows the length of the quiet stretch
/// at the end of the ticks, up to `LOSE_TIME`; and the game is lost exactly
/// on the tick in which that stretch first reaches `LOSE_TIME`. A tick that is
/// not quiet (a louse still to fling or in play) starts the count over.
pub proof fn lemma_lost_after_quiet_stretch(t: Timer, ticks: Seq<(bool, nat)>)
    requires
        fresh_lose_timer(t),
    ensures
        lose_run(t, ticks).wf(),
        lose_run(t, ticks).duration == LOSE_TIME,
        lose_run(t, ticks).mode == TimerMode::Once,
        lose_run(t, ticks).elapsed == if quiet_stretch(ticks) >= LOSE_TIME {
            LOSE_TIME as nat
        } else {
            quiet_stretch(ticks)
        },
        ticks.len() > 0 ==> (lose_run(t, ticks).just_finished <==> (ticks.last().0 && quiet_stretch(ticks.drop_last()) < LOSE_TIME
            && quiet_stretch(ticks) >= LOSE_TIME)),
    decreases ticks.len(),
{
    if ticks.len() > 0 {
        lemma_lost_after_quiet_stretch(t, ticks.drop_last());
    }
}

} // verus!
