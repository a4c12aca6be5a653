use vstd::prelude::*;
use crate::timer::{Timer, TimerMode};

verus! {

/// The phases of the game. Exactly one is active at a time.
#[derive(Clone, Copy, Debug, PartialEq, Eq, Structural)]
pub enum AppStates {
    LoadingMainMenu,
    MainMenu,
    PauseMenu,
    LoadingGame,
    Game,
    GameOver,
    Victory,
    Credits,
    Instructions,
}

/// Tags an entity with the phase whose end removes it.
#[derive(Clone, Copy, Debug, PartialEq, Eq, Structural)]
pub struct AppStateComponent(pub AppStates);

/// The keys released this frame.
#[derive(Clone, Copy, Debug, PartialEq, Eq, Structural)]
pub struct Keys {
    /// Return or Space.
    pub start: bool,
    /// C.
    pub credits: bool,
    /// M.
    pub menu: bool,
    /// Escape.
    pub quit: bool,
    /// L, which gives up the game at once.
    pub lose: bool,
    /// W, which wins the game at once.
    pub win: bool,
}

/// What the phase machine does at the end of a frame.
#[derive(Clone, Copy, Debug, PartialEq, Eq, Structural)]
pub enum Command {
    Stay,
    Go(AppStates),
    Quit,
}

/// From the game-over or victory screen, or the instructions: start a game.
pub fn start_game_system(keys: &Keys) -> (next: Option<AppStates>)
    ensures
        next == if keys.start { Some(AppStates::LoadingGame) } else { None::<AppStates> },
{
    if keys.start { Some(AppStates::LoadingGame) } else { None }
}

/// In a game: give up at once.
pub fn start_gameover_system(keys: &Keys) -> (next: Option<AppStates>)
    ensures
        next == if keys.lose { Some(AppStates::GameOver) } else { None::<AppStates> },
{
    if keys.lose { Some(AppStates::GameOver) } else { None }
}

/// In a game: win at once.
pub fn start_victory_system(keys: &Keys) -> (next: Option<AppStates>)
    ensures
        next == if keys.win { Some(AppStates::Victory) } else { None::<AppStates> },
{
    if keys.win { Some(AppStates::Victory) } else { None }
}

/// From the main menu: read the instructions.
pub fn start_instructions_system(keys: &Keys) -> (next: Option<AppStates>)
    ensures
        next == if keys.start { Some(AppStates::Instructions) } else { None::<AppStates> },
{
    if keys.start { Some(AppStates::Instructions) } else { None }
}

/// From the main menu: see the credits.
pub fn start_credits_system(keys: &Keys) -> (next: Option<AppStates>)
    ensures
        next == if keys.credits { Some(AppStates::Credits) } else { None::<AppStates> },
{
    if keys.credits { Some(AppStates::Credits) } else { None }
}

/// From the credits: back to the main menu.
pub fn start_main_menu_system(keys: &Keys) -> (next: Option<AppStates>)
    ensures
        next == if keys.menu { Some(AppStates::MainMenu) } else { None::<AppStates> },
{
    if keys.menu { Some(AppStates::MainMenu) } else { None }
}

/// From a menu: leave the program.
pub fn quit_game_system(keys: &Keys) -> (quit: bool)
    ensures
        quit == keys.quit,
{
    keys.quit
}

/// The phase machine's rule: where `state` goes at the end of a frame, given
/// the keys released, whether the assets it waits for are loaded, whether no
/// root is left and whether the defeat timer has just run out. Where several
/// apply, leaving the program comes first, then victory, then defeat, then
/// the other keys in the order start, credits, menu.
pub open spec fn next_command(state: AppStates, keys: Keys, loaded: bool, no_roots: bool, lost: bool) -> Command {
    match state {
        AppStates::LoadingMainMenu => if loaded { Command::Go(AppStates::MainMenu) } else { Command::Stay },
        AppStates::LoadingGame => if loaded { Command::Go(AppStates::Game) } else { Command::Stay },
        AppStates::MainMenu => if keys.quit {
            Command::Quit
        } else if keys.start {
            Command::Go(AppStates::Instructions)
        } else if keys.credits {
            Command::Go(AppStates::Credits)
        } else {
            Command::Stay
        },
        AppStates::Game => if no_roots || keys.win {
            Command::Go(AppStates::Victory)
        } else if lost || keys.lose {
            Command::Go(AppStates::GameOver)
        } else {
            Command::Stay
        },
        AppStates::GameOver | AppStates::Victory => if keys.quit {
            Command::Quit
        } else if keys.start {
            Command::Go(AppStates::LoadingGame)
        } else {
            Command::Stay
        },
        AppStates::Instructions => if keys.start { Command::Go(AppStates::LoadingGame) } else { Command::Stay },
        AppStates::Credits => if keys.menu { Command::Go(AppStates::MainMenu) } else { Command::Stay },
        AppStates::PauseMenu => Command::Stay,
    }
}

fn either(a: Option<AppStates>, b: Option<AppStates>) -> (r: Option<AppStates>)
    ensures
        r == if a.is_some() { a } else { b },
{
    if a.is_some() { a } else { b }
}

/// Runs the systems of the current phase and settles on one command.
pub fn advance(state: AppStates, keys: &Keys, loaded: bool, no_roots: bool, lost: bool) -> (c: Command)
    ensures
        c == next_command(state, *keys, loaded, no_roots, lost),
{
    let pick = match state {
        AppStates::LoadingMainMenu => if loaded { Some(AppStates::MainMenu) } else { None },
        AppStates::LoadingGame => if loaded { Some(AppStates::Game) } else { None },
        AppStates::MainMenu => {
            if quit_game_system(keys) {
                return Command::Quit;
            }
            either(start_instructions_system(keys), start_credits_system(keys))
        },
        AppStates::Game => {
            let won = if no_roots { Some(AppStates::Victory) } else { start_victory_system(keys) };
            let gave_up = if lost { Some(AppStates::GameOver) } else { start_gameover_system(keys) };
            either(won, gave_up)
        },
        AppStates::GameOver | AppStates::Victory => {
            if quit_game_system(keys) {
                return Command::Quit;
            }
            start_game_system(keys)
        },
        AppStates::Instructions => start_game_system(keys),
        AppStates::Credits => start_main_menu_system(keys),
        AppStates::PauseMenu => None,
    };
    match pick {
        Some(s) => Command::Go(s),
        None => Command::Stay,
    }
}

/// The audio channels, each of which plays one sound at a time.
#[derive(Clone, Copy, Debug, PartialEq, Eq, Structural)]
pub enum Channel {
    SoundEffects,
    GameMusic,
    MenuMusic,
}

/// The sounds that phases start.
#[derive(Clone, Copy, Debug, PartialEq, Eq, Structural)]
pub enum Track {
    /// Menu music, faded in over two seconds and looped.
    MenuMusic,
    /// Game music, faded in over two seconds and looped.
    GameMusic,
    /// The victory fanfare, played once.
    Celebration,
}

/// What the audio does when the phase changes from `from` to `to`: the
/// channel that `from` owns stops, then `to` starts its sounds.
#[derive(Clone, Debug, PartialEq, Eq)]
pub struct PhaseAudio {
    pub stop: Option<Channel>,
    pub play: Vec<(Channel, Track)>,
}

/// The channel that a phase owns and that stops when it ends.
pub open spec fn owned_channel(state: AppStates) -> Option<Channel> {
    match state {
        AppStates::MainMenu | AppStates::Victory | AppStates::GameOver => Some(Channel::MenuMusic),
        AppStates::Game => Some(Channel::GameMusic),
        _ => None,
    }
}

/// The sounds that a phase starts when it begins.
pub open spec fn opening_sounds(state: AppStates) -> Seq<(Channel, Track)> {
    match state {
        AppStates::MainMenu | AppStates::GameOver => seq![(Channel::MenuMusic, Track::MenuMusic)],
        AppStates::Game => seq![(Channel::GameMusic, Track::GameMusic)],
        AppStates::Victory => seq![
            (Channel::SoundEffects, Track::Celebration),
            (Channel::MenuMusic, Track::MenuMusic),
        ],
        _ => Seq::empty(),
    }
}

/// The audio of a change of phase from `from` to `to`.
pub fn phase_audio(from: AppStates, to: AppStates) -> (a: PhaseAudio)
    ensures
        a.stop == owned_channel(from),
        a.play@ == opening_sounds(to),
{
    let stop = match from {
        AppStates::MainMenu | AppStates::Victory | AppStates::GameOver => Some(Channel::MenuMusic),
        AppStates::Game => Some(Channel::GameMusic),
        _ => None,
    };
    let mut play: Vec<(Channel, Track)> = Vec::new();
    match to {
        AppStates::MainMenu | AppStates::GameOver => play.push((Channel::MenuMusic, Track::MenuMusic)),
        AppStates::Game => play.push((Channel::GameMusic, Track::GameMusic)),
        AppStates::Victory => {
            play.push((Channel::SoundEffects, Track::Celebration));
            play.push((Channel::MenuMusic, Track::MenuMusic));
        },
        _ => {},
    }
    assert(play@ == opening_sounds(to));
    PhaseAudio { stop, play }
}

/// The entities of `tagged` tagged with `state`, in order.
pub open spec fn tagged_with(tagged: Seq<(u64, AppStateComponent)>, state: AppStates) -> Seq<u64>
    decreases tagged.len(),
{
    if tagged.len() == 0 {
        Seq::empty()
    } else {
        let rest = tagged_with(tagged.drop_last(), state);
        if tagged.last().1.0 == state {
            rest.push(tagged.last().0)
        } else {
            rest
        }
    }
}

/// The entities to remove, with all their children, when `state` ends: those
/// tagged with it.
pub fn clear_state_system(tagged: &Vec<(u64, AppStateComponent)>, state: AppStates) -> (gone: Vec<u64>)
    ensures
        gone@ == tagged_with(tagged@, state),
{
    let mut gone: Vec<u64> = Vec::new();
    let mut i: usize = 0;
    while i < tagged.len()
        invariant
            0 <= i <= tagged@.len(),
            gone@ == tagged_with(tagged@.take(i as int), state),
        decreases tagged@.len() - i,
    {
        assert(tagged@.take(i + 1).drop_last() == tagged@.take(i as int));
        assert(tagged@.take(i + 1).last() == tagged@[i as int]);
        let (entity, tag) = tagged[i];
        if tag.0 == state {
            gone.push(entity);
        }
        i = i + 1;
    }
    assert(tagged@.take(tagged@.len() as int) == tagged@);
    gone
}

/// How long each frame of the dancing lice on the victory screen shows, in
/// milliseconds.
pub const DANCE_FRAME_TIME: u64 = 100;

/// The repeating timer that steps an animation.
#[derive(Clone, Copy, Debug)]
pub struct AnimationTimer(pub Timer);

impl AnimationTimer {
    pub open spec fn wf(self) -> bool {
        self.0.wf() && self.0.mode == TimerMode::Repeating
    }

    pub fn new() -> (a: AnimationTimer)
        ensures
            a.wf(),
            a.0.duration == DANCE_FRAME_TIME,
            a.0.elapsed == 0,
    {
        AnimationTimer(Timer::new(DANCE_FRAME_TIME, TimerMode::Repeating))
    }
}

/// Steps an animation of `frames` frames, now showing frame `index`, by `dt`
/// milliseconds: the next frame shows each time the timer completes, after
/// the last comes the first.
pub fn animate_dance_lice(timer: &mut AnimationTimer, index: usize, frames: usize, dt: u64) -> (next: usize)
    requires
        old(timer).wf(),
        index < frames,
    ensures
        final(timer).wf(),
        final(timer).0 == old(timer).0.ticked(dt as nat),
        next == if final(timer).0.just_finished { (index + 1) % (frames as int) } else { index as int },
        next < frames,
{
    timer.0.tick(dt);
    if timer.0.just_finished {
        (index + 1) % frames
    } else {
        index
    }
}

/// In a game, once no root is left the next phase is victory, whatever else
/// happened in the same frame.
pub proof fn lemma_no_roots_wins(keys: Keys, loaded: bool, lost: bool)
    ensures
        next_command(AppStates::Game, keys, loaded, true, lost) == Command::Go(AppStates::Victory),
{
}

} // verus!
