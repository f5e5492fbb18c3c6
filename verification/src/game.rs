//! The screens of the game and what one frame does in each of them.

use crate::audio::{AudioCommand, EngineSound, SoundHandle};
use crate::input::{InputBinding, Intents, Key};
use vstd::prelude::*;

verus! {

/// The screen that the game shows.
#[allow(non_camel_case_types)]
#[derive(Clone, Copy, Debug, PartialEq, Eq, Structural)]
pub enum State {
    TITLE,
    GAME,
}

/// One step that the host runs on the body of a car.
#[derive(Clone, Copy, Debug, PartialEq, Eq, Structural)]
pub enum Motion {
    TurnRight,
    TurnLeft,
    Decelerate,
    Accelerate,
    /// Friction, movement along the heading and the clamp to the playfield.
    Update,
}

/// The control side of one car: its keys and its engine sound.
#[derive(Clone, Copy, Debug, PartialEq, Eq)]
pub struct Driver {
    pub binding: InputBinding,
    pub engine_sound: EngineSound,
}

/// What one frame of play asks for one car. The host runs `motions` on the
/// car's body in order and then carries out `audio`.
#[derive(Debug, PartialEq, Eq)]
pub struct CarFrame {
    pub motions: Vec<Motion>,
    pub audio: Option<AudioCommand>,
}

/// What one frame of the title screen asks for.
#[derive(Clone, Copy, Debug, PartialEq, Eq)]
pub struct TitleFrame {
    /// Whether the title text is drawn highlighted.
    pub highlight: bool,
    pub next: State,
}

/// What one frame of play asks for.
#[derive(Debug, PartialEq, Eq)]
pub struct GameFrame {
    pub car1: CarFrame,
    pub car2: CarFrame,
    pub next: State,
}

/// What one frame asks for, by the screen it began on.
#[derive(Debug, PartialEq, Eq)]
pub enum Frame {
    Title(TitleFrame),
    Game(GameFrame),
}

/// The game between frames: the screen and the two drivers.
#[derive(Clone, Copy, Debug, PartialEq, Eq)]
pub struct Game {
    pub state: State,
    pub driver1: Driver,
    pub driver2: Driver,
}

/// The key that leaves the title screen.
pub const CONFIRM: Key = Key::Enter;

/// The key that highlights the title text.
pub const HIGHLIGHT: Key = Key::Space;

/// The screen that follows `state` after a frame in which `keys` are held.
/// The title screen is left when the confirm key is held; play is never
/// left.
pub open spec fn next_state(state: State, keys: Seq<Key>) -> State {
    match state {
        State::TITLE => if keys.contains(CONFIRM) {
            State::GAME
        } else {
            State::TITLE
        },
        State::GAME => State::GAME,
    }
}

/// The steps of one frame of play for a car, in the order in which they
/// run: the turns, the brake and the throttle, each only where its intent
/// is set, and then the update, always.
pub open spec fn schedule(intents: Intents) -> Seq<Motion> {
    (if intents.turn_right {
        seq![Motion::TurnRight]
    } else {
        Seq::empty()
    }) + (if intents.turn_left {
        seq![Motion::TurnLeft]
    } else {
        Seq::empty()
    }) + (if intents.decelerate {
        seq![Motion::Decelerate]
    } else {
        Seq::empty()
    }) + (if intents.accelerate {
        seq![Motion::Accelerate]
    } else {
        Seq::empty()
    }) + seq![Motion::Update]
}

/// Lays out the steps of one frame of play for a car.
pub fn motions(intents: Intents) -> (steps: Vec<Motion>)
    ensures
        steps@ == schedule(intents),
{
    let mut steps: Vec<Motion> = Vec::new();
    if intents.turn_right {
        steps.push(Motion::TurnRight);
    }
    if intents.turn_left {
        steps.push(Motion::TurnLeft);
    }
    if intents.decelerate {
        steps.push(Motion::Decelerate);
    }
    if intents.accelerate {
        steps.push(Motion::Accelerate);
    }
    steps.push(Motion::Update);
    assert(steps@ =~= schedule(intents));
    steps
}

impl Driver {
    /// The intents of this driver while `keys` are held.
    pub open spec fn intents(self, keys: Seq<Key>) -> Intents {
        self.binding.intents(keys)
    }

    /// The driver after a frame of play in which `keys` are held.
    pub open spec fn driven(self, keys: Seq<Key>) -> Driver {
        Driver {
            binding: self.binding,
            engine_sound: self.engine_sound.driven(self.intents(keys).accelerate),
        }
    }

    /// What that frame asks of the audio device for this driver's car.
    pub open spec fn audio(self, keys: Seq<Key>) -> Option<AudioCommand> {
        self.engine_sound.drive_command(self.intents(keys).accelerate)
    }

    /// A driver with a silent engine.
    pub fn new(binding: InputBinding, sound: Option<SoundHandle>) -> (driver: Driver)
        ensures
            driver == (Driver { binding, engine_sound: EngineSound { running: false, sound } }),
    {
        Driver { binding, engine_sound: EngineSound::new(sound) }
    }

    /// Runs one frame of play for this driver: samples the keys, lays out
    /// the steps for the car's body and lets the engine sound follow the
    /// accelerate intent.
    pub fn drive(&mut self, keys: &[Key]) -> (frame: CarFrame)
        ensures
            *final(self) == old(self).driven(keys@),
            frame.motions@ == schedule(old(self).intents(keys@)),
            frame.audio == old(self).audio(keys@),
    {
        let intents = self.binding.sample(keys);
        let motions = motions(intents);
        let audio = self.engine_sound.drive(intents.accelerate);
        CarFrame { motions, audio }
    }
}

/// One frame of the title screen: the text is highlighted while the
/// highlight key is held, and the game begins when the confirm key is held.
pub fn handle_state_title(keys: &[Key]) -> (frame: TitleFrame)
    ensures
        frame.highlight == keys@.contains(HIGHLIGHT),
        frame.next == next_state(State::TITLE, keys@),
        frame.next == State::GAME <==> keys@.contains(CONFIRM),
        frame.next == State::TITLE <==> !keys@.contains(CONFIRM),
{
    let highlight = crate::input::is_key_down(keys, HIGHLIGHT);
    let next = if crate::input::is_key_down(keys, CONFIRM) {
        State::GAME
    } else {
        State::TITLE
    };
    TitleFrame { highlight, next }
}

/// One frame of play: the first driver's frame, then the second's. Play
/// goes on whatever is held.
pub fn handle_state_game(game: &mut Game, keys: &[Key]) -> (frame: GameFrame)
    ensures
        final(game).state == old(game).state,
        final(game).driver1 == old(game).driver1.driven(keys@),
        final(game).driver2 == old(game).driver2.driven(keys@),
        frame.car1.motions@ == schedule(old(game).driver1.intents(keys@)),
        frame.car1.audio == old(game).driver1.audio(keys@),
        frame.car2.motions@ == schedule(old(game).driver2.intents(keys@)),
        frame.car2.audio == old(game).driver2.audio(keys@),
        frame.next == State::GAME,
{
    let car1 = game.driver1.drive(keys);
    let car2 = game.driver2.drive(keys);
    GameFrame { car1, car2, next: State::GAME }
}

impl Game {
    /// The two drivers listen to different keys, and two bound engines
    /// play different sounds, so that a command for one car never reaches
    /// the other.
    pub open spec fn wf(self) -> bool {
        &&& self.driver1.binding.keys().disjoint(self.driver2.binding.keys())
        &&& self.driver1.engine_sound.wf()
        &&& self.driver2.engine_sound.wf()
        &&& self.driver1.engine_sound.sound is Some ==> self.driver1.engine_sound.sound
            != self.driver2.engine_sound.sound
    }

    /// The game after one frame in which `keys` are held.
    pub open spec fn stepped(self, keys: Seq<Key>) -> Game {
        match self.state {
            State::TITLE => Game {
                state: next_state(State::TITLE, keys),
                driver1: self.driver1,
                driver2: self.driver2,
            },
            State::GAME => Game {
                state: State::GAME,
                driver1: self.driver1.driven(keys),
                driver2: self.driver2.driven(keys),
            },
        }
    }

    /// The game after a run of frames, given the keys held in each.
    pub open spec fn stepped_through(self, frames: Seq<Seq<Key>>) -> Game
        decreases frames.len(),
    {
        if frames.len() == 0 {
            self
        } else {
            self.stepped(frames[0]).stepped_through(frames.drop_first())
        }
    }

    /// A game in play: the first driver on the arrow keys with the sound
    /// `first`, the second on W, A, S and D with the sound `second`, both
    /// engines silent.
    pub fn new(first: Option<SoundHandle>, second: Option<SoundHandle>) -> (game: Game)
        requires
            first is Some ==> first != second,
        ensures
            game.state == State::GAME,
            game.driver1.binding == InputBinding::arrows(),
            game.driver2.binding == InputBinding::wasd(),
            game.driver1.engine_sound == (EngineSound { running: false, sound: first }),
            game.driver2.engine_sound == (EngineSound { running: false, sound: second }),
            game.wf(),
    {
        Game {
            state: State::GAME,
            driver1: Driver::new(InputBinding::arrows(), first),
            driver2: Driver::new(InputBinding::wasd(), second),
        }
    }

    /// Runs one frame on the screen that the game is on and moves to the
    /// screen that follows. On the title screen the drivers are left as
    /// they are.
    pub fn step(&mut self, keys: &[Key]) -> (frame: Frame)
        ensures
            *final(self) == old(self).stepped(keys@),
            final(self).state == next_state(old(self).state, keys@),
            old(self).wf() ==> final(self).wf(),
            match frame {
                Frame::Title(title) => {
                    &&& old(self).state == State::TITLE
                    &&& title.highlight == keys@.contains(HIGHLIGHT)
                    &&& title.next == final(self).state
                },
                Frame::Game(play) => {
                    &&& old(self).state == State::GAME
                    &&& play.car1.motions@ == schedule(old(self).driver1.intents(keys@))
                    &&& play.car1.audio == old(self).driver1.audio(keys@)
                    &&& play.car2.motions@ == schedule(old(self).driver2.intents(keys@))
                    &&& play.car2.audio == old(self).driver2.audio(keys@)
                    &&& play.next == final(self).state
                },
            },
    {
        match self.state {
            State::TITLE => {
                let title = handle_state_title(keys);
                self.state = title.next;
                Frame::Title(title)
            },
            State::GAME => {
                let play = handle_state_game(self, keys);
                self.state = play.next;
                Frame::Game(play)
            },
        }
    }
}

/// The transitions are total: the title screen stays until the confirm
/// key is held and then gives way to play, and play follows play
/// whatever is held.
pub proof fn transitions_are_total(keys: Seq<Key>)
    ensures
        !keys.contains(CONFIRM) ==> next_state(State::TITLE, keys) == State::TITLE,
        keys.contains(CONFIRM) ==> next_state(State::TITLE, keys) == State::GAME,
        next_state(State::GAME, keys) == State::GAME,
{
}

/// Play has no exit: a game in play is in play after any run of frames.
pub proof fn play_never_ends(game: Game, frames: Seq<Seq<Key>>)
    requires
        game.state == State::GAME,
    ensures
        game.stepped_through(frames).state == State::GAME,
    decreases frames.len(),
{
    if frames.len() > 0 {
        play_never_ends(game.stepped(frames[0]), frames.drop_first());
    }
}

/// The title screen touches no driver, and while the confirm key is not
/// held it changes nothing at all.
pub proof fn title_leaves_drivers_alone(game: Game, keys: Seq<Key>)
    requires
        game.state == State::TITLE,
    ensures
        game.stepped(keys).driver1 == game.driver1,
        game.stepped(keys).driver2 == game.driver2,
        !keys.contains(CONFIRM) ==> game.stepped(keys) == game,
{
}

/// A well-formed game stays well-formed over any run of frames, and the
/// drivers keep their keys and their sounds.
pub proof fn frames_keep_game_well_formed(game: Game, frames: Seq<Seq<Key>>)
    requires
        game.wf(),
    ensures
        game.stepped_through(frames).wf(),
        game.stepped_through(frames).driver1.binding == game.driver1.binding,
        game.stepped_through(frames).driver2.binding == game.driver2.binding,
        game.stepped_through(frames).driver1.engine_sound.sound == game.driver1.engine_sound.sound,
        game.stepped_through(frames).driver2.engine_sound.sound == game.driver2.engine_sound.sound,
    decreases frames.len(),
{
    if frames.len() > 0 {
        frames_keep_game_well_formed(game.stepped(frames[0]), frames.drop_first());
    }
}

/// In a well-formed game a command for one car is about that car's own
/// sound, which is not the other car's: stopping one engine never stops
/// the other.
pub proof fn commands_keep_to_their_car(game: Game, keys: Seq<Key>)
    requires
        game.wf(),
    ensures
        game.driver1.audio(keys) matches Some(command) ==> {
            &&& Some(command.sound()) == game.driver1.engine_sound.sound
            &&& Some(command.sound()) != game.driver2.engine_sound.sound
        },
        game.driver2.audio(keys) matches Some(command) ==> {
            &&& Some(command.sound()) == game.driver2.engine_sound.sound
            &&& Some(command.sound()) != game.driver1.engine_sound.sound
        },
{
}

/// The update runs once in every frame of play and comes last; with no
/// intent set it is all that runs.
pub proof fn update_runs_once_and_last(intents: Intents)
    ensures
        schedule(intents).len() >= 1,
        schedule(intents).last() == Motion::Update,
        forall|i: int|
            0 <= i < schedule(intents).len() - 1 ==> #[trigger] schedule(intents)[i]
                != Motion::Update,
        schedule(Intents::idle()) == seq![Motion::Update],
{
    assert(schedule(Intents::idle()) =~= seq![Motion::Update]);
}

/// Each of the other steps runs exactly when its intent is set, and at
/// most once.
pub proof fn schedule_follows_intents(intents: Intents)
    ensures
        schedule(intents).contains(Motion::TurnRight) <==> intents.turn_right,
        schedule(intents).contains(Motion::TurnLeft) <==> intents.turn_left,
        schedule(intents).contains(Motion::Decelerate) <==> intents.decelerate,
        schedule(intents).contains(Motion::Accelerate) <==> intents.accelerate,
        schedule(intents).no_duplicates(),
{
    let steps = schedule(intents);
    let right: int = if intents.turn_right { 1 } else { 0 };
    let left: int = if intents.turn_left { 1 } else { 0 };
    let brake: int = if intents.decelerate { 1 } else { 0 };
    let gas: int = if intents.accelerate { 1 } else { 0 };
    assert(steps.len() == right + left + brake + gas + 1);
    if intents.turn_right {
        assert(steps[0] == Motion::TurnRight);
    }
    if intents.turn_left {
        assert(steps[right] == Motion::TurnLeft);
    }
    if intents.decelerate {
        assert(steps[right + left] == Motion::Decelerate);
    }
    if intents.accelerate {
        assert(steps[right + left + brake] == Motion::Accelerate);
    }
}

} // verus!
