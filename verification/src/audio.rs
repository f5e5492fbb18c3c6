//! The looped engine sound of one car.
//!
//! The controller never touches the audio device. It keeps the flag that
//! mirrors playback and hands back the command that the host has to carry
//! out, if there is one.

use vstd::prelude::*;

verus! {

/// The name under which the host's asset store keeps one loaded sound.
#[derive(Clone, Copy, Debug, PartialEq, Eq, Structural)]
pub struct SoundHandle(pub u32);

/// A command for the audio device.
#[derive(Clone, Copy, Debug, PartialEq, Eq)]
pub enum AudioCommand {
    /// Begin looped playback of the sound at full volume.
    PlayLooped(SoundHandle),
    /// Halt playback of the sound.
    Stop(SoundHandle),
}

impl AudioCommand {
    /// The sound that the command is about.
    pub open spec fn sound(self) -> SoundHandle {
        match self {
            AudioCommand::PlayLooped(sound) => sound,
            AudioCommand::Stop(sound) => sound,
        }
    }
}

/// Start and stop control of one car's engine sound.
#[derive(Clone, Copy, Debug, PartialEq, Eq)]
pub struct EngineSound {
    /// Whether the sound is playing.
    pub running: bool,
    /// The sound that this engine plays; `None` while no sound is bound.
    pub sound: Option<SoundHandle>,
}

impl EngineSound {
    /// Only a bound engine can be playing.
    pub open spec fn wf(self) -> bool {
        self.running ==> self.sound is Some
    }

    /// The engine after `start`: playing, if a sound is bound.
    pub open spec fn started(self) -> EngineSound {
        EngineSound { running: self.running || self.sound is Some, sound: self.sound }
    }

    /// What `start` asks of the audio device: playback, where a bound
    /// engine was silent.
    pub open spec fn start_command(self) -> Option<AudioCommand> {
        match self.sound {
            Some(sound) if !self.running => Some(AudioCommand::PlayLooped(sound)),
            _ => None,
        }
    }

    /// The engine after `stop`: silent, if a sound is bound.
    pub open spec fn stopped(self) -> EngineSound {
        EngineSound { running: self.running && self.sound is None, sound: self.sound }
    }

    /// What `stop` asks of the audio device: a halt, where a bound engine
    /// was playing.
    pub open spec fn stop_command(self) -> Option<AudioCommand> {
        match self.sound {
            Some(sound) if self.running => Some(AudioCommand::Stop(sound)),
            _ => None,
        }
    }

    /// The engine after one frame in which the accelerate intent was
    /// `accelerate`.
    pub open spec fn driven(self, accelerate: bool) -> EngineSound {
        if accelerate {
            self.started()
        } else {
            self.stopped()
        }
    }

    /// What that frame asks of the audio device.
    pub open spec fn drive_command(self, accelerate: bool) -> Option<AudioCommand> {
        if accelerate {
            self.start_command()
        } else {
            self.stop_command()
        }
    }

    /// The engine after a run of frames, one sample of the accelerate
    /// intent for each.
    pub open spec fn driven_through(self, samples: Seq<bool>) -> EngineSound
        decreases samples.len(),
    {
        if samples.len() == 0 {
            self
        } else {
            self.driven(samples[0]).driven_through(samples.drop_first())
        }
    }

    /// The commands that such a run issues, in order.
    pub open spec fn commands(self, samples: Seq<bool>) -> Seq<AudioCommand>
        decreases samples.len(),
    {
        if samples.len() == 0 {
            Seq::empty()
        } else {
            let rest = self.driven(samples[0]).commands(samples.drop_first());
            match self.drive_command(samples[0]) {
                Some(command) => seq![command] + rest,
                None => rest,
            }
        }
    }

    /// A silent engine for `sound`.
    pub fn new(sound: Option<SoundHandle>) -> (engine: EngineSound)
        ensures
            engine == (EngineSound { running: false, sound }),
            engine.wf(),
    {
        EngineSound { running: false, sound }
    }

    /// Turns the engine sound on. Returns the playback command where the
    /// sound was not playing yet, and nothing where it was. With no sound
    /// bound, nothing happens.
    pub fn start(&mut self) -> (command: Option<AudioCommand>)
        ensures
            *final(self) == old(self).started(),
            command == old(self).start_command(),
            old(self).wf() ==> final(self).wf(),
    {
        match self.sound {
            Some(sound) => {
                let was_running = self.running;
                self.running = true;
                if was_running {
                    None
                } else {
                    Some(AudioCommand::PlayLooped(sound))
                }
            },
            None => None,
        }
    }

    /// Turns the engine sound off. Returns the halt command where the sound
    /// was playing, and nothing where it was not. With no sound bound,
    /// nothing happens.
    pub fn stop(&mut self) -> (command: Option<AudioCommand>)
        ensures
            *final(self) == old(self).stopped(),
            command == old(self).stop_command(),
            old(self).wf() ==> final(self).wf(),
    {
        match self.sound {
            Some(sound) => {
                let was_running = self.running;
                self.running = false;
                if was_running {
                    Some(AudioCommand::Stop(sound))
                } else {
                    None
                }
            },
            None => None,
        }
    }

    /// Follows the accelerate intent of one frame: starts while it is held,
    /// stops while it is not.
    pub fn drive(&mut self, accelerate: bool) -> (command: Option<AudioCommand>)
        ensures
            *final(self) == old(self).driven(accelerate),
            command == old(self).drive_command(accelerate),
            old(self).wf() ==> final(self).wf(),
    {
        if accelerate {
            self.start()
        } else {
            self.stop()
        }
    }
}

/// How often the level changes along `samples`, coming from `level`.
pub open spec fn transitions(level: bool, samples: Seq<bool>) -> nat
    decreases samples.len(),
{
    if samples.len() == 0 {
        0
    } else if samples[0] == level {
        transitions(level, samples.drop_first())
    } else {
        1 + transitions(samples[0], samples.drop_first())
    }
}

/// Starting and stopping are idempotent. Of two starts in a row only the
/// first can issue a playback command, and it does so exactly when a bound
/// engine was silent; the second changes nothing. A stop after the two
/// starts issues exactly one halt command for a bound engine, and a second
/// stop issues none and changes nothing.
pub proof fn start_and_stop_are_idempotent(engine: EngineSound)
    ensures
        engine.start_command() == (if engine.sound is Some && !engine.running {
            Some(AudioCommand::PlayLooped(engine.sound->0))
        } else {
            None
        }),
        engine.started().start_command() is None,
        engine.started().started() == engine.started(),
        engine.started().started().stop_command() == (if engine.sound is Some {
            Some(AudioCommand::Stop(engine.sound->0))
        } else {
            None
        }),
        engine.stopped().stop_command() is None,
        engine.stopped().stopped() == engine.stopped(),
{
}

/// An engine with no sound bound ignores every start and stop: it stays as
/// it is and issues nothing.
pub proof fn unbound_engine_is_inert(engine: EngineSound, samples: Seq<bool>)
    requires
        engine.sound is None,
    ensures
        engine.driven_through(samples) == engine,
        engine.commands(samples).len() == 0,
    decreases samples.len(),
{
    if samples.len() > 0 {
        unbound_engine_is_inert(engine.driven(samples[0]), samples.drop_first());
    }
}

/// Over any run of frames a bound engine issues one command per change of
/// the accelerate intent and none in between: the commands alternate
/// between playback and halt, beginning with the one that the engine is not
/// in, and after the run the flag mirrors the last sample.
pub proof fn one_command_per_transition(engine: EngineSound, samples: Seq<bool>)
    requires
        engine.sound is Some,
    ensures
        engine.commands(samples).len() == transitions(engine.running, samples),
        forall|i: int|
            0 <= i < engine.commands(samples).len() ==> #[trigger] engine.commands(samples)[i] == (
            if (i % 2 == 0) == engine.running {
                AudioCommand::Stop(engine.sound->0)
            } else {
                AudioCommand::PlayLooped(engine.sound->0)
            }),
        engine.driven_through(samples).sound == engine.sound,
        samples.len() > 0 ==> engine.driven_through(samples).running == samples.last(),
        samples.len() == 0 ==> engine.driven_through(samples) == engine,
    decreases samples.len(),
{
    if samples.len() > 0 {
        let next = engine.driven(samples[0]);
        let tail = samples.drop_first();
        one_command_per_transition(next, tail);
        if tail.len() > 0 {
            assert(tail.last() == samples.last());
        }
        let rest = next.commands(tail);
        match engine.drive_command(samples[0]) {
            Some(command) => {
                let all = seq![command] + rest;
                assert(engine.commands(samples) == all);
                assert forall|i: int| 0 <= i < all.len() implies #[trigger] all[i] == (if (i % 2
                    == 0) == engine.running {
                    AudioCommand::Stop(engine.sound->0)
                } else {
                    AudioCommand::PlayLooped(engine.sound->0)
                }) by {
                    if i > 0 {
                        assert(all[i] == rest[i - 1]);
                    }
                }
            },
            None => {
                assert(engine.commands(samples) == rest);
            },
        }
    }
}

} // verus!
