//! Keys, control schemes and the intents they yield.

use vstd::prelude::*;

verus! {

/// A key that the game listens to.
#[derive(Clone, Copy, Debug, PartialEq, Eq, Structural)]
pub enum Key {
    Up,
    Down,
    Left,
    Right,
    W,
    A,
    S,
    D,
    Enter,
    Space,
}

/// What one driver asks of a car in one frame.
#[derive(Clone, Copy, Debug, PartialEq, Eq, Structural)]
pub struct Intents {
    pub turn_left: bool,
    pub turn_right: bool,
    pub accelerate: bool,
    pub decelerate: bool,
}

/// A control scheme: the key behind each intent.
#[derive(Clone, Copy, Debug, PartialEq, Eq, Structural)]
pub struct InputBinding {
    pub turn_left: Key,
    pub turn_right: Key,
    pub accelerate: Key,
    pub decelerate: Key,
}

/// Whether `key` is among the keys that are held in this frame.
pub fn is_key_down(keys: &[Key], key: Key) -> (down: bool)
    ensures
        down == keys@.contains(key),
{
    let mut i: usize = 0;
    while i < keys.len()
        invariant
            i <= keys@.len(),
            forall|j: int| 0 <= j < i ==> keys@[j] != key,
        decreases keys@.len() - i,
    {
        if keys[i] == key {
            return true;
        }
        i += 1;
    }
    false
}

impl Intents {
    /// The intents of a driver who touches nothing.
    pub open spec fn idle() -> Intents {
        Intents { turn_left: false, turn_right: false, accelerate: false, decelerate: false }
    }
}

impl InputBinding {
    /// The intents that this scheme yields while `keys` are held.
    pub open spec fn intents(self, keys: Seq<Key>) -> Intents {
        Intents {
            turn_left: keys.contains(self.turn_left),
            turn_right: keys.contains(self.turn_right),
            accelerate: keys.contains(self.accelerate),
            decelerate: keys.contains(self.decelerate),
        }
    }

    /// The keys that this scheme listens to.
    pub open spec fn keys(self) -> Set<Key> {
        set![self.turn_left, self.turn_right, self.accelerate, self.decelerate]
    }

    /// The scheme of the first driver: the arrow keys.
    pub open spec fn spec_arrows() -> InputBinding {
        InputBinding {
            turn_left: Key::Left,
            turn_right: Key::Right,
            accelerate: Key::Up,
            decelerate: Key::Down,
        }
    }

    /// The scheme of the second driver: W, A, S and D.
    pub open spec fn spec_wasd() -> InputBinding {
        InputBinding {
            turn_left: Key::A,
            turn_right: Key::D,
            accelerate: Key::W,
            decelerate: Key::S,
        }
    }

    /// The scheme of the first driver: the arrow keys.
    #[verifier::when_used_as_spec(spec_arrows)]
    pub fn arrows() -> (binding: InputBinding)
        ensures
            binding == Self::spec_arrows(),
    {
        InputBinding {
            turn_left: Key::Left,
            turn_right: Key::Right,
            accelerate: Key::Up,
            decelerate: Key::Down,
        }
    }

    /// The scheme of the second driver: W, A, S and D.
    #[verifier::when_used_as_spec(spec_wasd)]
    pub fn wasd() -> (binding: InputBinding)
        ensures
            binding == Self::spec_wasd(),
    {
        InputBinding {
            turn_left: Key::A,
            turn_right: Key::D,
            accelerate: Key::W,
            decelerate: Key::S,
        }
    }

    /// Samples the scheme once: each intent is set exactly when its key is
    /// among `keys`.
    pub fn sample(&self, keys: &[Key]) -> (intents: Intents)
        ensures
            intents == self.intents(keys@),
    {
        Intents {
            turn_left: is_key_down(keys, self.turn_left),
            turn_right: is_key_down(keys, self.turn_right),
            accelerate: is_key_down(keys, self.accelerate),
            decelerate: is_key_down(keys, self.decelerate),
        }
    }
}

/// With no key held, as when no keyboard answers, a scheme yields no
/// intent at all.
pub proof fn no_keys_no_intents(binding: InputBinding)
    ensures
        binding.intents(Seq::empty()) == Intents::idle(),
{
}

/// The two schemes share no key.
pub proof fn schemes_are_disjoint()
    ensures
        InputBinding::arrows().keys().disjoint(InputBinding::wasd().keys()),
{
}

/// Keys that a scheme does not listen to yield no intent from it: what one
/// driver holds never moves the other's car.
pub proof fn foreign_keys_yield_nothing(binding: InputBinding, keys: Seq<Key>)
    requires
        forall|i: int| 0 <= i < keys.len() ==> !binding.keys().contains(#[trigger] keys[i]),
    ensures
        binding.intents(keys) == Intents::idle(),
{
}

} // verus!
