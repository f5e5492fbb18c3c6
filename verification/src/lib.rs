//! Control core of a two-player, top-down driving game.
//!
//! The crate decides what happens in a frame and leaves both ends of the
//! frame to the host: the host tells it which keys are held, and gets back
//! the steps to run on each car's body, the commands for the audio device
//! and the screen to show next.

pub mod audio;
pub mod game;
pub mod input;
