//! The decision logic of a small keyboard synthesizer: what a key or a button
//! asks for, how the tone generator reacts to each command, and the pitch of
//! every note. Audio, video and windows are driven by the application around
//! this library; it hands the library plain events and performs the actions
//! that come back.

pub mod types;
pub mod pitch;
pub mod keymap;
pub mod generator;
pub mod keyboard;
pub mod octave;
pub mod piano_key;
pub mod waveform_select;
pub mod envelope;
