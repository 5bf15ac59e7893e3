//! A terminal piano core: a keyboard-driven, monophonic note player with
//! synchronized visual feedback.
//!
//! The library holds the verified control logic: the static key layout, the
//! sample store built from a directory listing, the single-voice controller
//! with its stop-before-replace policy, and the session step function that
//! turns each input event into an exact, ordered list of render and audio
//! effects. The thin binary around it performs the effects: it reads key
//! events, paints frames, and drives the audio device.

pub mod laws;
pub mod layout;
pub mod render;
pub mod session;
pub mod store;
pub mod voice;
