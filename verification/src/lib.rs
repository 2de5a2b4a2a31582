//! Real-time duplex audio pipeline and conversational turn-taking for a
//! speech-to-speech voice session.
//!
//! Audio is held as 16-bit signed PCM throughout: that is the sample format
//! of the wire, and the only place where samples are fractions of full scale
//! is the audio hardware boundary, which lies outside this crate.

pub mod buffers;
pub mod effects;
pub mod pcm16;
pub mod protocol;
pub mod resample;
pub mod session;
pub mod wire_audio;
