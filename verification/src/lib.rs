//! The decisions of a safe wrapper around the VOICEVOX CORE speech engine.
//!
//! The engine is a C library. Every call into it has two halves that need no
//! foreign code: what is handed to the call, and what its answer means. This
//! crate holds both halves, verified, and leaves the call itself to the code
//! around it:
//!
//! 1. a method here checks the caller's input and returns a pending call that
//!    holds the arguments in the form the engine takes;
//! 2. the surrounding code makes the call with exactly those arguments;
//! 3. `finish` on the pending call turns the engine's answer into a handle, a
//!    buffer or a typed error.
//!
//! [`VoicevoxCore`] is the handle of an initialized engine and [`Wav`] the
//! buffer of one synthesis. Neither can be copied; each is given up by one
//! consuming method, which names the one native call that releases it.

pub mod engine;
pub mod options;
pub mod release;
pub mod result_code;
pub mod text;
pub mod wav;

pub use engine::{
    Initialize, InitializeCall, LoadModel, MessageLookup, Tts, TtsCall, VoicevoxCore,
};
pub use options::{AccelerationMode, InitializeOptions, TtsOptions};
pub use release::Release;
pub use result_code::{Error, ResultCode};
pub use wav::Wav;
