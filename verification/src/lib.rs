//! The core of a push-to-talk dictation tool: capture audio, encode it,
//! have it transcribed and refined, and inject the text into the focused
//! application.
//!
//! This library holds the rules of that pipeline and proves them with Verus.
//! It performs no input or output. The caller opens the audio device, runs
//! the stream on its worker thread, talks to the provider, the clipboard, the
//! keyboard and the stores, and hands what came of it to the functions here,
//! which decide what happens next.
//!
//! Audio is held in fixed point: an amplitude is an `i32` in units of 1/32768
//! of full scale (see [`audio::sample`]). A caller that receives floating
//! point samples scales them by 32768 before it hands them over.
//!
//! * [`audio::sample`]: amplitudes, quantization, downmix and level.
//! * [`audio::capture`]: the capture engine's state and its events.
//! * [`audio::encoder`]: the resampler and the WAVE encoder.
//! * [`commands::pipeline`]: the stages of a run and their failures.
//! * [`commands::injector`]: the steps of a text injection.
//! * [`api::groq`]: requests to the provider and the reading of its replies.
//! * [`storage`]: the records of the result log and the shape of a listing.
//! * [`hotkey`], [`tray`], [`keychain`]: the decisions of the shell.
//! * [`text`]: comparing, trimming and counting words.
//! * [`errors`]: the error type of every stage.
//!
//! Two contracts are assumed rather than proved, each where the library
//! calls code that Verus does not read: that of the container writer in
//! [`audio::encoder`], which calls the `hound` crate, and that of the
//! whitespace test in [`text`], which calls `char::is_whitespace`.

pub mod api;
pub mod audio;
pub mod commands;
pub mod errors;
pub mod hotkey;
pub mod keychain;
pub mod storage;
pub mod text;
pub mod tray;
