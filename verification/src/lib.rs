//! Core logic of a speech-to-text transcription sidecar.
//!
//! The library holds the verified parts of the service: the audio
//! normalizer's byte-level PCM codec, the WAV data-chunk locator, the
//! wire-protocol message parser and serializer, the per-connection
//! streaming session state machine with its commit/throttle policy, and
//! the transcription gateway's bookkeeping. Audio samples are carried as
//! raw 16-bit PCM integers; the conversion to floating-point samples for
//! the transcription engine happens outside the library, at the service
//! edge, together with all I/O.

pub mod gateway;
pub mod parse;
pub mod pcm;
pub mod protocol;
pub mod session;
pub mod transport;
pub mod wav;
