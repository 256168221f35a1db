//! Per-message decisions of the session transport loop.
//!
//! The loop itself (the message channel, the worker pool that runs the
//! blocking transcription call) lives outside the library. For each
//! inbound message the loop calls one function here, which mutates the
//! session and returns either an outbound message or an instruction to
//! run a transcription; when that call completes, the loop hands its
//! outcome back through a `finish_*` function, which applies it to the
//! session and yields the outbound message. The contracts carry the two
//! safety properties of the session core: a message with a wrong sample
//! rate or a malformed payload leaves the session untouched and draws
//! exactly one error reply, and no transcription is started while one is
//! in flight.

use vstd::prelude::*;
use vstd::string::*;

use crate::gateway::TranscribeResult;
use crate::pcm::{b64_standard_decoded, decode_audio, decode_pcm_bytes, decoded_samples, AudioError};
use crate::protocol::{dec_str, u64_to_string, ServerMessage, ServerMessageModel};
use crate::session::{StreamingSession, CHUNK_SAMPLES, MIN_MEANINGFUL_SAMPLES, SAMPLE_RATE};

verus! {

/// What an inbound audio message leads to.
pub enum AudioOutcome {
    /// An immediate reply (an error; the session is untouched).
    Reply(ServerMessage),
    /// Run a transcription over these samples; report it as final (a
    /// committed chunk) or as a partial result.
    Transcribe { samples: Vec<i16>, is_final: bool },
    /// The audio was buffered; no response is produced.
    Buffered,
}

/// What an `end` message leads to.
pub enum EndOutcome {
    /// An immediate reply: the final message for an empty session.
    Reply(ServerMessage),
    /// Run the final transcription over these samples.
    Transcribe { samples: Vec<i16> },
}

/// The error text for an audio message with the wrong sample rate.
pub open spec fn rate_error_text(sample_rate: u32) -> Seq<char> {
    "Expected sample rate 16000, got "@ + dec_str(sample_rate as nat)
}

/// The error text when the buffer cannot take the arriving samples.
pub open spec fn overflow_error_text() -> Seq<char> {
    "Audio buffer overflow"@
}

/// What the fixed-chunk policy does with freshly decoded samples: the
/// state after the call and the outcome, as a relation over the state
/// before it. A full chunk is committed (cleared and transcribed as
/// final), or a partial transcription starts if the throttle allows and
/// enough audio is buffered, or the audio is merely buffered; the
/// invocation time is untouched, and while no call is in flight the
/// buffer stays below a full chunk (a chunk that fills is flushed at
/// once).
pub open spec fn audio_policy_post(
    pre: StreamingSession,
    samples: Seq<i16>,
    now_ms: u64,
    post: StreamingSession,
    r: AudioOutcome,
) -> bool {
    let chunk1 = pre.current_chunk@ + samples;
    &&& post.last_transcribe_time == pre.last_transcribe_time
    &&& (!pre.transcription_pending ==> post.current_chunk@.len() < CHUNK_SAMPLES)
    &&& if !pre.transcription_pending && chunk1.len() >= CHUNK_SAMPLES {
        &&& post.current_chunk@ == Seq::<i16>::empty()
        &&& post.transcription_pending
        &&& r matches AudioOutcome::Transcribe { samples: sv, is_final } && sv@ == chunk1
            && is_final
    } else if !pre.transcription_pending && pre.spec_should_transcribe(now_ms) && chunk1.len()
        >= MIN_MEANINGFUL_SAMPLES {
        &&& post.current_chunk@ == chunk1
        &&& post.transcription_pending
        &&& r matches AudioOutcome::Transcribe { samples: sv, is_final } && sv@ == chunk1
            && !is_final
    } else {
        &&& post.current_chunk@ == chunk1
        &&& post.transcription_pending == pre.transcription_pending
        &&& r is Buffered
    }
}

/// Drives the session with decoded audio samples (the handling shared by
/// base64 text messages and raw binary frames), under the fixed-chunk
/// policy. A transcription never starts while one is in flight.
pub fn handle_audio_samples(session: &mut StreamingSession, samples: &[i16], now_ms: u64) -> (r:
    AudioOutcome)
    requires
        old(session).current_chunk@.len() + samples@.len() <= usize::MAX,
    ensures
        // mutual exclusion of transcription calls
        old(session).transcription_pending ==> !(r matches AudioOutcome::Transcribe { .. }),
        r matches AudioOutcome::Transcribe { .. } ==> !old(session).transcription_pending
            && final(session).transcription_pending,
        audio_policy_post(*old(session), samples@, now_ms, *final(session), r),
{
    let chunk_ready = session.add_samples(samples);
    if chunk_ready && !session.transcription_pending {
        session.transcription_pending = true;
        let audio = session.get_chunk_clone();
        session.clear_chunk();
        AudioOutcome::Transcribe { samples: audio, is_final: true }
    } else if !session.transcription_pending && session.should_transcribe(now_ms)
        && session.has_meaningful_audio() {
        session.transcription_pending = true;
        let audio = session.get_chunk_clone();
        AudioOutcome::Transcribe { samples: audio, is_final: false }
    } else {
        AudioOutcome::Buffered
    }
}

/// Drives the session with one inbound audio message.
///
/// A wrong sample rate or an undecodable payload leaves the session
/// unchanged and draws exactly one error reply. Decoded samples are
/// handed to `handle_audio_samples` and handled under the fixed-chunk
/// policy. A transcription never starts while one is in flight.
pub fn handle_audio(
    session: &mut StreamingSession,
    data: &str,
    sample_rate: u32,
    now_ms: u64,
) -> (r: AudioOutcome)
    ensures
        // mutual exclusion of transcription calls
        old(session).transcription_pending ==> !(r matches AudioOutcome::Transcribe { .. }),
        r matches AudioOutcome::Transcribe { .. } ==> !old(session).transcription_pending
            && final(session).transcription_pending,
        ({
            let dec = b64_standard_decoded(data@);
            if sample_rate != SAMPLE_RATE {
                &&& *final(session) == *old(session)
                &&& r matches AudioOutcome::Reply(m) && m@ == ServerMessageModel::Error {
                    message: rate_error_text(sample_rate),
                }
            } else if dec is None {
                &&& *final(session) == *old(session)
                &&& r matches AudioOutcome::Reply(m) && m@ == ServerMessageModel::Error {
                    message: AudioError::InvalidBase64.spec_message(),
                }
            } else if dec->Some_0.len() % 2 != 0 {
                &&& *final(session) == *old(session)
                &&& r matches AudioOutcome::Reply(m) && m@ == ServerMessageModel::Error {
                    message: AudioError::OddLength.spec_message(),
                }
            } else {
                let samples = decoded_samples(dec->Some_0);
                if old(session).current_chunk@.len() + samples.len() > usize::MAX {
                    &&& *final(session) == *old(session)
                    &&& r matches AudioOutcome::Reply(m) && m@ == ServerMessageModel::Error {
                        message: overflow_error_text(),
                    }
                } else {
                    audio_policy_post(*old(session), samples, now_ms, *final(session), r)
                }
            }
        }),
{
    if sample_rate != SAMPLE_RATE {
        let mut message = String::from_str("Expected sample rate 16000, got ");
        let rendered = u64_to_string(sample_rate as u64);
        message.append(rendered.as_str());
        return AudioOutcome::Reply(ServerMessage::Error { message });
    }
    match decode_audio(data) {
        Err(e) => AudioOutcome::Reply(
            ServerMessage::Error { message: String::from_str(e.message()) },
        ),
        Ok(samples) => {
            if samples.len() > usize::MAX - session.current_chunk.len() {
                return AudioOutcome::Reply(
                    ServerMessage::Error { message: String::from_str("Audio buffer overflow") },
                );
            }
            handle_audio_samples(session, samples.as_slice(), now_ms)
        }
    }
}

/// Drives the session with one raw binary audio frame: the bytes are
/// little-endian 16-bit PCM, bypassing base64 but otherwise handled like
/// an audio message. A frame of odd byte length leaves the session
/// unchanged and draws exactly one error reply; decoded samples are
/// handled under the fixed-chunk policy. A transcription never starts
/// while one is in flight.
pub fn handle_audio_frame(session: &mut StreamingSession, data: &[u8], now_ms: u64) -> (r:
    AudioOutcome)
    ensures
        // mutual exclusion of transcription calls
        old(session).transcription_pending ==> !(r matches AudioOutcome::Transcribe { .. }),
        r matches AudioOutcome::Transcribe { .. } ==> !old(session).transcription_pending
            && final(session).transcription_pending,
        ({
            if data@.len() % 2 != 0 {
                &&& *final(session) == *old(session)
                &&& r matches AudioOutcome::Reply(m) && m@ == ServerMessageModel::Error {
                    message: AudioError::OddLength.spec_message(),
                }
            } else {
                let samples = decoded_samples(data@);
                if old(session).current_chunk@.len() + samples.len() > usize::MAX {
                    &&& *final(session) == *old(session)
                    &&& r matches AudioOutcome::Reply(m) && m@ == ServerMessageModel::Error {
                        message: overflow_error_text(),
                    }
                } else {
                    audio_policy_post(*old(session), samples, now_ms, *final(session), r)
                }
            }
        }),
{
    match decode_pcm_bytes(data) {
        Err(e) => AudioOutcome::Reply(
            ServerMessage::Error { message: String::from_str(e.message()) },
        ),
        Ok(samples) => {
            if samples.len() > usize::MAX - session.current_chunk.len() {
                return AudioOutcome::Reply(
                    ServerMessage::Error { message: String::from_str("Audio buffer overflow") },
                );
            }
            handle_audio_samples(session, samples.as_slice(), now_ms)
        }
    }
}

/// Drives the session with an `end` message: the buffered audio (if any)
/// is taken for a final transcription and the session returns to its
/// initial state. An `end` on a session that never received audio replies
/// `final` with empty text at once, and starts no transcription at all.
pub fn handle_end(session: &mut StreamingSession, now_ms: u64) -> (r: EndOutcome)
    requires
        !old(session).transcription_pending,
    ensures
        old(session).current_chunk@.len() == 0 ==> final(session).is_initial() && (
        r matches EndOutcome::Reply(m) && m@ == ServerMessageModel::Final {
            text: Seq::<char>::empty(),
            timestamp: now_ms,
        }),
        old(session).current_chunk@.len() > 0 ==> {
            &&& final(session).current_chunk@ == Seq::<i16>::empty()
            &&& final(session).last_transcribe_time is None
            &&& final(session).transcription_pending
            &&& r matches EndOutcome::Transcribe { samples } && samples@ == old(
                session,
            ).current_chunk@
        },
{
    let audio = session.get_chunk_clone();
    session.reset();
    if audio.len() == 0 {
        EndOutcome::Reply(ServerMessage::Final { text: String::new(), timestamp: now_ms })
    } else {
        session.transcription_pending = true;
        EndOutcome::Transcribe { samples: audio }
    }
}

/// Drives the session with a `reset` message: the session returns to its
/// initial state unconditionally and the client is told it is ready.
pub fn handle_reset(session: &mut StreamingSession) -> (r: ServerMessage)
    ensures
        final(session).is_initial(),
        r@ == (ServerMessageModel::Ready { message: "Session reset"@ }),
{
    session.reset();
    ServerMessage::Ready { message: String::from_str("Session reset") }
}

/// Applies the outcome of a transcription started by `handle_audio`: the
/// in-flight flag is cleared, the invocation time recorded, and the
/// transcript reported as `final` for a committed chunk, `partial`
/// otherwise; a failed call is reported as an error, with the session
/// advanced all the same so a failure cannot wedge it.
pub fn finish_transcription(
    session: &mut StreamingSession,
    outcome: Result<TranscribeResult, String>,
    is_final: bool,
    now_ms: u64,
) -> (r: ServerMessage)
    requires
        old(session).transcription_pending,
    ensures
        final(session).current_chunk@ == old(session).current_chunk@,
        !final(session).transcription_pending,
        final(session).last_transcribe_time == Some(now_ms),
        match outcome {
            Ok(res) => r@ == (if is_final {
                ServerMessageModel::Final { text: res.text@, timestamp: now_ms }
            } else {
                ServerMessageModel::Partial { text: res.text@, timestamp: now_ms }
            }),
            Err(e) => r@ == ServerMessageModel::Error {
                message: "Transcription failed: "@ + e@,
            },
        },
{
    session.transcription_pending = false;
    session.last_transcribe_time = Some(now_ms);
    match outcome {
        Ok(res) => {
            if is_final {
                ServerMessage::Final { text: res.text, timestamp: now_ms }
            } else {
                ServerMessage::Partial { text: res.text, timestamp: now_ms }
            }
        }
        Err(e) => {
            let mut message = String::from_str("Transcription failed: ");
            message.append(e.as_str());
            ServerMessage::Error { message }
        }
    }
}

/// Applies the outcome of the final transcription started by `handle_end`:
/// the session returns to its initial state whatever the outcome, and the
/// transcript (or the failure) is reported.
pub fn finish_end_transcription(
    session: &mut StreamingSession,
    outcome: Result<TranscribeResult, String>,
    now_ms: u64,
) -> (r: ServerMessage)
    requires
        old(session).transcription_pending,
    ensures
        final(session).is_initial(),
        match outcome {
            Ok(res) => r@ == ServerMessageModel::Final { text: res.text@, timestamp: now_ms },
            Err(e) => r@ == ServerMessageModel::Error {
                message: "Finalization failed: "@ + e@,
            },
        },
{
    session.reset();
    match outcome {
        Ok(res) => ServerMessage::Final { text: res.text, timestamp: now_ms },
        Err(e) => {
            let mut message = String::from_str("Finalization failed: ");
            message.append(e.as_str());
            ServerMessage::Error { message }
        }
    }
}

/// Relies on std's system clock (`std::time::SystemTime::now`), read as
/// milliseconds since the Unix epoch; nothing is assumed of the value.
#[verifier::external_body]
pub fn now_millis() -> u64 {
    match std::time::SystemTime::now().duration_since(std::time::UNIX_EPOCH) {
        Ok(d) => d.as_millis() as u64,
        Err(_) => 0,
    }
}

} // verus!
