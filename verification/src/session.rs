//! Per-connection streaming session: the audio accumulation buffer and the
//! fixed-chunk commit/throttle policy.
//!
//! The session owns an append-only buffer of raw 16-bit PCM samples and the
//! policy bookkeeping that decides when a transcription call may start. The
//! policy is fixed-chunk auto-commit: once the buffer holds a full chunk
//! (six seconds of audio) it is committed as a final segment and cleared;
//! below that, partial transcriptions are throttled to a minimum spacing and
//! to a minimum amount of buffered audio. At most one transcription call is
//! in flight per session at any time, tracked by `transcription_pending`.

use vstd::prelude::*;

verus! {

/// The fixed service sample rate, in samples per second.
pub const SAMPLE_RATE: u32 = 16000;

/// Buffer length at which a chunk is auto-committed: six seconds of audio.
pub const CHUNK_SAMPLES: usize = 16000 * 6;

/// Minimum spacing between transcription calls, in milliseconds.
pub const MIN_TRANSCRIBE_INTERVAL_MS: u64 = 500;

/// Least buffer length worth a partial transcription: half a second.
pub const MIN_MEANINGFUL_SAMPLES: usize = 16000 / 2;

/// State of one streaming transcription session.
pub struct StreamingSession {
    /// Audio chunk being accumulated, as raw 16-bit PCM samples.
    pub current_chunk: Vec<i16>,
    /// When a transcription call last completed, in epoch milliseconds.
    pub last_transcribe_time: Option<u64>,
    /// Whether a transcription call is currently in flight.
    pub transcription_pending: bool,
}

impl StreamingSession {
    /// A session in its initial state: empty buffer, no pending call,
    /// no recorded invocation time.
    pub open spec fn is_initial(self) -> bool {
        &&& self.current_chunk@ == Seq::<i16>::empty()
        &&& self.last_transcribe_time is None
        &&& !self.transcription_pending
    }

    /// The throttle decision: a transcription may start only when none is
    /// in flight and the minimum spacing since the last one has passed.
    pub open spec fn spec_should_transcribe(self, now_ms: u64) -> bool {
        &&& !self.transcription_pending
        &&& match self.last_transcribe_time {
            None => true,
            Some(t) => now_ms >= t + MIN_TRANSCRIBE_INTERVAL_MS,
        }
    }

    pub fn new() -> (s: Self)
        ensures
            s.is_initial(),
    {
        StreamingSession {
            current_chunk: Vec::new(),
            last_transcribe_time: None,
            transcription_pending: false,
        }
    }

    /// Returns the session to its initial state unconditionally: used for
    /// explicit client resets and after a final commit.
    pub fn reset(&mut self)
        ensures
            final(self).is_initial(),
    {
        self.current_chunk.clear();
        self.last_transcribe_time = None;
        self.transcription_pending = false;
    }

    /// Appends samples to the current chunk; reports whether the chunk has
    /// reached the auto-commit bound. Policy bookkeeping is untouched.
    pub fn add_samples(&mut self, samples: &[i16]) -> (chunk_ready: bool)
        requires
            old(self).current_chunk@.len() + samples@.len() <= usize::MAX,
        ensures
            final(self).current_chunk@ == old(self).current_chunk@ + samples@,
            final(self).last_transcribe_time == old(self).last_transcribe_time,
            final(self).transcription_pending == old(self).transcription_pending,
            chunk_ready == (final(self).current_chunk@.len() >= CHUNK_SAMPLES),
    {
        self.current_chunk.extend_from_slice(samples);
        assert(self.current_chunk@ =~= old(self).current_chunk@ + samples@);
        self.current_chunk.len() >= CHUNK_SAMPLES
    }

    /// Whether the throttle allows a new transcription call now.
    pub fn should_transcribe(&self, now_ms: u64) -> (r: bool)
        ensures
            r == self.spec_should_transcribe(now_ms),
    {
        if self.transcription_pending {
            return false;
        }
        match self.last_transcribe_time {
            None => true,
            Some(t) => now_ms >= t && now_ms - t >= MIN_TRANSCRIBE_INTERVAL_MS,
        }
    }

    /// An immutable snapshot of the buffer content, handed to the
    /// transcription gateway while the live buffer may keep growing.
    pub fn get_chunk_clone(&self) -> (v: Vec<i16>)
        ensures
            v@ == self.current_chunk@,
    {
        let v = self.current_chunk.clone();
        assert(v@ =~= self.current_chunk@);
        v
    }

    /// Clears the buffer after a committed chunk; policy bookkeeping stays.
    pub fn clear_chunk(&mut self)
        ensures
            final(self).current_chunk@ == Seq::<i16>::empty(),
            final(self).last_transcribe_time == old(self).last_transcribe_time,
            final(self).transcription_pending == old(self).transcription_pending,
    {
        self.current_chunk.clear();
    }

    /// Whether the buffer holds enough audio for a meaningful partial
    /// transcription.
    pub fn has_meaningful_audio(&self) -> (r: bool)
        ensures
            r == (self.current_chunk@.len() >= MIN_MEANINGFUL_SAMPLES),
    {
        self.current_chunk.len() >= MIN_MEANINGFUL_SAMPLES
    }
}

/// Law: a session that was reset is observably identical to a freshly
/// created one: same (empty) buffer, no pending call, and the throttle
/// decision agrees at every instant.
pub proof fn lemma_reset_observably_fresh(reset_s: StreamingSession, fresh_s: StreamingSession)
    requires
        reset_s.is_initial(),
        fresh_s.is_initial(),
    ensures
        reset_s.current_chunk@ == fresh_s.current_chunk@,
        reset_s.last_transcribe_time == fresh_s.last_transcribe_time,
        reset_s.transcription_pending == fresh_s.transcription_pending,
        forall|now_ms: u64|
            reset_s.spec_should_transcribe(now_ms) == fresh_s.spec_should_transcribe(now_ms),
{
}

} // verus!
