//! Transcription gateway: the boundary to the external speech-to-text
//! engine.
//!
//! The engine itself (model loading, the heavy transcription call on
//! floating-point samples) lives outside the library. The library keeps
//! the gateway's bookkeeping — a capability that records whether the
//! shared engine was initialized, exactly once — and assembles the
//! engine's per-segment texts into the final transcript.

use vstd::prelude::*;
use vstd::string::*;

verus! {

/// Options for one transcription call.
#[derive(Debug, Clone)]
pub struct TranscribeOptions {
    /// Language code (e.g. "en"); detect automatically when absent.
    pub language: Option<String>,
    /// Whether to translate the transcript to English.
    pub translate: bool,
}

impl Default for TranscribeOptions {
    fn default() -> (r: Self)
        ensures
            r.language is None,
            !r.translate,
    {
        TranscribeOptions { language: None, translate: false }
    }
}

/// Result of one transcription call.
#[derive(Debug, Clone)]
pub struct TranscribeResult {
    /// The transcribed text.
    pub text: String,
    /// Number of audio segments processed.
    pub segments: usize,
}

/// Error from the gateway's own bookkeeping.
#[derive(Debug, Clone, Copy, PartialEq, Eq, Structural)]
pub enum GatewayError {
    /// The engine was never initialized.
    NotInitialized,
    /// The engine was initialized twice.
    AlreadyInitialized,
}

impl GatewayError {
    pub open spec fn spec_message(self) -> Seq<char> {
        match self {
            GatewayError::NotInitialized => "Whisper model not initialized. Call init_model() first."@,
            GatewayError::AlreadyInitialized => "Whisper context already initialized"@,
        }
    }

    pub fn message(&self) -> (r: &'static str)
        ensures
            r@ == self.spec_message(),
    {
        match self {
            GatewayError::NotInitialized => "Whisper model not initialized. Call init_model() first.",
            GatewayError::AlreadyInitialized => "Whisper context already initialized",
        }
    }
}

/// The gateway's shared state: whether the engine was initialized. Passed
/// into the transport loop and the one-shot handler at startup instead of
/// living in ambient global state; initialized once, read-only thereafter.
pub struct TranscriptionGateway {
    model_loaded: bool,
}

impl TranscriptionGateway {
    /// Whether the engine was recorded as loaded. The field itself is
    /// private, so the once-only bookkeeping below cannot be bypassed.
    pub closed spec fn spec_model_loaded(self) -> bool {
        self.model_loaded
    }

    /// A gateway before any initialization.
    pub fn new() -> (g: Self)
        ensures
            !g.spec_model_loaded(),
    {
        TranscriptionGateway { model_loaded: false }
    }

    /// Records that the engine finished loading; initialization is owed
    /// exactly once, a second attempt is an error and changes nothing.
    pub fn mark_model_loaded(&mut self) -> (r: Result<(), GatewayError>)
        ensures
            old(self).spec_model_loaded() ==> r == Result::<(), GatewayError>::Err(
                GatewayError::AlreadyInitialized,
            ) && final(self).spec_model_loaded() == old(self).spec_model_loaded(),
            !old(self).spec_model_loaded() ==> r is Ok && final(self).spec_model_loaded(),
    {
        if self.model_loaded {
            Err(GatewayError::AlreadyInitialized)
        } else {
            self.model_loaded = true;
            Ok(())
        }
    }

    /// A transcription call is allowed if and only if the engine was
    /// initialized; using it before that is a reported error, not a crash.
    pub fn check_ready(&self) -> (r: Result<(), GatewayError>)
        ensures
            self.spec_model_loaded() ==> r is Ok,
            !self.spec_model_loaded() ==> r == Result::<(), GatewayError>::Err(
                GatewayError::NotInitialized,
            ),
    {
        if self.model_loaded {
            Ok(())
        } else {
            Err(GatewayError::NotInitialized)
        }
    }
}

/// Whether the transcription gateway has completed initialization.
pub fn is_model_loaded(gateway: &TranscriptionGateway) -> (r: bool)
    ensures
        r == gateway.spec_model_loaded(),
{
    gateway.model_loaded
}

/// The concatenation of a sequence of texts, in order.
pub open spec fn concat_texts(texts: Seq<Seq<char>>) -> Seq<char>
    decreases texts.len(),
{
    if texts.len() == 0 {
        Seq::empty()
    } else {
        texts[0] + concat_texts(texts.skip(1))
    }
}

/// Concatenation of texts distributes over concatenation of sequences.
pub proof fn lemma_concat_texts_concat(a: Seq<Seq<char>>, b: Seq<Seq<char>>)
    ensures
        concat_texts(a + b) == concat_texts(a) + concat_texts(b),
    decreases a.len(),
{
    if a.len() == 0 {
        assert(a + b =~= b);
        assert(concat_texts(a) + concat_texts(b) =~= concat_texts(b));
    } else {
        assert((a + b).skip(1) =~= a.skip(1) + b);
        lemma_concat_texts_concat(a.skip(1), b);
        assert((a + b)[0] == a[0]);
        assert(a[0] + (concat_texts(a.skip(1)) + concat_texts(b)) =~= (a[0] + concat_texts(
            a.skip(1),
        )) + concat_texts(b));
    }
}

/// What `str::trim` returns for a piece of text: the text with leading and
/// trailing whitespace removed. The result depends on the characters alone.
pub uninterp spec fn trimmed(s: Seq<char>) -> Seq<char>;

/// Relies on std's `str::trim`: removes leading and trailing whitespace;
/// in particular an empty text stays empty.
#[verifier::external_body]
fn trim_text(s: &str) -> (r: String)
    ensures
        r@ == trimmed(s@),
        s@.len() == 0 ==> r@.len() == 0,
{
    s.trim().to_owned()
}

/// Assembles the engine's per-segment texts into the transcription result:
/// the segments concatenated in order, trimmed of surrounding whitespace,
/// with the segment count.
pub fn assemble_transcript(segment_texts: Vec<String>) -> (r: TranscribeResult)
    ensures
        r.text@ == trimmed(concat_texts(segment_texts.deep_view())),
        r.segments == segment_texts@.len(),
{
    let ghost all = segment_texts.deep_view();
    let mut text = String::new();
    let mut i: usize = 0;
    while i < segment_texts.len()
        invariant
            i <= segment_texts@.len(),
            all == segment_texts.deep_view(),
            text@ == concat_texts(all.take(i as int)),
        decreases segment_texts@.len() - i,
    {
        proof {
            assert(all.take(i as int + 1) =~= all.take(i as int) + seq![all[i as int]]);
            lemma_concat_texts_concat(all.take(i as int), seq![all[i as int]]);
            assert(seq![all[i as int]].skip(1) =~= Seq::<Seq<char>>::empty());
            assert(concat_texts(Seq::<Seq<char>>::empty()) == Seq::<char>::empty());
            assert(concat_texts(seq![all[i as int]]) == all[i as int] + concat_texts(
                seq![all[i as int]].skip(1),
            ));
            assert(concat_texts(seq![all[i as int]]) =~= all[i as int]);
        }
        text.append(segment_texts[i].as_str());
        i = i + 1;
    }
    proof {
        assert(all.take(segment_texts@.len() as int) =~= all);
    }
    let trimmed_text = trim_text(text.as_str());
    let n = segment_texts.len();
    TranscribeResult { text: trimmed_text, segments: n }
}

} // verus!
