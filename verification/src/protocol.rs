//! Wire protocol of the streaming channel: tagged-variant messages, their
//! JSON text form, and the schema-validating parser and serializer.
//!
//! Inbound messages are `audio` (base64 PCM payload plus sample rate),
//! `end` and `reset`; outbound messages are `partial`, `final`, `error`
//! and `ready`. Both directions use a JSON object keyed by a `type` tag.
//! The accepted inbound grammar is one JSON object whose values are
//! strings (any characters, with the escapes `\" \\ \/ \n \r \t`) or
//! unsigned integers; unknown tags, unknown or duplicated keys, and
//! anything outside that grammar is a protocol error, reported without
//! touching the session.

use vstd::prelude::*;
use vstd::string::*;

verus! {

/// Incoming message on the streaming channel.
#[derive(Debug)]
pub enum ClientMessage {
    /// An audio chunk as base64-encoded little-endian 16-bit PCM.
    Audio { data: String, sample_rate: u32 },
    /// End of the audio stream: commit everything and finish.
    End,
    /// Clear the session's buffer and policy state.
    Reset,
}

/// Outgoing message on the streaming channel.
#[derive(Debug)]
pub enum ServerMessage {
    /// A transcript of not-yet-committed audio, subject to change.
    Partial { text: String, timestamp: u64 },
    /// A transcript the server will not revise.
    Final { text: String, timestamp: u64 },
    /// A protocol or engine error; the connection stays open.
    Error { message: String },
    /// Acknowledgment of connection or reset.
    Ready { message: String },
}

/// Mathematical form of `ClientMessage`, over character sequences.
pub enum ClientMessageModel {
    Audio { data: Seq<char>, sample_rate: u32 },
    End,
    Reset,
}

/// Mathematical form of `ServerMessage`, over character sequences.
pub enum ServerMessageModel {
    Partial { text: Seq<char>, timestamp: u64 },
    Final { text: Seq<char>, timestamp: u64 },
    Error { message: Seq<char> },
    Ready { message: Seq<char> },
}

impl View for ClientMessage {
    type V = ClientMessageModel;

    open spec fn view(&self) -> ClientMessageModel {
        match self {
            ClientMessage::Audio { data, sample_rate } => ClientMessageModel::Audio {
                data: data@,
                sample_rate: *sample_rate,
            },
            ClientMessage::End => ClientMessageModel::End,
            ClientMessage::Reset => ClientMessageModel::Reset,
        }
    }
}

impl View for ServerMessage {
    type V = ServerMessageModel;

    open spec fn view(&self) -> ServerMessageModel {
        match self {
            ServerMessage::Partial { text, timestamp } => ServerMessageModel::Partial {
                text: text@,
                timestamp: *timestamp,
            },
            ServerMessage::Final { text, timestamp } => ServerMessageModel::Final {
                text: text@,
                timestamp: *timestamp,
            },
            ServerMessage::Error { message } => ServerMessageModel::Error { message: message@ },
            ServerMessage::Ready { message } => ServerMessageModel::Ready { message: message@ },
        }
    }
}

/// Error from parsing an inbound message; reported to the client as an
/// `error` message, with the session left untouched.
#[derive(Debug, Clone, Copy, PartialEq, Eq, Structural)]
pub enum ProtocolError {
    /// The text is not an object of the accepted grammar, or does not end
    /// after it.
    Syntax,
    /// A key other than `type`, `data` or `sample_rate`.
    UnknownKey,
    /// The same key appears twice.
    DuplicateKey,
    /// A value of the wrong kind, or a number too large for its field.
    WrongValueType,
    /// A `type` value other than `audio`, `end` or `reset`.
    UnknownTag,
    /// No `type` key.
    MissingTag,
    /// An `audio` message without a `data` key.
    MissingData,
    /// A `data` or `sample_rate` key on an `end` or `reset` message.
    StrayField,
}

impl ProtocolError {
    /// The error text reported to the client.
    pub open spec fn spec_message(self) -> Seq<char> {
        match self {
            ProtocolError::Syntax => "Invalid message format: malformed JSON object"@,
            ProtocolError::UnknownKey => "Invalid message format: unknown key"@,
            ProtocolError::DuplicateKey => "Invalid message format: duplicate key"@,
            ProtocolError::WrongValueType => "Invalid message format: wrong value type"@,
            ProtocolError::UnknownTag => "Invalid message format: unknown message type"@,
            ProtocolError::MissingTag => "Invalid message format: missing message type"@,
            ProtocolError::MissingData => "Invalid message format: audio without data"@,
            ProtocolError::StrayField => "Invalid message format: unexpected field"@,
        }
    }

    pub fn message(&self) -> (r: &'static str)
        ensures
            r@ == self.spec_message(),
    {
        match self {
            ProtocolError::Syntax => "Invalid message format: malformed JSON object",
            ProtocolError::UnknownKey => "Invalid message format: unknown key",
            ProtocolError::DuplicateKey => "Invalid message format: duplicate key",
            ProtocolError::WrongValueType => "Invalid message format: wrong value type",
            ProtocolError::UnknownTag => "Invalid message format: unknown message type",
            ProtocolError::MissingTag => "Invalid message format: missing message type",
            ProtocolError::MissingData => "Invalid message format: audio without data",
            ProtocolError::StrayField => "Invalid message format: unexpected field",
        }
    }
}

/// The sample rate assumed when an `audio` message carries none.
pub fn default_sample_rate() -> (r: u32)
    ensures
        r == 16000u32,
{
    16000
}

/// Relies on std's `String::push`: appends one character.
#[verifier::external_body]
pub(crate) fn push_char(s: &mut String, c: char)
    ensures
        final(s)@ == old(s)@ + seq![c],
{
    s.push(c);
}

/// The character for one base-16 digit (lowercase); '0' off range.
pub open spec fn spec_hex_digit(n: int) -> char {
    if n == 1 { '1' } else if n == 2 { '2' } else if n == 3 { '3' }
    else if n == 4 { '4' } else if n == 5 { '5' } else if n == 6 { '6' }
    else if n == 7 { '7' } else if n == 8 { '8' } else if n == 9 { '9' }
    else if n == 10 { 'a' } else if n == 11 { 'b' } else if n == 12 { 'c' }
    else if n == 13 { 'd' } else if n == 14 { 'e' } else if n == 15 { 'f' }
    else { '0' }
}

fn hex_digit(n: u8) -> (c: char)
    ensures
        c == spec_hex_digit(n as int),
{
    if n == 1 { '1' } else if n == 2 { '2' } else if n == 3 { '3' }
    else if n == 4 { '4' } else if n == 5 { '5' } else if n == 6 { '6' }
    else if n == 7 { '7' } else if n == 8 { '8' } else if n == 9 { '9' }
    else if n == 10 { 'a' } else if n == 11 { 'b' } else if n == 12 { 'c' }
    else if n == 13 { 'd' } else if n == 14 { 'e' } else if n == 15 { 'f' }
    else { '0' }
}

/// The decimal rendering of a number, most significant digit first.
pub open spec fn dec_str(n: nat) -> Seq<char>
    decreases n,
{
    if n < 10 {
        seq![spec_hex_digit(n as int)]
    } else {
        dec_str(n / 10) + seq![spec_hex_digit((n % 10) as int)]
    }
}

/// Renders a number in decimal.
pub fn u64_to_string(n: u64) -> (s: String)
    ensures
        s@ == dec_str(n as nat),
    decreases n,
{
    if n < 10 {
        let mut s = String::new();
        push_char(&mut s, hex_digit(n as u8));
        assert(s@ =~= dec_str(n as nat));
        s
    } else {
        let mut s = u64_to_string(n / 10);
        push_char(&mut s, hex_digit((n % 10) as u8));
        assert(s@ =~= dec_str(n as nat));
        s
    }
}

/// The JSON string-escaping of one character: quote, backslash and
/// control characters are escaped, everything else stands as itself.
pub open spec fn escape_one(c: char) -> Seq<char> {
    if c == '"' {
        seq!['\\', '"']
    } else if c == '\\' {
        seq!['\\', '\\']
    } else if c == '\n' {
        seq!['\\', 'n']
    } else if c == '\r' {
        seq!['\\', 'r']
    } else if c == '\t' {
        seq!['\\', 't']
    } else if (c as u32) < 32 {
        seq!['\\', 'u', '0', '0', spec_hex_digit(c as int / 16), spec_hex_digit(c as int % 16)]
    } else {
        seq![c]
    }
}

/// The JSON string-escaping of a character sequence.
pub open spec fn json_escaped(s: Seq<char>) -> Seq<char>
    decreases s.len(),
{
    if s.len() == 0 {
        Seq::empty()
    } else {
        escape_one(s[0]) + json_escaped(s.skip(1))
    }
}

/// Escaping distributes over concatenation.
pub proof fn lemma_json_escaped_concat(a: Seq<char>, b: Seq<char>)
    ensures
        json_escaped(a + b) == json_escaped(a) + json_escaped(b),
    decreases a.len(),
{
    if a.len() == 0 {
        assert(a + b =~= b);
        assert(json_escaped(a) + json_escaped(b) =~= json_escaped(b));
    } else {
        assert((a + b).skip(1) =~= a.skip(1) + b);
        lemma_json_escaped_concat(a.skip(1), b);
        assert((a + b)[0] == a[0]);
        assert(escape_one(a[0]) + (json_escaped(a.skip(1)) + json_escaped(b)) =~= (escape_one(a[0])
            + json_escaped(a.skip(1))) + json_escaped(b));
    }
}

/// Appends the JSON string-escaping of `text` to `out`.
fn append_json_escaped(out: &mut String, text: &str)
    ensures
        final(out)@ == old(out)@ + json_escaped(text@),
{
    let n = text.unicode_len();
    let mut i: usize = 0;
    while i < n
        invariant
            i <= n,
            n == text@.len(),
            out@ == old(out)@ + json_escaped(text@.take(i as int)),
        decreases n - i,
    {
        let c = text.get_char(i);
        proof {
            assert(text@.take(i as int + 1) =~= text@.take(i as int) + seq![c]);
            lemma_json_escaped_concat(text@.take(i as int), seq![c]);
            assert(seq![c].skip(1) =~= Seq::<char>::empty());
            assert(json_escaped(Seq::<char>::empty()) == Seq::<char>::empty());
            assert(json_escaped(seq![c]) == escape_one(c) + json_escaped(seq![c].skip(1)));
            assert(json_escaped(seq![c]) =~= escape_one(c));
        }
        if c == '"' {
            push_char(out, '\\');
            push_char(out, '"');
        } else if c == '\\' {
            push_char(out, '\\');
            push_char(out, '\\');
        } else if c == '\n' {
            push_char(out, '\\');
            push_char(out, 'n');
        } else if c == '\r' {
            push_char(out, '\\');
            push_char(out, 'r');
        } else if c == '\t' {
            push_char(out, '\\');
            push_char(out, 't');
        } else {
            let cv = c as u32;
            if cv < 32 {
                push_char(out, '\\');
                push_char(out, 'u');
                push_char(out, '0');
                push_char(out, '0');
                push_char(out, hex_digit((cv / 16) as u8));
                push_char(out, hex_digit((cv % 16) as u8));
            } else {
                push_char(out, c);
            }
        }
        assert(out@ =~= old(out)@ + json_escaped(text@.take(i as int + 1)));
        i = i + 1;
    }
    proof {
        assert(text@.take(n as int) =~= text@);
    }
}

/// The JSON text of an outbound message: a `type`-tagged object with the
/// variant's fields, string fields escaped, the timestamp in decimal.
pub open spec fn spec_serialize_server_message(m: ServerMessageModel) -> Seq<char> {
    match m {
        ServerMessageModel::Partial { text, timestamp } => "{\"type\":\"partial\",\"text\":\""@
            + json_escaped(text) + "\",\"ts\":"@ + dec_str(timestamp as nat) + "}"@,
        ServerMessageModel::Final { text, timestamp } => "{\"type\":\"final\",\"text\":\""@
            + json_escaped(text) + "\",\"ts\":"@ + dec_str(timestamp as nat) + "}"@,
        ServerMessageModel::Error { message } => "{\"type\":\"error\",\"message\":\""@
            + json_escaped(message) + "\"}"@,
        ServerMessageModel::Ready { message } => "{\"type\":\"ready\",\"message\":\""@
            + json_escaped(message) + "\"}"@,
    }
}

/// The JSON body of the one-shot endpoint's success response.
pub open spec fn spec_serialize_transcription_body(text: Seq<char>, segments: nat) -> Seq<char> {
    "{\"text\":\""@ + json_escaped(text) + "\",\"segments\":"@ + dec_str(segments) + "}"@
}

/// Serializes the one-shot endpoint's success response.
pub fn serialize_transcription_body(text: &str, segments: usize) -> (s: String)
    ensures
        s@ == spec_serialize_transcription_body(text@, segments as nat),
{
    let mut s = String::from_str("{\"text\":\"");
    append_json_escaped(&mut s, text);
    s.append("\",\"segments\":");
    let n = u64_to_string(segments as u64);
    s.append(n.as_str());
    s.append("}");
    assert(s@ =~= spec_serialize_transcription_body(text@, segments as nat));
    s
}

/// The JSON body of an error response.
pub open spec fn spec_serialize_error_body(message: Seq<char>) -> Seq<char> {
    "{\"error\":\""@ + json_escaped(message) + "\"}"@
}

/// Serializes an error response body.
pub fn serialize_error_body(message: &str) -> (s: String)
    ensures
        s@ == spec_serialize_error_body(message@),
{
    let mut s = String::from_str("{\"error\":\"");
    append_json_escaped(&mut s, message);
    s.append("\"}");
    assert(s@ =~= spec_serialize_error_body(message@));
    s
}

/// Serializes an outbound message to its JSON text.
pub fn serialize_server_message(msg: &ServerMessage) -> (s: String)
    ensures
        s@ == spec_serialize_server_message(msg@),
{
    match msg {
        ServerMessage::Partial { text, timestamp } => {
            let mut s = String::from_str("{\"type\":\"partial\",\"text\":\"");
            append_json_escaped(&mut s, text.as_str());
            s.append("\",\"ts\":");
            let ts = u64_to_string(*timestamp);
            s.append(ts.as_str());
            s.append("}");
            assert(s@ =~= spec_serialize_server_message(msg@));
            s
        }
        ServerMessage::Final { text, timestamp } => {
            let mut s = String::from_str("{\"type\":\"final\",\"text\":\"");
            append_json_escaped(&mut s, text.as_str());
            s.append("\",\"ts\":");
            let ts = u64_to_string(*timestamp);
            s.append(ts.as_str());
            s.append("}");
            assert(s@ =~= spec_serialize_server_message(msg@));
            s
        }
        ServerMessage::Error { message } => {
            let mut s = String::from_str("{\"type\":\"error\",\"message\":\"");
            append_json_escaped(&mut s, message.as_str());
            s.append("\"}");
            assert(s@ =~= spec_serialize_server_message(msg@));
            s
        }
        ServerMessage::Ready { message } => {
            let mut s = String::from_str("{\"type\":\"ready\",\"message\":\"");
            append_json_escaped(&mut s, message.as_str());
            s.append("\"}");
            assert(s@ =~= spec_serialize_server_message(msg@));
            s
        }
    }
}

} // verus!
