//! Parser for inbound messages: a schema-validating reader of the JSON
//! object grammar described in `protocol`.
//!
//! The accepted text is one object whose keys are `type`, `data` and
//! `sample_rate`, in any order, each at most once, with string values
//! (escapes `\" \\ \/ \n \r \t`) or unsigned decimal integers, framed by
//! whitespace. The `type` tag is required and names the variant; `audio`
//! requires `data` and defaults `sample_rate` to 16000; `end` and `reset`
//! take no other field. Everything else is a protocol error, each variant
//! tied below to exactly the inputs that draw it.

use vstd::prelude::*;
use vstd::string::*;

use crate::protocol::{push_char, ClientMessage, ClientMessageModel, ProtocolError};

verus! {

/// Whitespace accepted between tokens.
pub open spec fn is_ws(c: char) -> bool {
    c == ' ' || c == '\n' || c == '\r' || c == '\t'
}

/// A decimal digit.
pub open spec fn is_digit(c: char) -> bool {
    48 <= c as int <= 57
}

/// The numeric value of a decimal digit.
pub open spec fn digit_val(c: char) -> int {
    c as int - 48
}

/// The first position at or after `i` that holds no whitespace.
pub open spec fn spec_skip_ws(s: Seq<char>, i: int) -> int
    decreases s.len() - i,
{
    if 0 <= i && i < s.len() && is_ws(s[i]) {
        spec_skip_ws(s, i + 1)
    } else {
        i
    }
}

pub proof fn lemma_skip_ws_bounds(s: Seq<char>, i: int)
    requires
        0 <= i <= s.len(),
    ensures
        i <= spec_skip_ws(s, i) <= s.len(),
    decreases s.len() - i,
{
    if i < s.len() && is_ws(s[i]) {
        lemma_skip_ws_bounds(s, i + 1);
    }
}

/// What one escape character after a backslash stands for.
pub open spec fn spec_escape_char(c: char) -> Option<char> {
    if c == '"' {
        Some('"')
    } else if c == '\\' {
        Some('\\')
    } else if c == '/' {
        Some('/')
    } else if c == 'n' {
        Some('\n')
    } else if c == 'r' {
        Some('\r')
    } else if c == 't' {
        Some('\t')
    } else {
        None
    }
}

/// The content of a string token read from position `i` (just past the
/// opening quote) with `acc` already read, and the position just past the
/// closing quote; nothing where the token is unterminated, holds a raw
/// control character, or uses an escape outside the accepted six.
pub open spec fn spec_parse_string_body(s: Seq<char>, i: int, acc: Seq<char>) -> Option<
    (Seq<char>, int),
>
    decreases s.len() - i,
{
    if !(0 <= i && i < s.len()) {
        None
    } else if s[i] == '"' {
        Some((acc, i + 1))
    } else if s[i] == '\\' {
        if i + 1 < s.len() {
            match spec_escape_char(s[i + 1]) {
                Some(c) => spec_parse_string_body(s, i + 2, acc + seq![c]),
                None => None,
            }
        } else {
            None
        }
    } else if (s[i] as int) < 32 {
        None
    } else {
        spec_parse_string_body(s, i + 1, acc + seq![s[i]])
    }
}

pub proof fn lemma_string_body_bounds(s: Seq<char>, i: int, acc: Seq<char>)
    requires
        spec_parse_string_body(s, i, acc) is Some,
    ensures
        i < spec_parse_string_body(s, i, acc)->Some_0.1 <= s.len(),
    decreases s.len() - i,
{
    if 0 <= i && i < s.len() {
        if s[i] == '"' {
        } else if s[i] == '\\' {
            if i + 1 < s.len() {
                match spec_escape_char(s[i + 1]) {
                    Some(c) => lemma_string_body_bounds(s, i + 2, acc + seq![c]),
                    None => {},
                }
            }
        } else if (s[i] as int) < 32 {
        } else {
            lemma_string_body_bounds(s, i + 1, acc + seq![s[i]]);
        }
    }
}

/// The value of a run of digits read from position `i` with `acc` already
/// read; an error where the value would not fit the largest field.
pub open spec fn spec_parse_digits(s: Seq<char>, i: int, acc: int) -> Result<
    (int, int),
    ProtocolError,
>
    decreases s.len() - i,
{
    if 0 <= i && i < s.len() && is_digit(s[i]) {
        let v = acc * 10 + digit_val(s[i]);
        if v > 0xFFFF_FFFF {
            Err(ProtocolError::WrongValueType)
        } else {
            spec_parse_digits(s, i + 1, v)
        }
    } else {
        Ok((acc, i))
    }
}

/// An unsigned decimal number read from position `i`: digits without a
/// leading zero (a lone `0` aside), fitting 32 bits.
pub open spec fn spec_parse_number(s: Seq<char>, i: int) -> Result<(int, int), ProtocolError> {
    if !(0 <= i && i < s.len() && is_digit(s[i])) {
        Err(ProtocolError::Syntax)
    } else if s[i] == '0' {
        if i + 1 < s.len() && is_digit(s[i + 1]) {
            Err(ProtocolError::Syntax)
        } else {
            Ok((0, i + 1))
        }
    } else {
        spec_parse_digits(s, i + 1, digit_val(s[i]))
    }
}

pub proof fn lemma_digits_bounds(s: Seq<char>, i: int, acc: int)
    requires
        0 <= i <= s.len(),
        spec_parse_digits(s, i, acc) is Ok,
    ensures
        i <= spec_parse_digits(s, i, acc)->Ok_0.1 <= s.len(),
    decreases s.len() - i,
{
    if i < s.len() && is_digit(s[i]) {
        let v = acc * 10 + digit_val(s[i]);
        if v <= 0xFFFF_FFFF {
            lemma_digits_bounds(s, i + 1, v);
        }
    }
}

pub proof fn lemma_number_bounds(s: Seq<char>, i: int)
    requires
        0 <= i <= s.len(),
        spec_parse_number(s, i) is Ok,
    ensures
        i < spec_parse_number(s, i)->Ok_0.1 <= s.len(),
{
    if i < s.len() && is_digit(s[i]) && s[i] != '0' {
        lemma_digits_bounds(s, i + 1, digit_val(s[i]));
    }
}

/// The tag of an inbound message.
#[derive(Debug, Clone, Copy, PartialEq, Eq, Structural)]
pub enum MessageTag {
    Audio,
    End,
    Reset,
}

/// A scalar value of the accepted grammar.
pub enum JsonValueModel {
    S(Seq<char>),
    N(u32),
}

/// A scalar value read from position `i`: a string token or a number.
pub open spec fn spec_parse_value(s: Seq<char>, i: int) -> Result<
    (JsonValueModel, int),
    ProtocolError,
> {
    if 0 <= i && i < s.len() && s[i] == '"' {
        match spec_parse_string_body(s, i + 1, Seq::empty()) {
            Some((content, j)) => Ok((JsonValueModel::S(content), j)),
            None => Err(ProtocolError::Syntax),
        }
    } else if 0 <= i && i < s.len() && is_digit(s[i]) {
        match spec_parse_number(s, i) {
            Ok((v, j)) => Ok((JsonValueModel::N(v as u32), j)),
            Err(e) => Err(e),
        }
    } else {
        Err(ProtocolError::Syntax)
    }
}

pub proof fn lemma_value_bounds(s: Seq<char>, i: int)
    requires
        0 <= i <= s.len(),
        spec_parse_value(s, i) is Ok,
    ensures
        i < spec_parse_value(s, i)->Ok_0.1 <= s.len(),
{
    if i < s.len() && s[i] == '"' {
        lemma_string_body_bounds(s, i + 1, Seq::empty());
    } else if i < s.len() && is_digit(s[i]) {
        lemma_number_bounds(s, i);
    }
}

/// The fields collected while reading an object's members.
pub struct ParseAcc {
    pub tag: Option<MessageTag>,
    pub data: Option<Seq<char>>,
    pub rate: Option<u32>,
}

/// Folds one key/value pair into the collected fields: each key at most
/// once, with the value kind its field asks for; the `type` value must
/// name one of the three variants; any other key is unknown.
pub open spec fn spec_add_field(acc: ParseAcc, key: Seq<char>, v: JsonValueModel) -> Result<
    ParseAcc,
    ProtocolError,
> {
    if key == "type"@ {
        if acc.tag is Some {
            Err(ProtocolError::DuplicateKey)
        } else {
            match v {
                JsonValueModel::S(t) => if t == "audio"@ {
                    Ok(ParseAcc { tag: Some(MessageTag::Audio), ..acc })
                } else if t == "end"@ {
                    Ok(ParseAcc { tag: Some(MessageTag::End), ..acc })
                } else if t == "reset"@ {
                    Ok(ParseAcc { tag: Some(MessageTag::Reset), ..acc })
                } else {
                    Err(ProtocolError::UnknownTag)
                },
                JsonValueModel::N(_) => Err(ProtocolError::WrongValueType),
            }
        }
    } else if key == "data"@ {
        if acc.data is Some {
            Err(ProtocolError::DuplicateKey)
        } else {
            match v {
                JsonValueModel::S(d) => Ok(ParseAcc { data: Some(d), ..acc }),
                JsonValueModel::N(_) => Err(ProtocolError::WrongValueType),
            }
        }
    } else if key == "sample_rate"@ {
        if acc.rate is Some {
            Err(ProtocolError::DuplicateKey)
        } else {
            match v {
                JsonValueModel::N(n) => Ok(ParseAcc { rate: Some(n), ..acc }),
                JsonValueModel::S(_) => Err(ProtocolError::WrongValueType),
            }
        }
    } else {
        Err(ProtocolError::UnknownKey)
    }
}

/// The members of an object read from position `i` (at a key's opening
/// quote, whitespace already skipped) into `acc`, and the position just
/// past the closing brace.
pub open spec fn spec_parse_members(s: Seq<char>, i: int, acc: ParseAcc) -> Result<
    (ParseAcc, int),
    ProtocolError,
>
    decreases s.len() - i,
    via spec_parse_members_decreases
{
    if !(0 <= i && i < s.len() && s[i] == '"') {
        Err(ProtocolError::Syntax)
    } else {
        match spec_parse_string_body(s, i + 1, Seq::empty()) {
            None => Err(ProtocolError::Syntax),
            Some((key, j)) => {
                let j1 = spec_skip_ws(s, j);
                if !(j1 < s.len() && s[j1] == ':') {
                    Err(ProtocolError::Syntax)
                } else {
                    let j2 = spec_skip_ws(s, j1 + 1);
                    match spec_parse_value(s, j2) {
                        Err(e) => Err(e),
                        Ok((v, j3)) => match spec_add_field(acc, key, v) {
                            Err(e) => Err(e),
                            Ok(acc1) => {
                                let j4 = spec_skip_ws(s, j3);
                                if j4 < s.len() && s[j4] == ',' {
                                    spec_parse_members(s, spec_skip_ws(s, j4 + 1), acc1)
                                } else if j4 < s.len() && s[j4] == '}' {
                                    Ok((acc1, j4 + 1))
                                } else {
                                    Err(ProtocolError::Syntax)
                                }
                            },
                        },
                    }
                }
            },
        }
    }
}

#[via_fn]
proof fn spec_parse_members_decreases(s: Seq<char>, i: int, acc: ParseAcc) {
    if 0 <= i && i < s.len() && s[i] == '"' {
        match spec_parse_string_body(s, i + 1, Seq::empty()) {
            None => {},
            Some((key, j)) => {
                lemma_string_body_bounds(s, i + 1, Seq::empty());
                let j1 = spec_skip_ws(s, j);
                lemma_skip_ws_bounds(s, j);
                if j1 < s.len() && s[j1] == ':' {
                    let j2 = spec_skip_ws(s, j1 + 1);
                    lemma_skip_ws_bounds(s, j1 + 1);
                    match spec_parse_value(s, j2) {
                        Err(_) => {},
                        Ok((v, j3)) => {
                            lemma_value_bounds(s, j2);
                            let j4 = spec_skip_ws(s, j3);
                            lemma_skip_ws_bounds(s, j3);
                            if j4 < s.len() && s[j4] == ',' {
                                lemma_skip_ws_bounds(s, j4 + 1);
                            }
                        },
                    }
                }
            },
        }
    }
}

/// The validated message of the collected fields: the tag is owed; an
/// `audio` message owes `data` and defaults its sample rate; `end` and
/// `reset` take no other field.
pub open spec fn spec_validate_acc(acc: ParseAcc) -> Result<ClientMessageModel, ProtocolError> {
    match acc.tag {
        None => Err(ProtocolError::MissingTag),
        Some(MessageTag::Audio) => match acc.data {
            None => Err(ProtocolError::MissingData),
            Some(d) => Ok(
                ClientMessageModel::Audio {
                    data: d,
                    sample_rate: match acc.rate {
                        None => 16000u32,
                        Some(rv) => rv,
                    },
                },
            ),
        },
        Some(MessageTag::End) => if acc.data is Some || acc.rate is Some {
            Err(ProtocolError::StrayField)
        } else {
            Ok(ClientMessageModel::End)
        },
        Some(MessageTag::Reset) => if acc.data is Some || acc.rate is Some {
            Err(ProtocolError::StrayField)
        } else {
            Ok(ClientMessageModel::Reset)
        },
    }
}

/// The message a piece of text parses to, or the error it draws: one
/// object of the accepted grammar, framed by whitespace, reaching the end
/// of the text; an empty object has no tag.
pub open spec fn spec_parse_client_message(s: Seq<char>) -> Result<
    ClientMessageModel,
    ProtocolError,
> {
    let i = spec_skip_ws(s, 0);
    if !(i < s.len() && s[i] == '{') {
        Err(ProtocolError::Syntax)
    } else {
        let j = spec_skip_ws(s, i + 1);
        if j < s.len() && s[j] == '}' {
            let k = spec_skip_ws(s, j + 1);
            if k != s.len() {
                Err(ProtocolError::Syntax)
            } else {
                Err(ProtocolError::MissingTag)
            }
        } else {
            match spec_parse_members(s, j, ParseAcc { tag: None, data: None, rate: None }) {
                Err(e) => Err(e),
                Ok((acc, end)) => {
                    let k = spec_skip_ws(s, end);
                    if k != s.len() {
                        Err(ProtocolError::Syntax)
                    } else {
                        spec_validate_acc(acc)
                    }
                },
            }
        }
    }
}

/// A scalar value as read: a string token or a number.
pub enum JsonValue {
    S(String),
    N(u32),
}

impl View for JsonValue {
    type V = JsonValueModel;

    open spec fn view(&self) -> JsonValueModel {
        match self {
            JsonValue::S(content) => JsonValueModel::S(content@),
            JsonValue::N(v) => JsonValueModel::N(*v),
        }
    }
}

/// The field model of an `Option<String>` as collected.
pub open spec fn opt_str_model(o: Option<String>) -> Option<Seq<char>> {
    match o {
        Some(d) => Some(d@),
        None => None,
    }
}

/// Whether two pieces of text hold the same characters.
fn str_eq(a: &str, b: &str) -> (r: bool)
    ensures
        r == (a@ == b@),
{
    let na = a.unicode_len();
    let nb = b.unicode_len();
    if na != nb {
        return false;
    }
    let mut i: usize = 0;
    while i < na
        invariant
            i <= na,
            na == a@.len(),
            na == b@.len(),
            forall|k: int| 0 <= k < i ==> a@[k] == b@[k],
        decreases na - i,
    {
        let ca = a.get_char(i);
        let cb = b.get_char(i);
        if ca != cb {
            return false;
        }
        i = i + 1;
    }
    proof {
        assert(a@ =~= b@);
    }
    true
}

/// Skips whitespace from position `i`.
fn skip_ws(s: &str, i: usize) -> (j: usize)
    requires
        i <= s@.len(),
    ensures
        j as int == spec_skip_ws(s@, i as int),
        i <= j <= s@.len(),
    decreases s@.len() - i,
{
    let n = s.unicode_len();
    if i < n {
        let c = s.get_char(i);
        if c == ' ' || c == '\n' || c == '\r' || c == '\t' {
            return skip_ws(s, i + 1);
        }
    }
    i
}

/// Reads a string token from position `i`, just past the opening quote.
fn parse_string_body(s: &str, i: usize) -> (r: Option<(String, usize)>)
    requires
        i <= s@.len(),
    ensures
        match r {
            Some(content_j) => spec_parse_string_body(s@, i as int, Seq::empty()) == Some(
                (content_j.0@, content_j.1 as int),
            ) && i < content_j.1 <= s@.len(),
            None => spec_parse_string_body(s@, i as int, Seq::empty()) is None,
        },
{
    let n = s.unicode_len();
    let mut out = String::new();
    let mut cur = i;
    loop
        invariant
            i <= cur <= n,
            n == s@.len(),
            spec_parse_string_body(s@, i as int, Seq::empty()) == spec_parse_string_body(
                s@,
                cur as int,
                out@,
            ),
        decreases n - cur,
    {
        if cur >= n {
            return None;
        }
        let c = s.get_char(cur);
        if c == '"' {
            return Some((out, cur + 1));
        }
        if c == '\\' {
            if cur + 1 >= n {
                return None;
            }
            let e = s.get_char(cur + 1);
            if e == '"' {
                push_char(&mut out, '"');
            } else if e == '\\' {
                push_char(&mut out, '\\');
            } else if e == '/' {
                push_char(&mut out, '/');
            } else if e == 'n' {
                push_char(&mut out, '\n');
            } else if e == 'r' {
                push_char(&mut out, '\r');
            } else if e == 't' {
                push_char(&mut out, '\t');
            } else {
                return None;
            }
            cur = cur + 2;
        } else if (c as u32) < 32 {
            return None;
        } else {
            push_char(&mut out, c);
            cur = cur + 1;
        }
    }
}

/// Reads an unsigned decimal number from position `i`.
fn parse_number(s: &str, i: usize) -> (r: Result<(u32, usize), ProtocolError>)
    requires
        i <= s@.len(),
    ensures
        match r {
            Ok(v_j) => spec_parse_number(s@, i as int) == Ok::<(int, int), ProtocolError>(
                (v_j.0 as int, v_j.1 as int),
            ) && i < v_j.1 <= s@.len(),
            Err(e) => spec_parse_number(s@, i as int) == Err::<(int, int), ProtocolError>(e),
        },
{
    let n = s.unicode_len();
    if i >= n {
        return Err(ProtocolError::Syntax);
    }
    let c0 = s.get_char(i);
    let d0 = c0 as u32;
    if !(48 <= d0 && d0 <= 57) {
        return Err(ProtocolError::Syntax);
    }
    if c0 == '0' {
        if i + 1 < n {
            let c1 = s.get_char(i + 1);
            let d1 = c1 as u32;
            if 48 <= d1 && d1 <= 57 {
                return Err(ProtocolError::Syntax);
            }
        }
        return Ok((0, i + 1));
    }
    let mut acc: u64 = (d0 - 48) as u64;
    let mut cur = i + 1;
    loop
        invariant
            i + 1 <= cur <= n,
            n == s@.len(),
            acc <= 0xFFFF_FFFF,
            spec_parse_number(s@, i as int) == spec_parse_digits(s@, cur as int, acc as int),
        decreases n - cur,
    {
        if cur >= n {
            return Ok((acc as u32, cur));
        }
        let c = s.get_char(cur);
        let d = c as u32;
        if !(48 <= d && d <= 57) {
            return Ok((acc as u32, cur));
        }
        let v = acc * 10 + ((d - 48) as u64);
        if v > 0xFFFF_FFFF {
            return Err(ProtocolError::WrongValueType);
        }
        acc = v;
        cur = cur + 1;
    }
}

/// Reads a scalar value from position `i`.
fn parse_value(s: &str, i: usize) -> (r: Result<(JsonValue, usize), ProtocolError>)
    requires
        i <= s@.len(),
    ensures
        match r {
            Ok(v_j) => spec_parse_value(s@, i as int) == Ok::<
                (JsonValueModel, int),
                ProtocolError,
            >((v_j.0@, v_j.1 as int)) && i < v_j.1 <= s@.len(),
            Err(e) => spec_parse_value(s@, i as int) == Err::<
                (JsonValueModel, int),
                ProtocolError,
            >(e),
        },
{
    let n = s.unicode_len();
    if i < n {
        let c = s.get_char(i);
        if c == '"' {
            return match parse_string_body(s, i + 1) {
                Some((content, j)) => Ok((JsonValue::S(content), j)),
                None => Err(ProtocolError::Syntax),
            };
        }
        let d = c as u32;
        if 48 <= d && d <= 57 {
            return match parse_number(s, i) {
                Ok((v, j)) => Ok((JsonValue::N(v), j)),
                Err(e) => Err(e),
            };
        }
    }
    Err(ProtocolError::Syntax)
}

/// Reads an object's members from position `i` into the collected fields.
fn parse_members(s: &str, start: usize) -> (r: Result<
    (Option<MessageTag>, Option<String>, Option<u32>, usize),
    ProtocolError,
>)
    requires
        start <= s@.len(),
    ensures
        ({
            let init = ParseAcc { tag: None, data: None, rate: None };
            match r {
                Ok(out) => spec_parse_members(s@, start as int, init) == Ok::<
                    (ParseAcc, int),
                    ProtocolError,
                >((ParseAcc { tag: out.0, data: opt_str_model(out.1), rate: out.2 }, out.3 as int))
                    && out.3 <= s@.len(),
                Err(e) => spec_parse_members(s@, start as int, init) == Err::<
                    (ParseAcc, int),
                    ProtocolError,
                >(e),
            }
        }),
{
    let n = s.unicode_len();
    let mut tag: Option<MessageTag> = None;
    let mut data: Option<String> = None;
    let mut rate: Option<u32> = None;
    let mut cur = start;
    loop
        invariant
            start <= cur <= n,
            n == s@.len(),
            spec_parse_members(s@, start as int, (ParseAcc { tag: None, data: None, rate: None }))
                == spec_parse_members(
                s@,
                cur as int,
                (ParseAcc { tag: tag, data: opt_str_model(data), rate: rate }),
            ),
        decreases n - cur,
    {
        let ghost cur0 = cur as int;
        let ghost acc0 = ParseAcc { tag: tag, data: opt_str_model(data), rate: rate };
        if cur >= n {
            return Err(ProtocolError::Syntax);
        }
        let c = s.get_char(cur);
        if c != '"' {
            return Err(ProtocolError::Syntax);
        }
        let (key, j) = match parse_string_body(s, cur + 1) {
            None => {
                return Err(ProtocolError::Syntax);
            },
            Some(kj) => kj,
        };
        let j1 = skip_ws(s, j);
        if j1 >= n {
            return Err(ProtocolError::Syntax);
        }
        let c1 = s.get_char(j1);
        if c1 != ':' {
            return Err(ProtocolError::Syntax);
        }
        let j2 = skip_ws(s, j1 + 1);
        let (v, j3) = match parse_value(s, j2) {
            Err(e) => {
                return Err(e);
            },
            Ok(vj) => vj,
        };
        let ghost vmodel = v@;
        if str_eq(key.as_str(), "type") {
            if tag.is_some() {
                return Err(ProtocolError::DuplicateKey);
            }
            match &v {
                JsonValue::S(t) => {
                    if str_eq(t.as_str(), "audio") {
                        tag = Some(MessageTag::Audio);
                    } else if str_eq(t.as_str(), "end") {
                        tag = Some(MessageTag::End);
                    } else if str_eq(t.as_str(), "reset") {
                        tag = Some(MessageTag::Reset);
                    } else {
                        return Err(ProtocolError::UnknownTag);
                    }
                },
                JsonValue::N(_) => {
                    return Err(ProtocolError::WrongValueType);
                },
            }
        } else if str_eq(key.as_str(), "data") {
            if data.is_some() {
                return Err(ProtocolError::DuplicateKey);
            }
            match v {
                JsonValue::S(d) => {
                    data = Some(d);
                },
                JsonValue::N(_) => {
                    return Err(ProtocolError::WrongValueType);
                },
            }
        } else if str_eq(key.as_str(), "sample_rate") {
            if rate.is_some() {
                return Err(ProtocolError::DuplicateKey);
            }
            match v {
                JsonValue::N(x) => {
                    rate = Some(x);
                },
                JsonValue::S(_) => {
                    return Err(ProtocolError::WrongValueType);
                },
            }
        } else {
            return Err(ProtocolError::UnknownKey);
        }
        proof {
            assert(spec_add_field(acc0, key@, vmodel) == Ok::<ParseAcc, ProtocolError>(
                ParseAcc { tag: tag, data: opt_str_model(data), rate: rate },
            ));
        }
        let j4 = skip_ws(s, j3);
        if j4 >= n {
            return Err(ProtocolError::Syntax);
        }
        let c4 = s.get_char(j4);
        if c4 == ',' {
            cur = skip_ws(s, j4 + 1);
        } else if c4 == '}' {
            return Ok((tag, data, rate, j4 + 1));
        } else {
            return Err(ProtocolError::Syntax);
        }
        proof {
            assert(spec_parse_members(s@, cur0, acc0) == spec_parse_members(
                s@,
                cur as int,
                ParseAcc { tag: tag, data: opt_str_model(data), rate: rate },
            ));
        }
    }
}

/// Parses one inbound message from its text: the schema-validating reader
/// of the wire grammar, each error variant drawn exactly where the
/// grammar says.
pub fn parse_client_message(s: &str) -> (r: Result<ClientMessage, ProtocolError>)
    ensures
        match r {
            Ok(m) => spec_parse_client_message(s@) == Ok::<ClientMessageModel, ProtocolError>(m@),
            Err(e) => spec_parse_client_message(s@) == Err::<ClientMessageModel, ProtocolError>(e),
        },
{
    let n = s.unicode_len();
    let i = skip_ws(s, 0);
    if i >= n {
        return Err(ProtocolError::Syntax);
    }
    let c = s.get_char(i);
    if c != '{' {
        return Err(ProtocolError::Syntax);
    }
    let j = skip_ws(s, i + 1);
    if j < n {
        let cj = s.get_char(j);
        if cj == '}' {
            let k = skip_ws(s, j + 1);
            if k != n {
                return Err(ProtocolError::Syntax);
            }
            return Err(ProtocolError::MissingTag);
        }
    }
    match parse_members(s, j) {
        Err(e) => Err(e),
        Ok((tag, data, rate, end)) => {
            let k = skip_ws(s, end);
            if k != n {
                return Err(ProtocolError::Syntax);
            }
            match tag {
                None => Err(ProtocolError::MissingTag),
                Some(MessageTag::Audio) => match data {
                    None => Err(ProtocolError::MissingData),
                    Some(d) => {
                        let sr = match rate {
                            None => 16000u32,
                            Some(rv) => rv,
                        };
                        Ok(ClientMessage::Audio { data: d, sample_rate: sr })
                    },
                },
                Some(MessageTag::End) => {
                    if data.is_some() || rate.is_some() {
                        Err(ProtocolError::StrayField)
                    } else {
                        Ok(ClientMessage::End)
                    }
                },
                Some(MessageTag::Reset) => {
                    if data.is_some() || rate.is_some() {
                        Err(ProtocolError::StrayField)
                    } else {
                        Ok(ClientMessage::Reset)
                    }
                },
            }
        },
    }
}

} // verus!
