use vstd::prelude::*;
use vstd::string::*;
use crate::json::{
    error_text, json_object_members, members_view, parse_object, MemberView,
};

verus! {

/// The service's configuration: the greeting it serves and the TCP port it
/// listens on.
#[derive(Debug)]
pub struct Config {
    pub message: String,
    pub port: u16,
}

/// Why a configuration text was refused.
#[derive(Debug)]
pub enum ParseFailure {
    /// The text is not one JSON document; the parser's own description.
    Syntax(String),
    /// The text is a JSON document but not an object.
    NotAnObject,
    /// The object has no member of this name.
    MissingField(String),
    /// The member of this name holds a value of the wrong type or range.
    InvalidField(String),
}

/// What decoding a configuration text yields, with the parser's description
/// of a syntax error left out.
pub enum DecodeOutcome {
    Decoded(Seq<char>, u16),
    Syntax,
    NotAnObject,
    MissingField(Seq<char>),
    InvalidField(Seq<char>),
}

pub open spec fn outcome_of(r: Result<Config, ParseFailure>) -> DecodeOutcome {
    match r {
        Ok(c) => DecodeOutcome::Decoded(c.message@, c.port),
        Err(ParseFailure::Syntax(_)) => DecodeOutcome::Syntax,
        Err(ParseFailure::NotAnObject) => DecodeOutcome::NotAnObject,
        Err(ParseFailure::MissingField(f)) => DecodeOutcome::MissingField(f@),
        Err(ParseFailure::InvalidField(f)) => DecodeOutcome::InvalidField(f@),
    }
}

/// The first member at or after position `i` whose key is `key`.
pub open spec fn find_member(ms: Seq<MemberView>, key: Seq<char>, i: int) -> Option<MemberView>
    decreases ms.len() - i,
{
    if i < 0 || i >= ms.len() {
        None
    } else if ms[i].0 == key {
        Some(ms[i])
    } else {
        find_member(ms, key, i + 1)
    }
}

/// The configuration that the members `ms` of a JSON object describe: a
/// string `message` and an integer `port` that fits in 16 bits. Other
/// members are ignored; of two members with one key the first counts.
pub open spec fn decode_members_spec(ms: Seq<MemberView>) -> DecodeOutcome {
    match find_member(ms, "message"@, 0) {
        None => DecodeOutcome::MissingField("message"@),
        Some(m) => match m.1 {
            None => DecodeOutcome::InvalidField("message"@),
            Some(msg) => match find_member(ms, "port"@, 0) {
                None => DecodeOutcome::MissingField("port"@),
                Some(p) => match p.2 {
                    Some(n) => if n <= u16::MAX {
                        DecodeOutcome::Decoded(msg, n as u16)
                    } else {
                        DecodeOutcome::InvalidField("port"@)
                    },
                    None => DecodeOutcome::InvalidField("port"@),
                },
            },
        },
    }
}

/// The configuration that `text` describes, as JSON.
pub open spec fn decode_spec(text: Seq<char>) -> DecodeOutcome {
    match json_object_members(text) {
        None => DecodeOutcome::Syntax,
        Some(None) => DecodeOutcome::NotAnObject,
        Some(Some(ms)) => decode_members_spec(ms),
    }
}

/// The position of the first member whose key is `key`.
fn position_of(ms: &Vec<(String, Option<String>, Option<u64>)>, key: &String) -> (r: Option<usize>)
    ensures
        match r {
            None => find_member(members_view(ms@), key@, 0) is None,
            Some(i) => i < ms.len() && find_member(members_view(ms@), key@, 0) == Some(
                members_view(ms@)[i as int],
            ),
        },
{
    let ghost v = members_view(ms@);
    let mut i: usize = 0;
    while i < ms.len()
        invariant
            i <= ms.len(),
            v == members_view(ms@),
            find_member(v, key@, 0) == find_member(v, key@, i as int),
        decreases ms.len() - i,
    {
        if ms[i].0 == *key {
            return Some(i);
        }
        i = i + 1;
    }
    None
}

/// Builds a configuration from the members of a decoded JSON object.
pub fn decode_members(ms: &Vec<(String, Option<String>, Option<u64>)>) -> (r: Result<
    Config,
    ParseFailure,
>)
    ensures
        outcome_of(r) == decode_members_spec(members_view(ms@)),
{
    let message_key = String::from_str("message");
    let port_key = String::from_str("port");
    let message = match position_of(ms, &message_key) {
        None => return Err(ParseFailure::MissingField(message_key)),
        Some(i) => match &ms[i].1 {
            None => return Err(ParseFailure::InvalidField(message_key)),
            Some(s) => s.clone(),
        },
    };
    match position_of(ms, &port_key) {
        None => Err(ParseFailure::MissingField(port_key)),
        Some(i) => match ms[i].2 {
            Some(n) => if n <= u16::MAX as u64 {
                Ok(Config { message, port: n as u16 })
            } else {
                Err(ParseFailure::InvalidField(port_key))
            },
            None => Err(ParseFailure::InvalidField(port_key)),
        },
    }
}

/// The human-readable description of a refusal.
pub open spec fn failure_text(f: ParseFailure) -> Seq<char> {
    match f {
        ParseFailure::Syntax(s) => s@,
        ParseFailure::NotAnObject => "expected a JSON object"@,
        ParseFailure::MissingField(name) => "missing field `"@ + name@ + "`"@,
        ParseFailure::InvalidField(name) => "invalid value for field `"@ + name@ + "`"@,
    }
}

impl ParseFailure {
    pub fn describe(&self) -> (r: String)
        ensures
            r@ == failure_text(*self),
    {
        match self {
            ParseFailure::Syntax(s) => s.clone(),
            ParseFailure::NotAnObject => String::from_str("expected a JSON object"),
            ParseFailure::MissingField(name) => String::from_str("missing field `").concat(
                name.as_str(),
            ).concat("`"),
            ParseFailure::InvalidField(name) => String::from_str("invalid value for field `").concat(
                name.as_str(),
            ).concat("`"),
        }
    }
}

impl Config {
    /// Decodes a configuration from JSON text.
    pub fn from_json(text: &str) -> (r: Result<Config, ParseFailure>)
        ensures
            outcome_of(r) == decode_spec(text@),
    {
        match parse_object(text) {
            Err(e) => Err(ParseFailure::Syntax(error_text(&e))),
            Ok(None) => Err(ParseFailure::NotAnObject),
            Ok(Some(ms)) => decode_members(&ms),
        }
    }
}

} // verus!
