//! The subscription request sent over the notification channel, and the
//! reading of the node's answer to it.
use vstd::prelude::*;
use vstd::string::*;
use crate::model::Address;

verus! {

/// How final a transaction must be before the node reports it.
#[derive(Clone, Copy, Debug, PartialEq, Eq, Structural)]
pub enum Commitment {
    Processed,
    Confirmed,
    Finalized,
}

/// The name of a commitment level on the wire.
pub open spec fn commitment_name(c: Commitment) -> Seq<char> {
    match c {
        Commitment::Processed => "processed"@,
        Commitment::Confirmed => "confirmed"@,
        Commitment::Finalized => "finalized"@,
    }
}

impl Commitment {
    pub fn as_str(&self) -> (r: &'static str)
        ensures
            r@ == commitment_name(*self),
    {
        match self {
            Commitment::Processed => "processed",
            Commitment::Confirmed => "confirmed",
            Commitment::Finalized => "finalized",
        }
    }
}

#[derive(Clone, Copy, Debug, PartialEq, Eq, Structural)]
pub enum SubscriptionError {
    /// The request could not be serialized.
    Serialization,
    /// The channel closed before the node answered.
    ChannelClosed,
    /// The answer holds no numeric subscription handle.
    MissingHandle,
}

/// The text form of an address (base58).
pub uninterp spec fn address_text_of(bytes: Seq<u8>) -> Seq<char>;

/// The unsigned integer under `key` in the JSON object written in `text`.
pub uninterp spec fn u64_field_of(text: Seq<char>, key: Seq<char>) -> Option<u64>;

/// A lowercase hexadecimal digit, for `d < 16`.
pub open spec fn hex_digit(d: u32) -> char {
    if d < 10 {
        (('0' as u32) + d) as char
    } else {
        (('a' as u32) + d - 10) as char
    }
}

/// One character inside a JSON string literal: quote, backslash and the
/// control characters are escaped, everything else stands as it is.
pub open spec fn escaped_char(c: char) -> Seq<char> {
    if c == '"' {
        seq!['\\', '"']
    } else if c == '\\' {
        seq!['\\', '\\']
    } else if c == '\x08' {
        seq!['\\', 'b']
    } else if c == '\t' {
        seq!['\\', 't']
    } else if c == '\n' {
        seq!['\\', 'n']
    } else if c == '\x0c' {
        seq!['\\', 'f']
    } else if c == '\r' {
        seq!['\\', 'r']
    } else if (c as u32) < 0x20 {
        seq!['\\', 'u', '0', '0', hex_digit((c as u32) / 16), hex_digit((c as u32) % 16)]
    } else {
        seq![c]
    }
}

/// The escaped contents of a JSON string literal.
pub open spec fn escaped(s: Seq<char>) -> Seq<char>
    decreases s.len(),
{
    if s.len() == 0 {
        Seq::empty()
    } else {
        escaped(s.drop_last()) + escaped_char(s.last())
    }
}

/// `s` written as a JSON string literal.
pub open spec fn json_string_literal(s: Seq<char>) -> Seq<char> {
    seq!['"'] + escaped(s) + seq!['"']
}

/// Relies on solana_sdk's `Pubkey::new_from_array` and its `Display`: the
/// base58 text of the address, a function of its bytes.
#[verifier::external_body]
fn address_text(a: &Address) -> (r: String)
    ensures
        r@ == address_text_of(a.bytes@),
{
    solana_sdk::pubkey::Pubkey::new_from_array(a.bytes).to_string()
}

/// Relies on `serde_json::to_string` on a `str`: serializing a string
/// cannot fail, and gives it quoted, with quote, backslash and the control
/// characters escaped.
#[verifier::external_body]
fn json_string(s: &str) -> (r: Option<String>)
    ensures
        r is Some,
        r is Some ==> r->0@ == json_string_literal(s@),
{
    serde_json::to_string(s).ok()
}

/// Relies on `serde_json::from_str` into a `Value`, then `Value::get` and
/// `Value::as_u64`: the unsigned integer under `key`, if the text is a JSON
/// object that holds one there.
#[verifier::external_body]
fn u64_field(text: &str, key: &str) -> (r: Option<u64>)
    ensures
        r == u64_field_of(text@, key@),
{
    let v: serde_json::Value = serde_json::from_str(text).ok()?;
    v.get(key)?.as_u64()
}

/// The subscription request for logs that mention the program whose
/// address is given as the JSON literal `mentions`.
pub open spec fn request_text(mentions: Seq<char>, commitment: Commitment) -> Seq<char> {
    "{\"jsonrpc\":\"2.0\",\"method\":\"solana_subscribeLogs\",\"params\":{\"filter\":{\"mentions\":"@
        + mentions + "},\"commitment\":\""@ + commitment_name(commitment) + "\"},\"id\":1}"@
}

/// The request, or the error, for a given result of quoting the program's
/// address.
pub open spec fn request_result(quoted: Option<Seq<char>>, commitment: Commitment) -> Result<
    Seq<char>,
    SubscriptionError,
> {
    match quoted {
        Some(q) => Ok(request_text(q, commitment)),
        None => Err(SubscriptionError::Serialization),
    }
}

/// The key under which the node's answer holds the subscription handle.
pub open spec fn handle_key() -> Seq<char> {
    "result"@
}

/// The handle, or the error, for a given `result` field of the answer.
pub open spec fn handle_result(field: Option<u64>) -> Result<u64, SubscriptionError> {
    match field {
        Some(h) => Ok(h),
        None => Err(SubscriptionError::MissingHandle),
    }
}

/// Builds the request text from the program address already quoted as a
/// JSON string literal (`None` where quoting failed).
pub fn request_from_quoted(quoted: Option<String>, commitment: Commitment) -> (r: Result<
    String,
    SubscriptionError,
>)
    ensures
        request_result(
            match quoted {
                Some(q) => Some(q@),
                None => None,
            },
            commitment,
        ) == match r {
            Ok(t) => Ok(t@),
            Err(e) => Err(e),
        },
{
    match quoted {
        None => Err(SubscriptionError::Serialization),
        Some(q) => {
            let mut t = String::from_str(
                "{\"jsonrpc\":\"2.0\",\"method\":\"solana_subscribeLogs\",\"params\":{\"filter\":{\"mentions\":",
            );
            t.append(q.as_str());
            t.append("},\"commitment\":\"");
            t.append(commitment.as_str());
            t.append("\"},\"id\":1}");
            Ok(t)
        },
    }
}

/// The subscription request for logs that mention `program`, at the given
/// commitment level. Serializing it always succeeds.
pub fn subscription_request(program: &Address, commitment: Commitment) -> (r: Result<
    String,
    SubscriptionError,
>)
    ensures
        r is Ok,
        r is Ok ==> r->Ok_0@ == request_text(
            json_string_literal(address_text_of(program.bytes@)),
            commitment,
        ),
{
    let text = address_text(program);
    let quoted = json_string(text.as_str());
    request_from_quoted(quoted, commitment)
}

/// The subscription handle for a given `result` field of the answer.
pub fn handle_from_field(field: Option<u64>) -> (r: Result<u64, SubscriptionError>)
    ensures
        r == handle_result(field),
{
    match field {
        Some(h) => Ok(h),
        None => Err(SubscriptionError::MissingHandle),
    }
}

/// Reads the subscription handle from the node's answer; `None` stands for
/// a channel that closed before answering.
pub fn subscription_handle(response: Option<&str>) -> (r: Result<u64, SubscriptionError>)
    ensures
        response is None ==> r == Err::<u64, SubscriptionError>(SubscriptionError::ChannelClosed),
        response is Some ==> r == handle_result(u64_field_of(response->0@, handle_key())),
{
    match response {
        None => Err(SubscriptionError::ChannelClosed),
        Some(text) => handle_from_field(u64_field(text, "result")),
    }
}

} // verus!
