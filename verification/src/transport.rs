//! Framing and response handling: wrapping a serialized envelope in a
//! minimal HTTP/1.1 POST, splitting the raw reply on the first blank-line
//! boundary, and classifying every failure point into a typed error.
//!
//! Opening the connection and moving the bytes is network work that the
//! caller performs; it reports what happened as an [`ExchangeEvent`], and
//! [`complete_exchange`] turns that event into the decoded result or the
//! classified error.

use crate::address::ServiceAddress;
use crate::credential::APIKey;
use crate::error::JsonRpcError;
use crate::text::dec_digits;
use crate::text::u64_to_dec;
use vstd::prelude::*;
use vstd::slice::slice_index_get;
use vstd::slice::slice_subrange;
use vstd::string::StringExecFns;
use vstd::utf8::decode_utf8;
use vstd::utf8::encode_utf8;
use vstd::utf8::valid_utf8;

verus! {

#[verifier::external_type_specification]
#[verifier::external_body]
pub struct ExJsonValue(serde_json::Value);

/// The UTF-8 byte length of a text: what `Content-Length` counts.
pub open spec fn byte_len(s: Seq<char>) -> nat {
    encode_utf8(s).len()
}

/// The optional credential header line, terminated like every header line.
pub open spec fn spec_credential_line(cred: Option<(Seq<char>, Seq<char>)>) -> Seq<char> {
    match cred {
        Some((k, v)) => k + ": "@ + v + "\r\n"@,
        None => Seq::<char>::empty(),
    }
}

/// The credential of an optional key, as a pair of name and value.
pub open spec fn spec_key_view(k: Option<&APIKey>) -> Option<(Seq<char>, Seq<char>)> {
    match k {
        Some(key) => Some((key.spec_key(), key.spec_value())),
        None => None,
    }
}

/// The complete outbound message: request line, the fixed headers in order,
/// the optional credential line, `Content-Length` counting the UTF-8 bytes
/// of the body, one blank line, then the body with no trailing terminator.
pub open spec fn spec_http_request(
    url: Seq<char>,
    endpoint: Seq<char>,
    cred: Option<(Seq<char>, Seq<char>)>,
    body: Seq<char>,
) -> Seq<char> {
    "POST /"@ + endpoint + " HTTP/1.1\r\nHost: "@ + url
        + "\r\nContent-Type: application/json\r\nUser-Agent: jsonrpc_v2_client/0.1.0\r\nAccept: application/json\r\n"@
        + spec_credential_line(cred) + "Content-Length: "@ + dec_digits(byte_len(body)) + "\r\n\r\n"@
        + body
}

/// Builds the outbound HTTP/1.1 message around the serialized envelope.
pub fn frame_http_request(address: &ServiceAddress, api_key: Option<&APIKey>, body: &str) -> (r:
    String)
    ensures
        r@ == spec_http_request(address.url@, address.endpoint@, spec_key_view(api_key), body@),
{
    let mut r = String::from_str("POST /");
    r.append(address.endpoint.as_str());
    r.append(" HTTP/1.1\r\nHost: ");
    r.append(address.url.as_str());
    r.append(
        "\r\nContent-Type: application/json\r\nUser-Agent: jsonrpc_v2_client/0.1.0\r\nAccept: application/json\r\n",
    );
    match api_key {
        Some(key) => {
            let header = key.as_header();
            r.append(header.as_str());
            r.append("\r\n");
        },
        None => {},
    }
    r.append("Content-Length: ");
    let n = body.as_bytes().len();
    let digits = u64_to_dec(n as u64);
    r.append(digits.as_str());
    r.append("\r\n\r\n");
    r.append(body);
    proof {
        assert(r@ =~= spec_http_request(
            address.url@,
            address.endpoint@,
            spec_key_view(api_key),
            body@,
        ));
    }
    r
}

/// Whether the four bytes at `i` are the header/body separator `\r\n\r\n`.
pub open spec fn is_sep_at(b: Seq<u8>, i: int) -> bool {
    &&& 0 <= i
    &&& i + 4 <= b.len()
    &&& b[i] == 13u8
    &&& b[i + 1] == 10u8
    &&& b[i + 2] == 13u8
    &&& b[i + 3] == 10u8
}

/// The first separator position at or after `i`, or `-1` if there is none.
pub open spec fn find_sep_from(b: Seq<u8>, i: int) -> int
    decreases b.len() - i,
{
    if i + 4 > b.len() {
        -1
    } else if is_sep_at(b, i) {
        i
    } else {
        find_sep_from(b, i + 1)
    }
}

/// The position of the first header/body separator, or `-1`.
pub open spec fn sep_index(b: Seq<u8>) -> int {
    find_sep_from(b, 0)
}

/// Whether the reply holds a header/body separator at all.
pub open spec fn has_sep(b: Seq<u8>) -> bool {
    sep_index(b) >= 0
}

proof fn lemma_find_sep_found(b: Seq<u8>, i: int)
    requires
        find_sep_from(b, i) >= 0,
    ensures
        find_sep_from(b, i) >= i,
        is_sep_at(b, find_sep_from(b, i)),
    decreases b.len() - i,
{
    if i + 4 > b.len() {
    } else if is_sep_at(b, i) {
    } else {
        lemma_find_sep_found(b, i + 1);
    }
}

fn find_separator(bytes: &[u8]) -> (r: Option<usize>)
    ensures
        match r {
            Some(i) => sep_index(bytes@) == i as int,
            None => sep_index(bytes@) == -1,
        },
{
    let n = bytes.len();
    let mut i: usize = 0;
    loop
        invariant
            i <= n,
            n == bytes@.len(),
            find_sep_from(bytes@, 0) == find_sep_from(bytes@, i as int),
        decreases n - i,
    {
        if n < 4 || i > n - 4 {
            return None;
        }
        let b0 = *slice_index_get(bytes, i);
        let b1 = *slice_index_get(bytes, i + 1);
        let b2 = *slice_index_get(bytes, i + 2);
        let b3 = *slice_index_get(bytes, i + 3);
        if b0 == 13 && b1 == 10 && b2 == 13 && b3 == 10 {
            return Some(i);
        }
        i = i + 1;
    }
}

/// A JSON whitespace byte: space, tab, line feed or carriage return.
pub open spec fn is_ws_byte(c: u8) -> bool {
    c == 32u8 || c == 9u8 || c == 10u8 || c == 13u8
}

/// The bytes with trailing whitespace removed.
pub open spec fn trim_trailing_ws(b: Seq<u8>) -> Seq<u8>
    decreases b.len(),
{
    if b.len() > 0 && is_ws_byte(b.last()) {
        trim_trailing_ws(b.drop_last())
    } else {
        b
    }
}

fn ws_byte(c: u8) -> (r: bool)
    ensures
        r == is_ws_byte(c),
{
    c == 32 || c == 9 || c == 10 || c == 13
}

proof fn lemma_trim_ws_at(b: Seq<u8>, end: int)
    requires
        0 <= end <= b.len(),
        forall|j: int| end <= j < b.len() ==> is_ws_byte(b[j]),
        end > 0 ==> !is_ws_byte(b[end - 1]),
    ensures
        trim_trailing_ws(b) == b.subrange(0, end),
    decreases b.len(),
{
    if b.len() == 0 {
        assert(b.subrange(0, 0) =~= b);
    } else if is_ws_byte(b.last()) {
        assert(end < b.len());
        lemma_trim_ws_at(b.drop_last(), end);
        assert(b.drop_last().subrange(0, end) =~= b.subrange(0, end));
    } else {
        assert(end == b.len());
        assert(b.subrange(0, end) =~= b);
    }
}

/// The body of a reply that holds a separator: everything after the first
/// `\r\n\r\n`, with trailing whitespace trimmed.
pub open spec fn spec_body_bytes(b: Seq<u8>) -> Seq<u8> {
    trim_trailing_ws(b.subrange(sep_index(b) + 4, b.len() as int))
}

/// What `String::from_utf8_lossy` returns: a function of the bytes alone.
pub uninterp spec fn lossy_decode(b: Seq<u8>) -> Seq<char>;

/// Relies on `String::from_utf8_lossy`: the result depends on the bytes
/// alone, and valid UTF-8 input is decoded exactly.
#[verifier::external_body]
fn utf8_lossy(bytes: &[u8]) -> (r: String)
    ensures
        r@ == lossy_decode(bytes@),
        valid_utf8(bytes@) ==> r@ == decode_utf8(bytes@),
{
    String::from_utf8_lossy(bytes).into_owned()
}

/// The body of a reply as text, after the UTF-8 decode with replacement.
pub open spec fn spec_body_text(b: Seq<u8>) -> Seq<char> {
    lossy_decode(spec_body_bytes(b))
}

/// Whether `serde_json` accepts a text as a JSON document: a function of the
/// text alone.
pub uninterp spec fn json_parses(s: Seq<char>) -> bool;

/// Relies on `serde_json::from_str::<serde_json::Value>`: whether a text
/// parses as a JSON document depends on the text alone.
#[verifier::external_body]
fn parse_json(s: &str) -> (r: Result<serde_json::Value, String>)
    ensures
        r is Ok <==> json_parses(s@),
{
    match serde_json::from_str::<serde_json::Value>(s) {
        Ok(v) => Ok(v),
        Err(e) => Err(e.to_string()),
    }
}

/// Splits the raw reply on the first `\r\n\r\n` and decodes the body as
/// JSON. A reply with no separator is `InvalidResponse`; a body that is not
/// JSON is `SerializationError`; otherwise the decoded value is returned.
pub fn parse_response(bytes: &Vec<u8>) -> (r: Result<serde_json::Value, JsonRpcError>)
    ensures
        !has_sep(bytes@) ==> r is Err && r->Err_0 is InvalidResponse,
        has_sep(bytes@) ==> {
            &&& (r is Ok <==> json_parses(spec_body_text(bytes@)))
            &&& (r is Err ==> r->Err_0 is SerializationError)
        },
{
    let n = bytes.len();
    match find_separator(bytes.as_slice()) {
        None => Err(JsonRpcError::InvalidResponse),
        Some(i) => {
            proof {
                lemma_find_sep_found(bytes@, 0);
            }
            let start = i + 4;
            let mut end = n;
            while end > start && ws_byte(bytes[end - 1])
                invariant
                    start <= end <= n,
                    n == bytes@.len(),
                    forall|j: int| end <= j < n ==> is_ws_byte(bytes@[j]),
                decreases end,
            {
                end = end - 1;
            }
            proof {
                let body = bytes@.subrange(start as int, n as int);
                lemma_trim_ws_at(body, end - start);
                assert(body.subrange(0, end - start) =~= bytes@.subrange(
                    start as int,
                    end as int,
                ));
            }
            let body_slice = slice_subrange(bytes.as_slice(), start, end);
            let text = utf8_lossy(body_slice);
            match parse_json(text.as_str()) {
                Ok(v) => Ok(v),
                Err(detail) => Err(JsonRpcError::SerializationError(detail)),
            }
        },
    }
}

/// What the caller observed while performing the one round trip: a failure
/// at the connect, write or read step (with the underlying detail), or the
/// raw bytes of the complete reply.
#[derive(Debug)]
pub enum ExchangeEvent {
    ConnectFailed(String),
    WriteFailed(String),
    ReadFailed(String),
    Received(Vec<u8>),
}

/// Turns the outcome of the round trip into the decoded result or the
/// classified error: connect and write failures are `ConnectionError`, a
/// read failure is `ResponseError`, and a received reply is split and
/// decoded as [`parse_response`] says.
pub fn complete_exchange(event: ExchangeEvent) -> (r: Result<serde_json::Value, JsonRpcError>)
    ensures
        match event {
            ExchangeEvent::ConnectFailed(d) => r is Err && r->Err_0 is ConnectionError
                && r->Err_0->ConnectionError_0 == d,
            ExchangeEvent::WriteFailed(d) => r is Err && r->Err_0 is ConnectionError
                && r->Err_0->ConnectionError_0 == d,
            ExchangeEvent::ReadFailed(d) => r is Err && r->Err_0 is ResponseError
                && r->Err_0->ResponseError_0 == d,
            ExchangeEvent::Received(bytes) => {
                &&& (!has_sep(bytes@) ==> r is Err && r->Err_0 is InvalidResponse)
                &&& (has_sep(bytes@) ==> ((r is Ok <==> json_parses(spec_body_text(bytes@))) && (
                r is Err ==> r->Err_0 is SerializationError)))
            },
        },
{
    match event {
        ExchangeEvent::ConnectFailed(d) => Err(JsonRpcError::ConnectionError(d)),
        ExchangeEvent::WriteFailed(d) => Err(JsonRpcError::ConnectionError(d)),
        ExchangeEvent::ReadFailed(d) => Err(JsonRpcError::ResponseError(d)),
        ExchangeEvent::Received(bytes) => parse_response(&bytes),
    }
}

} // verus!
