//! The JSON-RPC request envelope: protocol version tag, method name,
//! parameters and correlation id, and its serialization to the canonical
//! four-key JSON object.

use vstd::prelude::*;
use vstd::string::StringExecFns;

verus! {

/// Request parameters: an opaque caller-chosen value. The transport never
/// reads it; it reaches the wire as the JSON text the caller derives from it.
#[derive(Clone, Debug)]
pub struct Params<T>(pub T);

/// What `serde_json` returns when it quotes a string: a function of the
/// characters alone.
pub uninterp spec fn json_quoted(s: Seq<char>) -> Seq<char>;

/// A text in which no character needs a JSON escape: no `"`, no `\`, no
/// control character.
pub open spec fn plain_json_text(s: Seq<char>) -> bool {
    forall|i: int| 0 <= i < s.len() ==> s[i] != '"' && s[i] != '\\' && s[i] as u32 >= 32
}

/// Relies on `serde_json::to_string::<str>`: the quoting of a string depends
/// on its characters alone; writing into the in-memory buffer cannot fail;
/// and only `"`, `\` and control characters are escaped, so a text free of
/// those comes back verbatim between two quote characters.
#[verifier::external_body]
fn json_quote(s: &str) -> (r: String)
    ensures
        r@ == json_quoted(s@),
        plain_json_text(s@) ==> r@ == seq!['"'] + s@ + seq!['"'],
{
    serde_json::to_string(s).unwrap()
}

/// The serialized envelope: exactly the four keys `jsonrpc`, `method`,
/// `params`, `id`, in that order, with the three strings quoted and the
/// params text inserted as given.
pub open spec fn spec_request_body(
    version: Seq<char>,
    method: Seq<char>,
    params: Seq<char>,
    id: Seq<char>,
) -> Seq<char> {
    "{\"jsonrpc\":"@ + json_quoted(version) + ",\"method\":"@ + json_quoted(method)
        + ",\"params\":"@ + params + ",\"id\":"@ + json_quoted(id) + "}"@
}

/// A JSON-RPC request. The protocol version is fixed at construction and is
/// not caller-settable.
#[derive(Clone, Debug)]
pub struct Request<T> {
    jsonrpc: String,
    method: String,
    params: Params<T>,
    id: String,
}

impl<T> Request<T> {
    /// The protocol version tag this request carries.
    pub closed spec fn spec_jsonrpc(&self) -> Seq<char> {
        self.jsonrpc@
    }

    /// The method name.
    pub closed spec fn spec_method(&self) -> Seq<char> {
        self.method@
    }

    /// The correlation id.
    pub closed spec fn spec_id(&self) -> Seq<char> {
        self.id@
    }

    /// The parameters.
    pub closed spec fn spec_params(&self) -> Params<T> {
        self.params
    }

    /// Every constructed request carries protocol version "2.0".
    pub open spec fn wf(&self) -> bool {
        self.spec_jsonrpc() == "2.0"@
    }

    pub fn new(method: &str, params: Params<T>, id: &str) -> (r: Request<T>)
        ensures
            r.spec_method() == method@,
            r.spec_id() == id@,
            r.spec_params() == params,
            r.wf(),
    {
        Request {
            jsonrpc: String::from_str("2.0"),
            method: method.to_owned(),
            params,
            id: id.to_owned(),
        }
    }

    /// The parameters, for the caller to render as JSON text.
    pub fn params(&self) -> (r: &Params<T>)
        ensures
            *r == self.spec_params(),
    {
        &self.params
    }

    /// Serializes the envelope around the given params text. The caller
    /// supplies `params_json`, the JSON rendering of the parameters; the
    /// envelope itself always serializes (it is string quoting and
    /// concatenation), so nothing can fail here.
    pub fn to_json(&self, params_json: &str) -> (r: String)
        ensures
            r@ == spec_request_body(self.spec_jsonrpc(), self.spec_method(), params_json@, self.spec_id()),
    {
        let mut r = String::from_str("{\"jsonrpc\":");
        r.append(json_quote(self.jsonrpc.as_str()).as_str());
        r.append(",\"method\":");
        r.append(json_quote(self.method.as_str()).as_str());
        r.append(",\"params\":");
        r.append(params_json);
        r.append(",\"id\":");
        r.append(json_quote(self.id.as_str()).as_str());
        r.append("}");
        r
    }
}

/// Law: for every method, params text and id, the serialized envelope of a
/// constructed request is exactly the four-key JSON-RPC 2.0 object whose
/// first key/value pair is the quoted version "2.0".
pub proof fn lemma_envelope_canonical<T>(r: Request<T>, params: Seq<char>)
    requires
        r.wf(),
    ensures
        spec_request_body(r.spec_jsonrpc(), r.spec_method(), params, r.spec_id())
            == "{\"jsonrpc\":"@ + json_quoted("2.0"@) + ",\"method\":"@
            + json_quoted(r.spec_method()) + ",\"params\":"@ + params + ",\"id\":"@
            + json_quoted(r.spec_id()) + "}"@,
{
}

} // verus!
