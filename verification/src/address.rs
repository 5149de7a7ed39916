//! The target of a request: a `host:port` and a path, normalized at
//! construction so that joining them always yields exactly one separating
//! slash.

use crate::text::trim_end_slashes;
use crate::text::trim_leading_slashes;
use crate::text::trim_start_slashes;
use crate::text::trim_trailing_slashes;
use vstd::prelude::*;
use vstd::string::StringExecFns;

verus! {

/// The normal form of the path part: no leading and no trailing `'/'`.
pub open spec fn normalize_endpoint(s: Seq<char>) -> Seq<char> {
    trim_trailing_slashes(trim_leading_slashes(s))
}

/// A service address. `url` never ends in `'/'`; `endpoint` neither starts
/// nor ends with one.
#[derive(Clone, Debug)]
pub struct ServiceAddress {
    pub url: String,
    pub endpoint: String,
}

impl ServiceAddress {
    /// Whether the two parts are in normalized form.
    pub open spec fn wf(&self) -> bool {
        &&& self.url@ == trim_trailing_slashes(self.url@)
        &&& self.endpoint@ == normalize_endpoint(self.endpoint@)
    }

    /// Builds an address, stripping every trailing `'/'` from `url` and
    /// every leading and trailing `'/'` from `endpoint`.
    pub fn new(url: &str, endpoint: &str) -> (r: ServiceAddress)
        ensures
            r.url@ == trim_trailing_slashes(url@),
            r.endpoint@ == normalize_endpoint(endpoint@),
            r.wf(),
    {
        let lead_trimmed = trim_start_slashes(endpoint);
        let r = ServiceAddress {
            url: trim_end_slashes(url),
            endpoint: trim_end_slashes(lead_trimmed.as_str()),
        };
        proof {
            lemma_trim_trailing_idempotent(url@);
            lemma_normalize_endpoint_idempotent(endpoint@);
        }
        r
    }

    /// The joined form `url/endpoint`, with exactly one separating slash for
    /// a normalized address.
    pub fn full_path(&self) -> (r: String)
        ensures
            r@ == self.url@ + "/"@ + self.endpoint@,
    {
        let mut r = self.url.clone();
        r.append("/");
        r.append(self.endpoint.as_str());
        r
    }
}

/// Law: stripping trailing slashes is idempotent, so constructing an address
/// from an already-normalized `url` leaves it unchanged.
pub proof fn lemma_trim_trailing_idempotent(s: Seq<char>)
    ensures
        trim_trailing_slashes(trim_trailing_slashes(s)) == trim_trailing_slashes(s),
    decreases s.len(),
{
    if s.len() > 0 && s.last() == '/' {
        lemma_trim_trailing_idempotent(s.drop_last());
    }
}

/// Law: stripping leading slashes is idempotent.
pub proof fn lemma_trim_leading_idempotent(s: Seq<char>)
    ensures
        trim_leading_slashes(trim_leading_slashes(s)) == trim_leading_slashes(s),
    decreases s.len(),
{
    if s.len() > 0 && s.first() == '/' {
        lemma_trim_leading_idempotent(s.subrange(1, s.len() as int));
    }
}

proof fn lemma_trim_leading_len(s: Seq<char>)
    ensures
        trim_leading_slashes(s).len() <= s.len(),
    decreases s.len(),
{
    if s.len() > 0 && s.first() == '/' {
        lemma_trim_leading_len(s.subrange(1, s.len() as int));
    }
}

/// Stripping trailing slashes cannot introduce a leading one.
proof fn lemma_trim_trailing_keeps_no_leading(s: Seq<char>)
    requires
        trim_leading_slashes(s) == s,
    ensures
        trim_leading_slashes(trim_trailing_slashes(s)) == trim_trailing_slashes(s),
    decreases s.len(),
{
    if s.len() > 0 {
        if s.first() == '/' {
            lemma_trim_leading_len(s.subrange(1, s.len() as int));
            assert(false);
        }
        if s.last() == '/' {
            let t = s.drop_last();
            if t.len() > 0 {
                assert(t.first() == s.first());
            }
            lemma_trim_trailing_keeps_no_leading(t);
        }
    }
}

/// Law: the endpoint normalization is idempotent, so constructing an address
/// from an already-normalized `endpoint` leaves it unchanged.
pub proof fn lemma_normalize_endpoint_idempotent(s: Seq<char>)
    ensures
        normalize_endpoint(normalize_endpoint(s)) == normalize_endpoint(s),
{
    let lead = trim_leading_slashes(s);
    lemma_trim_leading_idempotent(s);
    lemma_trim_trailing_keeps_no_leading(lead);
    lemma_trim_trailing_idempotent(lead);
}

} // verus!
