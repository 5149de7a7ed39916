//! An optional credential, rendered on demand as a single HTTP header line.

use vstd::prelude::*;
use vstd::string::StringExecFns;

verus! {

/// An API key: a header name and its value.
#[derive(Debug)]
pub struct APIKey {
    key: String,
    value: String,
}

impl APIKey {
    /// The header name.
    pub closed spec fn spec_key(&self) -> Seq<char> {
        self.key@
    }

    /// The header value.
    pub closed spec fn spec_value(&self) -> Seq<char> {
        self.value@
    }

    pub fn new(key: &str, value: &str) -> (r: APIKey)
        ensures
            r.spec_key() == key@,
            r.spec_value() == value@,
    {
        APIKey { key: key.to_owned(), value: value.to_owned() }
    }

    /// Renders the credential as the header line `key: value` (without a
    /// line terminator).
    pub fn as_header(&self) -> (r: String)
        ensures
            r@ == self.spec_key() + ": "@ + self.spec_value(),
    {
        let mut r = self.key.clone();
        r.append(": ");
        r.append(self.value.as_str());
        r
    }
}

} // verus!
