//! The finished request, ready to be sent.

use vstd::prelude::*;
use vstd::string::*;

verus! {

/// The HTTP verb of a request.
#[derive(Clone, Copy, Debug, PartialEq, Eq, Structural)]
pub enum Method {
    Get,
    Post,
    Delete,
}

impl Method {
    pub open spec fn wire(self) -> Seq<char> {
        match self {
            Method::Get => "GET"@,
            Method::Post => "POST"@,
            Method::Delete => "DELETE"@,
        }
    }

    pub fn as_str(&self) -> (s: &'static str)
        ensures
            s@ == self.wire(),
    {
        match self {
            Method::Get => "GET",
            Method::Post => "POST",
            Method::Delete => "DELETE",
        }
    }
}

/// A request as it goes out: verb, absolute URL, query string and, where the
/// builder had one, the API key for the `X-MBX-APIKEY` header.
#[derive(Debug)]
pub struct SignedRequest<'b> {
    pub method: Method,
    pub url: String,
    pub query: String,
    pub api_key: Option<&'b str>,
}

/// What a [`SignedRequest`] stands for in specifications.
pub struct SignedRequestView {
    pub method: Method,
    pub url: Seq<char>,
    pub query: Seq<char>,
    pub api_key: Option<Seq<char>>,
}

impl<'b> View for SignedRequest<'b> {
    type V = SignedRequestView;

    open spec fn view(&self) -> SignedRequestView {
        SignedRequestView {
            method: self.method,
            url: self.url@,
            query: self.query@,
            api_key: match self.api_key {
                Some(k) => Some(k@),
                None => None,
            },
        }
    }
}

impl<'b> SignedRequest<'b> {
    /// The name of the header that carries the API key.
    pub fn api_key_header() -> (s: &'static str)
        ensures
            s@ == "X-MBX-APIKEY"@,
    {
        "X-MBX-APIKEY"
    }

    /// The URL with the query string attached: `<url>?<query>`.
    pub fn target(&self) -> (s: String)
        ensures
            s@ == self.url@ + seq!['?'] + self.query@,
    {
        let mut s = self.url.clone();
        s.append("?");
        s.append(self.query.as_str());
        proof {
            reveal_strlit("?");
            assert("?"@ =~= seq!['?']);
        }
        s
    }
}

} // verus!
