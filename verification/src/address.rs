//! Absolute URLs: parsing the base URL and resolving endpoint paths against it.

use crate::error::Error;
use reqwest::Url;
use url::ParseError;
use vstd::prelude::*;
use vstd::string::*;

verus! {

#[verifier::external_type_specification]
#[verifier::external_body]
pub struct ExParseError(ParseError);

/// The serialisation of the absolute URL that `input` parses to, or `None`
/// where `input` is not an absolute URL.
pub uninterp spec fn parsed_url(input: Seq<char>) -> Option<Seq<char>>;

/// The serialisation of `reference` resolved against the absolute URL that
/// `base` parses to, or `None` where `base` does not parse or the reference
/// cannot be resolved against it.
pub uninterp spec fn resolved_url(base: Seq<char>, reference: Seq<char>) -> Option<Seq<char>>;

/// `Url::parse`, with the URL handed out as its serialisation. The contract
/// names the outcome as a function of the input text.
#[verifier::external_body]
fn parse_url(input: &str) -> (r: Result<String, ParseError>)
    ensures
        match r {
            Ok(text) => parsed_url(input@) == Some(text@),
            Err(_) => parsed_url(input@) is None,
        },
{
    Url::parse(input).map(String::from)
}

/// `Url::join` on the URL that `base` parses to, with the result handed out
/// as its serialisation. The contract names the outcome as a function of the
/// two texts.
#[verifier::external_body]
fn join_url(base: &str, reference: &str) -> (r: Result<String, ParseError>)
    ensures
        match r {
            Ok(text) => resolved_url(base@, reference@) == Some(text@),
            Err(_) => resolved_url(base@, reference@) is None,
        },
{
    Url::parse(base)?.join(reference).map(String::from)
}

/// An absolute URL that requests are sent to, held as its serialisation.
#[derive(Debug)]
pub struct Address {
    text: String,
}

impl View for Address {
    type V = Seq<char>;

    /// The serialisation of the URL.
    closed spec fn view(&self) -> Seq<char> {
        self.text@
    }
}

impl Clone for Address {
    fn clone(&self) -> (copy: Self)
        ensures
            copy@ == self@,
    {
        Address { text: self.text.clone() }
    }
}

impl Address {
    /// Parses an absolute URL, or fails with `UrlParseError`.
    pub fn parse(input: &str) -> (r: Result<Address, Error>)
        ensures
            match r {
                Ok(address) => parsed_url(input@) == Some(address@),
                Err(e) => e == Error::UrlParseError && parsed_url(input@) is None,
            },
    {
        match parse_url(input) {
            Ok(text) => Ok(Address { text }),
            Err(_) => Err(Error::UrlParseError),
        }
    }

    /// Resolves `reference` (a path such as `/api/v3/order`) against this URL.
    pub fn join(&self, reference: &str) -> (r: Option<Address>)
        ensures
            match r {
                Some(address) => resolved_url(self@, reference@) == Some(address@),
                None => resolved_url(self@, reference@) is None,
            },
    {
        match join_url(self.text.as_str(), reference) {
            Ok(text) => Some(Address { text }),
            Err(_) => None,
        }
    }

    /// The serialisation of the URL.
    pub fn as_str(&self) -> (s: &str)
        ensures
            s@ == self@,
    {
        self.text.as_str()
    }

    /// The serialisation of the URL, as an owned text.
    pub fn to_text(&self) -> (s: String)
        ensures
            s@ == self@,
    {
        self.text.clone()
    }
}

} // verus!
