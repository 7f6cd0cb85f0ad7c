//! The base URL of a Renku platform instance, held in its serialized
//! form.  Parsing and joining are the `url` crate's; the library
//! holds the text and reasons over it.

use vstd::prelude::*;

verus! {

/// The serialization of the URL that `url::Url::parse` reads from
/// `s`, absent where parsing fails.  The parse is a function of the
/// input text alone.
pub uninterp spec fn url_parsed(s: Seq<char>) -> Option<Seq<char>>;

/// The serialization of the URL that joining `input` onto the URL
/// serialized as `base` yields, absent where `base` does not parse or
/// the join fails.  The outcome is a function of the two texts alone.
pub uninterp spec fn url_joined(base: Seq<char>, input: Seq<char>) -> Option<Seq<char>>;

/// Relies on `url::Url::parse`: reads an absolute URL from the text,
/// or fails with a parse error.  `url::Url::as_str` hands its
/// serialization back as text.
#[verifier::external_body]
fn url_parse_raw(s: &str) -> (r: Option<String>)
    ensures
        match r {
            Some(t) => url_parsed(s@) == Some(t@),
            None => url_parsed(s@) is None,
        },
{
    match url::Url::parse(s) {
        Ok(u) => Some(u.as_str().to_string()),
        Err(_) => None,
    }
}

/// Relies on `url::Url::parse` and `url::Url::join`: parses `base`,
/// then reads `input` relative to it, as the WHATWG rules say.
/// `url::Url::as_str` hands the joined URL's serialization back.
#[verifier::external_body]
fn url_join_raw(base: &str, input: &str) -> (r: Option<String>)
    ensures
        match r {
            Some(t) => url_joined(base@, input@) == Some(t@),
            None => url_joined(base@, input@) is None,
        },
{
    match url::Url::parse(base) {
        Ok(u) => match u.join(input) {
            Ok(j) => Some(j.as_str().to_string()),
            Err(_) => None,
        },
        Err(_) => None,
    }
}

/// A URL could not be read.
#[derive(Clone, Copy, Debug, PartialEq, Eq, Structural)]
pub struct UrlParseError;

/// The base URL of a Renku instance, as serialized text.
#[derive(Clone, Debug, PartialEq)]
pub struct RenkuUrl {
    url: String,
}

impl View for RenkuUrl {
    type V = Seq<char>;

    closed spec fn view(&self) -> Seq<char> {
        self.url@
    }
}

impl RenkuUrl {
    /// Wraps already-serialized URL text.
    pub fn new(url: String) -> (r: RenkuUrl)
        ensures
            r@ == url@,
    {
        RenkuUrl { url }
    }

    /// Reads an absolute URL; the result holds its serialization.
    pub fn parse(s: &str) -> (r: Result<RenkuUrl, UrlParseError>)
        ensures
            match r {
                Ok(u) => url_parsed(s@) == Some(u@),
                Err(_) => url_parsed(s@) is None,
            },
    {
        match url_parse_raw(s) {
            Some(t) => Ok(RenkuUrl { url: t }),
            None => Err(UrlParseError),
        }
    }

    /// The URL's serialization.
    pub fn as_str(&self) -> (r: &str)
        ensures
            r@ == self@,
    {
        self.url.as_str()
    }

    /// Reads `seg` relative to this URL.
    pub fn join(&self, seg: &str) -> (r: Result<RenkuUrl, UrlParseError>)
        ensures
            match r {
                Ok(u) => url_joined(self@, seg@) == Some(u@),
                Err(_) => url_joined(self@, seg@) is None,
            },
    {
        match url_join_raw(self.url.as_str(), seg) {
            Some(t) => Ok(RenkuUrl { url: t }),
            None => Err(UrlParseError),
        }
    }
}

} // verus!
