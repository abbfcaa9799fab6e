//! URLs as the `url` crate parses and serializes them. The library keeps a URL as its
//! serialization; every component is read back through the `url` crate.

use vstd::prelude::*;
use vstd::string::*;

verus! {

/// The serialization of the URL that `Url::parse` makes of `s`, if it accepts it.
pub uninterp spec fn url_parse(s: Seq<char>) -> Option<Seq<char>>;

/// The serialization of `input` resolved against the URL serialized as `base`.
pub uninterp spec fn url_join(base: Seq<char>, input: Seq<char>) -> Option<Seq<char>>;

/// The scheme of the URL serialized as `href`.
pub uninterp spec fn url_scheme(href: Seq<char>) -> Seq<char>;

/// The path of the URL serialized as `href`.
pub uninterp spec fn url_path(href: Seq<char>) -> Seq<char>;

/// The query of the URL serialized as `href`.
pub uninterp spec fn url_query(href: Seq<char>) -> Option<Seq<char>>;

/// The fragment of the URL serialized as `href`.
pub uninterp spec fn url_fragment(href: Seq<char>) -> Option<Seq<char>>;

/// The host of the URL serialized as `href`.
pub uninterp spec fn url_host(href: Seq<char>) -> Option<Seq<char>>;

/// The serialization once the path of the URL serialized as `href` is set to `path`.
pub uninterp spec fn url_with_path(href: Seq<char>, path: Seq<char>) -> Seq<char>;

/// The serialization once the host of the URL serialized as `href` is set to `host`,
/// if the `url` crate accepts it.
pub uninterp spec fn url_with_host(href: Seq<char>, host: Seq<char>) -> Option<Seq<char>>;

/// A URL that the `url` crate accepted, kept as its serialization.
#[derive(Debug, Clone, PartialEq, Eq)]
pub struct Url {
    href: String,
}

/// Why a URL could not be made.
#[derive(Debug, Clone, PartialEq, Eq)]
pub struct UrlError {
    pub message: String,
}

/// Relies on `url::Url::parse`: the serialization of the parsed URL, or the parse
/// error's message.
#[verifier::external_body]
fn parse_href(input: &str) -> (r: Result<String, String>)
    ensures
        r is Ok <==> url_parse(input@) is Some,
        r is Ok ==> r->Ok_0@ == url_parse(input@)->0,
{
    match ::url::Url::parse(input) {
        Ok(u) => Ok(u.as_str().to_string()),
        Err(e) => Err(e.to_string()),
    }
}

/// Relies on `url::Url::join`: `input` resolved against the URL serialized as
/// `base`, or the error's message.
#[verifier::external_body]
fn join_href(base: &str, input: &str) -> (r: Result<String, String>)
    ensures
        r is Ok <==> url_join(base@, input@) is Some,
        r is Ok ==> r->Ok_0@ == url_join(base@, input@)->0,
{
    match ::url::Url::parse(base) {
        Ok(u) => match u.join(input) {
            Ok(j) => Ok(j.as_str().to_string()),
            Err(e) => Err(e.to_string()),
        },
        Err(e) => Err(e.to_string()),
    }
}

/// Relies on `url::Url::scheme`: the scheme, lower-cased, without the `:`.
#[verifier::external_body]
fn scheme_of(href: &str) -> (r: String)
    ensures
        r@ == url_scheme(href@),
{
    match ::url::Url::parse(href) {
        Ok(u) => u.scheme().to_string(),
        Err(_) => String::new(),
    }
}

/// Relies on `url::Url::path`: the path, percent-encoded.
#[verifier::external_body]
fn path_of(href: &str) -> (r: String)
    ensures
        r@ == url_path(href@),
{
    match ::url::Url::parse(href) {
        Ok(u) => u.path().to_string(),
        Err(_) => String::new(),
    }
}

/// Relies on `url::Url::query`: the query, without the `?`.
#[verifier::external_body]
fn query_of(href: &str) -> (r: Option<String>)
    ensures
        r is Some <==> url_query(href@) is Some,
        r is Some ==> r->0@ == url_query(href@)->0,
{
    match ::url::Url::parse(href) {
        Ok(u) => u.query().map(|q| q.to_string()),
        Err(_) => None,
    }
}

/// Relies on `url::Url::fragment`: the fragment, without the `#`.
#[verifier::external_body]
fn fragment_of(href: &str) -> (r: Option<String>)
    ensures
        r is Some <==> url_fragment(href@) is Some,
        r is Some ==> r->0@ == url_fragment(href@)->0,
{
    match ::url::Url::parse(href) {
        Ok(u) => u.fragment().map(|q| q.to_string()),
        Err(_) => None,
    }
}

/// Relies on `url::Url::host_str`: the host, if the URL has one.
#[verifier::external_body]
fn host_of(href: &str) -> (r: Option<String>)
    ensures
        r is Some <==> url_host(href@) is Some,
        r is Some ==> r->0@ == url_host(href@)->0,
{
    match ::url::Url::parse(href) {
        Ok(u) => u.host_str().map(|q| q.to_string()),
        Err(_) => None,
    }
}

/// Relies on `url::Url::set_path`: the serialization with the path replaced.
#[verifier::external_body]
fn with_path_href(href: &str, path: &str) -> (r: String)
    ensures
        r@ == url_with_path(href@, path@),
{
    match ::url::Url::parse(href) {
        Ok(mut u) => {
            u.set_path(path);
            u.as_str().to_string()
        },
        Err(_) => href.to_string(),
    }
}

/// Relies on `url::Url::set_host`: the serialization with the host replaced, if the
/// host is accepted.
#[verifier::external_body]
fn with_host_href(href: &str, host: &str) -> (r: Result<String, String>)
    ensures
        r is Ok <==> url_with_host(href@, host@) is Some,
        r is Ok ==> r->Ok_0@ == url_with_host(href@, host@)->0,
{
    match ::url::Url::parse(href) {
        Ok(mut u) => match u.set_host(Some(host)) {
            Ok(()) => Ok(u.as_str().to_string()),
            Err(e) => Err(e.to_string()),
        },
        Err(e) => Err(e.to_string()),
    }
}

/// Relies on `url::Url::from_file_path`, whose result depends on the platform's path
/// rules: nothing is promised of it.
#[verifier::external_body]
fn from_file_path_href(path: &str) -> (r: Result<String, ()>) {
    match ::url::Url::from_file_path(path) {
        Ok(u) => Ok(u.as_str().to_string()),
        Err(()) => Err(()),
    }
}

impl Url {
    pub closed spec fn href(&self) -> Seq<char> {
        self.href@
    }

    /// Parses an absolute URL.
    pub fn parse(input: &str) -> (r: Result<Url, UrlError>)
        ensures
            r is Ok <==> url_parse(input@) is Some,
            r is Ok ==> r->Ok_0.href() == url_parse(input@)->0,
    {
        match parse_href(input) {
            Ok(href) => Ok(Url { href }),
            Err(message) => Err(UrlError { message }),
        }
    }

    /// `input` resolved against this URL.
    pub fn join(&self, input: &str) -> (r: Result<Url, UrlError>)
        ensures
            r is Ok <==> url_join(self.href(), input@) is Some,
            r is Ok ==> r->Ok_0.href() == url_join(self.href(), input@)->0,
    {
        match join_href(self.href.as_str(), input) {
            Ok(href) => Ok(Url { href }),
            Err(message) => Err(UrlError { message }),
        }
    }

    /// The serialization.
    pub fn as_str(&self) -> (r: &str)
        ensures
            r@ == self.href(),
    {
        self.href.as_str()
    }

    pub fn scheme(&self) -> (r: String)
        ensures
            r@ == url_scheme(self.href()),
    {
        scheme_of(self.href.as_str())
    }

    pub fn path(&self) -> (r: String)
        ensures
            r@ == url_path(self.href()),
    {
        path_of(self.href.as_str())
    }

    pub fn query(&self) -> (r: Option<String>)
        ensures
            r is Some <==> url_query(self.href()) is Some,
            r is Some ==> r->0@ == url_query(self.href())->0,
    {
        query_of(self.href.as_str())
    }

    pub fn fragment(&self) -> (r: Option<String>)
        ensures
            r is Some <==> url_fragment(self.href()) is Some,
            r is Some ==> r->0@ == url_fragment(self.href())->0,
    {
        fragment_of(self.href.as_str())
    }

    pub fn host_str(&self) -> (r: Option<String>)
        ensures
            r is Some <==> url_host(self.href()) is Some,
            r is Some ==> r->0@ == url_host(self.href())->0,
    {
        host_of(self.href.as_str())
    }

    /// This URL with its path replaced.
    pub fn with_path(&self, path: &str) -> (r: Url)
        ensures
            r.href() == url_with_path(self.href(), path@),
    {
        Url { href: with_path_href(self.href.as_str(), path) }
    }

    /// This URL with its host replaced, if the host is accepted.
    pub fn with_host(&self, host: &str) -> (r: Result<Url, UrlError>)
        ensures
            r is Ok <==> url_with_host(self.href(), host@) is Some,
            r is Ok ==> r->Ok_0.href() == url_with_host(self.href(), host@)->0,
    {
        match with_host_href(self.href.as_str(), host) {
            Ok(href) => Ok(Url { href }),
            Err(message) => Err(UrlError { message }),
        }
    }

    /// The `file:` URL of an absolute path, by the platform's path rules.
    pub fn from_file_path(path: &str) -> (r: Result<Url, ()>) {
        match from_file_path_href(path) {
            Ok(href) => Ok(Url { href }),
            Err(()) => Err(()),
        }
    }

    /// A copy.
    pub fn duplicate(&self) -> (r: Url)
        ensures
            r.href() == self.href(),
    {
        Url { href: String::from_str(self.href.as_str()) }
    }
}

} // verus!
