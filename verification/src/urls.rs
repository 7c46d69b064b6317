//! The boundary to the `url` crate. Every URL is carried through the
//! library as its serialized byte string; parsing, joining and the
//! accessors of the `url` crate are reached only through the wrappers
//! below. What each call returns is a function of its byte-string
//! arguments alone, so each result is given an uninterpreted name that
//! the callers' contracts are stated over.

use vstd::prelude::*;

verus! {

/// The serialization of `s` parsed as an absolute URL, if it parses.
pub uninterp spec fn parse_of(s: Seq<u8>) -> Option<Seq<u8>>;

/// The serialization of `rel` resolved against the absolute URL `base`,
/// if both steps succeed.
pub uninterp spec fn join_of(base: Seq<u8>, rel: Seq<u8>) -> Option<Seq<u8>>;

/// The domain of the URL serialized as `s`: none when `s` does not parse
/// or its host is not a domain name.
pub uninterp spec fn domain_of(s: Seq<u8>) -> Option<Seq<u8>>;

/// The percent-encoded path of the URL serialized as `s`, none when `s`
/// does not parse.
pub uninterp spec fn path_of(s: Seq<u8>) -> Option<Seq<u8>>;

/// The serialization of the URL `s` with its path replaced by `p`, none
/// when `s` does not parse.
pub uninterp spec fn with_path_of(s: Seq<u8>, p: Seq<u8>) -> Option<Seq<u8>>;

/// Relies on `url::Url::parse`: parses an absolute URL and reports its
/// serialization (`Url::as_str`).
#[verifier::external_body]
pub fn url_parse(s: &Vec<u8>) -> (r: Option<Vec<u8>>)
    ensures
        match r {
            Some(u) => parse_of(s@) == Some(u@),
            None => parse_of(s@) is None,
        },
{
    let text = match core::str::from_utf8(s) {
        Ok(t) => t,
        Err(_) => return None,
    };
    match url::Url::parse(text) {
        Ok(u) => Some(u.as_str().as_bytes().to_vec()),
        Err(_) => None,
    }
}

/// Relies on `url::Url::join` (with `Url::parse` for the base): resolves
/// a possibly-relative reference against a base URL and reports the
/// result's serialization.
#[verifier::external_body]
pub fn url_join(base: &Vec<u8>, rel: &Vec<u8>) -> (r: Option<Vec<u8>>)
    ensures
        match r {
            Some(u) => join_of(base@, rel@) == Some(u@),
            None => join_of(base@, rel@) is None,
        },
{
    let (base_text, rel_text) = match (core::str::from_utf8(base), core::str::from_utf8(rel)) {
        (Ok(b), Ok(r)) => (b, r),
        _ => return None,
    };
    match url::Url::parse(base_text).and_then(|u| u.join(rel_text)) {
        Ok(u) => Some(u.as_str().as_bytes().to_vec()),
        Err(_) => None,
    }
}

/// Relies on `url::Url::domain` (with `Url::parse`): reports the URL's
/// host when that host is a domain name.
#[verifier::external_body]
pub fn url_domain(s: &Vec<u8>) -> (r: Option<Vec<u8>>)
    ensures
        match r {
            Some(d) => domain_of(s@) == Some(d@),
            None => domain_of(s@) is None,
        },
{
    let text = match core::str::from_utf8(s) {
        Ok(t) => t,
        Err(_) => return None,
    };
    let u = match url::Url::parse(text) {
        Ok(u) => u,
        Err(_) => return None,
    };
    u.domain().map(|d| d.as_bytes().to_vec())
}

/// Relies on `url::Url::path` (with `Url::parse`): reports the URL's
/// percent-encoded path.
#[verifier::external_body]
pub fn url_path(s: &Vec<u8>) -> (r: Option<Vec<u8>>)
    ensures
        match r {
            Some(p) => path_of(s@) == Some(p@),
            None => path_of(s@) is None,
        },
{
    let text = match core::str::from_utf8(s) {
        Ok(t) => t,
        Err(_) => return None,
    };
    match url::Url::parse(text) {
        Ok(u) => Some(u.path().as_bytes().to_vec()),
        Err(_) => None,
    }
}

/// Relies on `url::Url::set_path` (with `Url::parse`): reports the
/// serialization of the URL after its path is replaced by `p`.
#[verifier::external_body]
pub fn url_with_path(s: &Vec<u8>, p: &Vec<u8>) -> (r: Option<Vec<u8>>)
    ensures
        match r {
            Some(u) => with_path_of(s@, p@) == Some(u@),
            None => with_path_of(s@, p@) is None,
        },
{
    let text = match core::str::from_utf8(s) {
        Ok(t) => t,
        Err(_) => return None,
    };
    let path_text = match core::str::from_utf8(p) {
        Ok(t) => t,
        Err(_) => return None,
    };
    match url::Url::parse(text) {
        Ok(mut u) => {
            u.set_path(path_text);
            Some(u.as_str().as_bytes().to_vec())
        },
        Err(_) => None,
    }
}

} // verus!
