//! Interpretation of the repository-metadata response. The remote API
//! answers either with a repository record or with a bare message payload;
//! the fetch itself happens outside the library, which receives the fields
//! found in the response and decides which answer it was.

use crate::urls::{parse_of, url_parse};
use vstd::prelude::*;

verus! {

/// The fields of a repository record, as the remote API reports them.
#[derive(Debug)]
pub struct RepoMetadata {
    pub owner: Vec<u8>,
    pub name: Vec<u8>,
    pub default_branch: Vec<u8>,
    pub private: bool,
    /// The declared homepage, already normalized to a parsed URL's
    /// serialization.
    pub homepage: Option<Vec<u8>>,
}

/// The fields that the metadata response carried, each one absent when the
/// response did not hold it.
pub struct ResponseFields {
    pub owner: Option<Vec<u8>>,
    pub name: Option<Vec<u8>>,
    pub default_branch: Option<Vec<u8>>,
    pub private: Option<bool>,
    pub homepage: Option<Vec<u8>>,
    pub message: Option<Vec<u8>>,
}

/// Why a metadata response yields no repository record: the remote API
/// answered with an error message, or with neither answer's fields.
#[derive(Debug)]
pub enum ApiError {
    Message(Vec<u8>),
    MalformedResponse,
}

/// The normalized homepage: an empty declaration is none; one that parses
/// is kept as its serialization; else it is retried with an `http://`
/// scheme prepended.
pub open spec fn spec_normalize_homepage(h: Option<Seq<u8>>) -> Option<Seq<u8>> {
    match h {
        None => None,
        Some(u) => if u.len() == 0 {
            None
        } else {
            match parse_of(u) {
                Some(s) => Some(s),
                None => parse_of(crate::lit_bytes("http://"@) + u),
            }
        },
    }
}

/// Normalizes a declared homepage, executable form.
pub fn normalize_homepage(h: Option<Vec<u8>>) -> (r: Option<Vec<u8>>)
    ensures
        match (r, spec_normalize_homepage(match h {
            Some(u) => Some(u@),
            None => None,
        })) {
            (Some(a), Some(b)) => a@ == b,
            (None, None) => true,
            _ => false,
        },
{
    let u = match h {
        Some(u) => u,
        None => {
            return None;
        },
    };
    if u.len() == 0 {
        return None;
    }
    match url_parse(&u) {
        Some(s) => Some(s),
        None => {
            proof {
                reveal_strlit("http://");
            }
            let mut with_scheme = crate::bytes_of("http://");
            crate::text::push_all(&mut with_scheme, &u);
            url_parse(&with_scheme)
        },
    }
}

/// Whether the response carried every field of a repository record.
pub open spec fn spec_is_repo_response(f: ResponseFields) -> bool {
    f.owner is Some && f.name is Some && f.default_branch is Some && f.private is Some
}

/// Decides the untagged metadata response: a repository record when its
/// required fields are present (with the homepage normalized), else the
/// remote error message when one is present, else a malformed response.
pub fn classify_response(f: ResponseFields) -> (r: Result<RepoMetadata, ApiError>)
    ensures
        r is Ok <==> spec_is_repo_response(f),
        match r {
            Ok(m) => {
                &&& Some(m.owner) == f.owner
                &&& Some(m.name) == f.name
                &&& Some(m.default_branch) == f.default_branch
                &&& Some(m.private) == f.private
                &&& match (m.homepage, spec_normalize_homepage(match f.homepage {
                    Some(u) => Some(u@),
                    None => None,
                })) {
                    (Some(a), Some(b)) => a@ == b,
                    (None, None) => true,
                    _ => false,
                }
            },
            Err(ApiError::Message(msg)) => f.message == Some(msg) && !spec_is_repo_response(f),
            Err(ApiError::MalformedResponse) => f.message is None && !spec_is_repo_response(f),
        },
{
    match (f.owner, f.name, f.default_branch, f.private) {
        (Some(owner), Some(name), Some(default_branch), Some(private)) => Ok(
            RepoMetadata {
                owner,
                name,
                default_branch,
                private,
                homepage: normalize_homepage(f.homepage),
            },
        ),
        _ => match f.message {
            Some(msg) => Err(ApiError::Message(msg)),
            None => Err(ApiError::MalformedResponse),
        },
    }
}

} // verus!
