//! The README model: repository identity, privacy, homepage, the base URL
//! that relative references resolve against, and the recognition of URLs
//! that point into the repository or at the project's site.

use crate::bytes_of;
use crate::dom::ReadmeDoc;
use crate::lit_bytes;
use crate::text::{
    bytes_eq, copy_range, find_byte, find_from, lemma_find_from, lower, push_all, to_lower, DOT,
    SLASH,
};
use crate::urls::{domain_of, join_of, path_of, url_domain, url_join, url_path};
use vstd::prelude::*;

verus! {

/// A lower-cased `(owner, repo)` pair.
pub struct RepoRef {
    pub owner: Vec<u8>,
    pub repo: Vec<u8>,
}

/// A relative reference did not resolve against the repository's base URL.
/// The affected image is dropped from candidacy; nothing else fails.
#[derive(Debug, PartialEq, Eq, Structural, Clone, Copy)]
pub enum ReadmeError {
    UrlResolutionFailed,
}

/// The README of one repository: identity, visibility, homepage, the
/// parsed document, and the configuration that the extraction rules need.
/// The identity resolver and the token store are external collaborators;
/// their answers enter here as plain values: `aliases` holds the
/// lower-cased pairs the resolver reports as the same repository (after
/// renames and redirects), and `token` holds the stored bearer token.
pub struct Readme {
    /// Lower-cased repository owner.
    pub owner: Vec<u8>,
    /// Lower-cased repository name.
    pub repo: Vec<u8>,
    /// Serialized homepage URL, if the repository declares one.
    pub homepage: Option<Vec<u8>>,
    /// The repository is private.
    pub private: bool,
    /// `https://github.com/{owner}/{repo}/raw/{default_branch}/`, the base
    /// that every relative reference in the document resolves against.
    pub link_base: Vec<u8>,
    /// The parsed document.
    pub doc: ReadmeDoc,
    /// The bearer token for private raw-content requests, if one is stored.
    pub token: Option<Vec<u8>>,
    /// Pairs that the repository-identity resolver reports as this same
    /// repository, besides the identity itself.
    pub aliases: Vec<RepoRef>,
}

/// The base URL that relative references resolve against.
pub open spec fn spec_link_base(owner: Seq<u8>, repo: Seq<u8>, branch: Seq<u8>) -> Seq<u8> {
    lit_bytes("https://github.com/"@) + owner + seq![SLASH] + repo + lit_bytes("/raw/"@) + branch
        + seq![SLASH]
}

/// The captures of the repository path grammar
/// `/{owner}/{repo}/{branch}/{rest}` — with one extra (uncaptured) content
/// kind segment between repo and branch when `skip_kind` is set, as on
/// `github.com` paths: `/{owner}/{repo}/{kind}/{branch}/{rest}`. Every
/// segment is non-empty; `rest` may contain further slashes.
pub open spec fn parse_repo_path(p: Seq<u8>, skip_kind: bool) -> Option<
    (Seq<u8>, Seq<u8>, Seq<u8>, Seq<u8>),
> {
    if p.len() < 1 || p[0] != SLASH {
        None
    } else {
        match find_from(p, 1, SLASH) {
            None => None,
            Some(e1) => if e1 <= 1 {
                None
            } else {
                match find_from(p, e1 + 1, SLASH) {
                    None => None,
                    Some(e2) => if e2 <= e1 + 1 {
                        None
                    } else if skip_kind {
                        match find_from(p, e2 + 1, SLASH) {
                            None => None,
                            Some(e3) => if e3 <= e2 + 1 {
                                None
                            } else {
                                match find_from(p, e3 + 1, SLASH) {
                                    None => None,
                                    Some(e4) => if e4 <= e3 + 1 || e4 + 1 >= p.len() {
                                        None
                                    } else {
                                        Some(
                                            (
                                                p.subrange(1, e1),
                                                p.subrange(e1 + 1, e2),
                                                p.subrange(e3 + 1, e4),
                                                p.subrange(e4 + 1, p.len() as int),
                                            ),
                                        )
                                    },
                                }
                            },
                        }
                    } else {
                        match find_from(p, e2 + 1, SLASH) {
                            None => None,
                            Some(e3) => if e3 <= e2 + 1 || e3 + 1 >= p.len() {
                                None
                            } else {
                                Some(
                                    (
                                        p.subrange(1, e1),
                                        p.subrange(e1 + 1, e2),
                                        p.subrange(e2 + 1, e3),
                                        p.subrange(e3 + 1, p.len() as int),
                                    ),
                                )
                            },
                        }
                    },
                }
            },
        }
    }
}

/// Splits a repository path into its grammar captures, executable form.
fn split_repo_path(p: &Vec<u8>, skip_kind: bool) -> (r: Option<(Vec<u8>, Vec<u8>, Vec<u8>, Vec<u8>)>)
    ensures
        match r {
            Some(t) => parse_repo_path(p@, skip_kind) == Some((t.0@, t.1@, t.2@, t.3@)),
            None => parse_repo_path(p@, skip_kind) is None,
        },
{
    if p.len() < 1 || p[0] != SLASH {
        return None;
    }
    let e1 = match find_byte(p, 1, SLASH) {
        Some(e) => e,
        None => {
            return None;
        },
    };
    proof {
        lemma_find_from(p@, 1, SLASH);
    }
    if e1 <= 1 {
        return None;
    }
    let e2 = match find_byte(p, e1 + 1, SLASH) {
        Some(e) => e,
        None => {
            return None;
        },
    };
    proof {
        lemma_find_from(p@, e1 + 1, SLASH);
    }
    if e2 <= e1 + 1 {
        return None;
    }
    let owner = copy_range(p, 1, e1);
    let repo = copy_range(p, e1 + 1, e2);
    if skip_kind {
        let e3 = match find_byte(p, e2 + 1, SLASH) {
            Some(e) => e,
            None => {
                return None;
            },
        };
        proof {
            lemma_find_from(p@, e2 + 1, SLASH);
        }
        if e3 <= e2 + 1 {
            return None;
        }
        let e4 = match find_byte(p, e3 + 1, SLASH) {
            Some(e) => e,
            None => {
                return None;
            },
        };
        proof {
            lemma_find_from(p@, e3 + 1, SLASH);
        }
        if e4 <= e3 + 1 || e4 + 1 >= p.len() {
            return None;
        }
        let branch = copy_range(p, e3 + 1, e4);
        let rest = copy_range(p, e4 + 1, p.len());
        Some((owner, repo, branch, rest))
    } else {
        let e3 = match find_byte(p, e2 + 1, SLASH) {
            Some(e) => e,
            None => {
                return None;
            },
        };
        proof {
            lemma_find_from(p@, e2 + 1, SLASH);
        }
        if e3 <= e2 + 1 || e3 + 1 >= p.len() {
            return None;
        }
        let branch = copy_range(p, e2 + 1, e3);
        let rest = copy_range(p, e3 + 1, p.len());
        Some((owner, repo, branch, rest))
    }
}

/// The domain follows the GitHub Pages convention for `owner`:
/// `{owner}.github.io` or `{owner}.github.com`, the owner a single
/// non-empty label.
pub open spec fn spec_pages_domain(d: Seq<u8>, owner: Seq<u8>) -> bool {
    owner.len() > 0 && find_from(owner, 0, DOT) is None && (d == owner + lit_bytes(".github.io"@)
        || d == owner + lit_bytes(".github.com"@))
}

/// The URL's path is the pages root.
pub open spec fn spec_path_is_root(url: Seq<u8>) -> bool {
    match path_of(url) {
        Some(p) => p.len() == 0 || p == seq![SLASH],
        None => false,
    }
}

/// The first path segment of the URL, when the path has one.
pub open spec fn spec_first_segment(url: Seq<u8>) -> Option<Seq<u8>> {
    match path_of(url) {
        Some(p) => if p.len() >= 2 && p[0] == SLASH {
            match find_from(p, 1, SLASH) {
                Some(e) => if e > 1 {
                    Some(p.subrange(1, e))
                } else {
                    None
                },
                None => Some(p.subrange(1, p.len() as int)),
            }
        } else {
            None
        },
        None => None,
    }
}

impl Readme {
    /// The document is well formed and a private repository carries the
    /// token its raw-content requests will need.
    pub open spec fn wf(self) -> bool {
        &&& self.doc.wf()
        &&& self.private ==> self.token is Some
    }

    /// The lower-cased pair `(owner, repo)` denotes this repository: it is
    /// the identity itself, or one of the pairs the identity resolver
    /// reported as the same repository.
    pub open spec fn spec_same_repo(self, owner: Seq<u8>, repo: Seq<u8>) -> bool {
        (owner == self.owner@ && repo == self.repo@) || exists|i: int|
            0 <= i < self.aliases@.len() && (#[trigger] self.aliases@[i]).owner@ == owner
                && self.aliases@[i].repo@ == repo
    }

    /// `path` resolved against the base URL, with a leading `/` first
    /// rewritten to `./` so the reference stays inside the repository.
    pub open spec fn spec_qualify(self, path: Seq<u8>) -> Option<Seq<u8>> {
        join_of(
            self.link_base@,
            if path.len() > 0 && path[0] == SLASH {
                seq![DOT] + path
            } else {
                path
            },
        )
    }

    /// The branch and repository-relative path that `url` points at, when
    /// it names a file inside this repository.
    pub open spec fn spec_branch_and_path(self, url: Seq<u8>) -> Option<(Seq<u8>, Seq<u8>)> {
        match domain_of(url) {
            None => None,
            Some(d0) => {
                let d = lower(d0);
                if d == lit_bytes("raw.githubusercontent.com"@) || d == lit_bytes("raw.github.com"@)
                    || d == lit_bytes("github.com"@) {
                    match path_of(url) {
                        None => None,
                        Some(p) => match parse_repo_path(p, d == lit_bytes("github.com"@)) {
                            None => None,
                            Some(caps) => if self.spec_same_repo(lower(caps.0), lower(caps.1)) {
                                Some((caps.2, caps.3))
                            } else {
                                None
                            },
                        },
                    }
                } else {
                    None
                }
            },
        }
    }

    /// Classification of `url` as a project link. GitHub Pages and the
    /// declared homepage take priority over the generic repository-path
    /// check.
    pub open spec fn spec_link_to_project(self, url: Seq<u8>) -> Option<crate::image::ProjectLink> {
        match domain_of(url) {
            None => None,
            Some(d0) => {
                let d = lower(d0);
                if spec_pages_domain(d, self.owner@) && (spec_path_is_root(url) || match spec_first_segment(
                    url,
                ) {
                    Some(seg) => self.spec_same_repo(lower(self.owner@), lower(seg)),
                    None => false,
                }) {
                    Some(crate::image::ProjectLink::Website)
                } else if match self.homepage {
                    Some(h) => match domain_of(h@) {
                        Some(hd) => lower(hd) == d,
                        None => false,
                    },
                    None => false,
                } {
                    Some(crate::image::ProjectLink::Website)
                } else if self.spec_branch_and_path(url) is Some {
                    Some(crate::image::ProjectLink::Repo)
                } else {
                    None
                }
            },
        }
    }

    /// Builds the model. Identity is lower-cased for case-insensitive
    /// comparisons; the base URL keeps the given spelling, as the remote
    /// host receives it.
    pub fn new(
        owner: &Vec<u8>,
        repo: &Vec<u8>,
        doc: ReadmeDoc,
        private: bool,
        default_branch: &Vec<u8>,
        homepage: Option<Vec<u8>>,
        token: Option<Vec<u8>>,
        aliases: Vec<RepoRef>,
    ) -> (r: Readme)
        requires
            doc.wf(),
            private ==> token is Some,
        ensures
            r.owner@ == lower(owner@),
            r.repo@ == lower(repo@),
            r.private == private,
            r.homepage == homepage,
            r.link_base@ == spec_link_base(owner@, repo@, default_branch@),
            r.doc == doc,
            r.token == token,
            r.aliases == aliases,
            r.wf(),
    {
        proof {
            reveal_strlit("https://github.com/");
            reveal_strlit("/raw/");
        }
        let mut link_base = bytes_of("https://github.com/");
        push_all(&mut link_base, owner);
        link_base.push(SLASH);
        let sep = bytes_of("/raw/");
        push_all(&mut link_base, repo);
        push_all(&mut link_base, &sep);
        push_all(&mut link_base, default_branch);
        link_base.push(SLASH);
        proof {
            assert(link_base@ =~= spec_link_base(owner@, repo@, default_branch@));
        }
        Readme {
            owner: to_lower(owner),
            repo: to_lower(repo),
            homepage,
            private,
            link_base,
            doc,
            token,
            aliases,
        }
    }

    /// Whether `(owner, repo)`, lower-cased, denotes this repository.
    pub fn is_same_repo_as(&self, owner: &Vec<u8>, repo: &Vec<u8>) -> (r: bool)
        ensures
            r == self.spec_same_repo(lower(owner@), lower(repo@)),
    {
        let lo = to_lower(owner);
        let lr = to_lower(repo);
        if bytes_eq(&lo, &self.owner) && bytes_eq(&lr, &self.repo) {
            return true;
        }
        let mut i: usize = 0;
        while i < self.aliases.len()
            invariant
                i <= self.aliases@.len(),
                lo@ == lower(owner@),
                lr@ == lower(repo@),
                forall|k: int|
                    0 <= k < i ==> !((#[trigger] self.aliases@[k]).owner@ == lo@
                        && self.aliases@[k].repo@ == lr@),
            decreases self.aliases@.len() - i,
        {
            if bytes_eq(&self.aliases[i].owner, &lo) && bytes_eq(&self.aliases[i].repo, &lr) {
                return true;
            }
            i = i + 1;
        }
        false
    }

    /// Resolves a possibly-relative path against the repository's base
    /// URL. Returns the affected error exactly when resolution fails.
    pub fn qualify_url(&self, path: &Vec<u8>) -> (r: Result<Vec<u8>, ReadmeError>)
        ensures
            match r {
                Ok(u) => self.spec_qualify(path@) == Some(u@),
                Err(e) => self.spec_qualify(path@) is None && e == ReadmeError::UrlResolutionFailed,
            },
    {
        let joined = if path.len() > 0 && path[0] == SLASH {
            let mut adjusted: Vec<u8> = Vec::new();
            adjusted.push(DOT);
            push_all(&mut adjusted, path);
            proof {
                assert(adjusted@ =~= seq![DOT] + path@);
            }
            url_join(&self.link_base, &adjusted)
        } else {
            url_join(&self.link_base, path)
        };
        match joined {
            Some(u) => Ok(u),
            None => Err(ReadmeError::UrlResolutionFailed),
        }
    }

    /// The branch and repository-relative path that `url` names inside
    /// this repository, executable form.
    pub fn get_branch_and_path(&self, url: &Vec<u8>) -> (r: Option<(Vec<u8>, Vec<u8>)>)
        ensures
            match r {
                Some(t) => self.spec_branch_and_path(url@) == Some((t.0@, t.1@)),
                None => self.spec_branch_and_path(url@) is None,
            },
    {
        let d0 = match url_domain(url) {
            Some(d) => d,
            None => {
                return None;
            },
        };
        let d = to_lower(&d0);
        proof {
            reveal_strlit("raw.githubusercontent.com");
            reveal_strlit("raw.github.com");
            reveal_strlit("github.com");
        }
        let raw_host = bytes_of("raw.githubusercontent.com");
        let raw_host_short = bytes_of("raw.github.com");
        let gh_host = bytes_of("github.com");
        let is_gh = bytes_eq(&d, &gh_host);
        if !(bytes_eq(&d, &raw_host) || bytes_eq(&d, &raw_host_short) || is_gh) {
            return None;
        }
        let p = match url_path(url) {
            Some(p) => p,
            None => {
                return None;
            },
        };
        let caps = match split_repo_path(&p, is_gh) {
            Some(c) => c,
            None => {
                return None;
            },
        };
        if self.is_same_repo_as(&caps.0, &caps.1) {
            Some((caps.2, caps.3))
        } else {
            None
        }
    }

    /// Classifies `url` as a link to the project's website or its own
    /// repository, executable form.
    pub fn is_link_to_project(&self, url: &Vec<u8>) -> (r: Option<crate::image::ProjectLink>)
        ensures
            r == self.spec_link_to_project(url@),
    {
        let d0 = match url_domain(url) {
            Some(d) => d,
            None => {
                return None;
            },
        };
        let d = to_lower(&d0);
        if self.pages_site(url, &d) {
            return Some(crate::image::ProjectLink::Website);
        }
        let homepage_hit = match &self.homepage {
            Some(h) => match url_domain(h) {
                Some(hd) => {
                    let lhd = to_lower(&hd);
                    bytes_eq(&lhd, &d)
                },
                None => false,
            },
            None => false,
        };
        if homepage_hit {
            return Some(crate::image::ProjectLink::Website);
        }
        if self.get_branch_and_path(url).is_some() {
            return Some(crate::image::ProjectLink::Repo);
        }
        None
    }

    /// The GitHub Pages arm of link classification.
    fn pages_site(&self, url: &Vec<u8>, d: &Vec<u8>) -> (r: bool)
        ensures
            r == (spec_pages_domain(d@, self.owner@) && (spec_path_is_root(url@) || match spec_first_segment(
                url@,
            ) {
                Some(seg) => self.spec_same_repo(lower(self.owner@), lower(seg)),
                None => false,
            })),
    {
        if self.owner.len() == 0 {
            return false;
        }
        if find_byte(&self.owner, 0, DOT).is_some() {
            return false;
        }
        proof {
            reveal_strlit(".github.io");
            reveal_strlit(".github.com");
        }
        let io_suffix = bytes_of(".github.io");
        let com_suffix = bytes_of(".github.com");
        let mut cat_io = copy_range(&self.owner, 0, self.owner.len());
        push_all(&mut cat_io, &io_suffix);
        let mut cat_com = copy_range(&self.owner, 0, self.owner.len());
        push_all(&mut cat_com, &com_suffix);
        proof {
            assert(self.owner@.subrange(0, self.owner@.len() as int) =~= self.owner@);
        }
        if !(bytes_eq(d, &cat_io) || bytes_eq(d, &cat_com)) {
            return false;
        }
        let p = match url_path(url) {
            Some(p) => p,
            None => {
                return false;
            },
        };
        if p.len() == 0 || (p.len() == 1 && p[0] == SLASH) {
            proof {
                if p@.len() == 1 && p@[0] == SLASH {
                    assert(p@ =~= seq![SLASH]);
                }
            }
            return true;
        }
        proof {
            assert(p@ != seq![SLASH]);
        }
        let seg = if p.len() >= 2 && p[0] == SLASH {
            match find_byte(&p, 1, SLASH) {
                Some(e) => {
                    proof {
                        lemma_find_from(p@, 1, SLASH);
                    }
                    if e > 1 {
                        Some(copy_range(&p, 1, e))
                    } else {
                        None
                    }
                },
                None => Some(copy_range(&p, 1, p.len())),
            }
        } else {
            None
        };
        match seg {
            Some(s) => {
                let lowner = copy_range(&self.owner, 0, self.owner.len());
                proof {
                    assert(self.owner@.subrange(0, self.owner@.len() as int) =~= self.owner@);
                }
                self.is_same_repo_as(&lowner, &s)
            },
            None => false,
        }
    }
}

} // verus!
