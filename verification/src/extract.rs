//! Per-image extraction: deriving one candidate record from an image node,
//! its ancestor chain, and the repository model.

use crate::bytes_of;
use crate::dom::{chain_align, chain_anchor, lemma_chain_anchor_in_range, walk_ancestors, ImgNode};
use crate::image::{ImageView, KeywordMention, ProjectLink, ReadmeImage};
use crate::lit_bytes;
use crate::readme::Readme;
use crate::text::{bytes_eq, contains_sub, is_sub, lower, push_all, replace_first, replace_first_bytes, to_lower, SLASH};
use crate::urls::{path_of, url_path, url_with_path, with_path_of};
use vstd::prelude::*;

verus! {

/// The source attribute that resolution starts from: the platform's
/// canonical rewrite when one exists, else the plain `src`.
pub open spec fn spec_chosen_source(img: ImgNode) -> Seq<u8> {
    match img.canonical_src {
        Some(c) => c@,
        None => img.src@,
    }
}

/// The resolved content-delivery URL: the `src` attribute qualified, but
/// only when a canonical rewrite marks `src` as a delivery URL.
pub open spec fn spec_cdn_src(r: Readme, img: ImgNode) -> Option<Seq<u8>> {
    match img.canonical_src {
        Some(_) => r.spec_qualify(img.src@),
        None => None,
    }
}

/// The image node's ancestor chain entry point.
pub open spec fn img_chain(img: ImgNode) -> Option<int> {
    match img.parent {
        Some(p) => Some(p as int),
        None => None,
    }
}

/// GitHub's auto-generated companion link for a raw image: the image's own
/// URL with the first `/raw/` of its path turned into `/blob/`.
pub open spec fn spec_companion_blob(src: Seq<u8>) -> Option<Seq<u8>> {
    match path_of(src) {
        Some(p) => with_path_of(src, replace_first(p, lit_bytes("/raw/"@), lit_bytes("/blob/"@))),
        None => None,
    }
}

/// Where the image's nearest enclosing anchor points, unless that anchor
/// is only the companion link of the image itself.
pub open spec fn spec_links_to(r: Readme, img: ImgNode, src: Seq<u8>) -> Option<ProjectLink> {
    match chain_anchor(r.doc.elements@, img_chain(img)) {
        None => None,
        Some(a) => match r.doc.elements@[a].href {
            None => None,
            Some(h) => match r.spec_qualify(h@) {
                None => None,
                Some(hq) => if Some(hq) == spec_companion_blob(src) {
                    None
                } else {
                    r.spec_link_to_project(hq)
                },
            },
        },
    }
}

/// The keywords found in the image's lower-cased path (repo-relative when
/// repo-sourced, else the raw URL path) or alt text.
pub open spec fn spec_mentions(
    r: Readme,
    img: ImgNode,
    src: Seq<u8>,
    bp: Option<(Seq<u8>, Seq<u8>)>,
) -> Seq<KeywordMention> {
    let path_used = match bp {
        Some(t) => lower(t.1),
        None => lower(
            match path_of(src) {
                Some(p) => p,
                None => Seq::empty(),
            },
        ),
    };
    let alt = lower(
        match img.alt {
            Some(a) => a@,
            None => Seq::empty(),
        },
    );
    (if is_sub(path_used, lit_bytes("logo"@)) || is_sub(alt, lit_bytes("logo"@)) {
        seq![KeywordMention::Logo]
    } else {
        Seq::empty()
    }) + (if is_sub(path_used, lit_bytes("banner"@)) || is_sub(alt, lit_bytes("banner"@)) {
        seq![KeywordMention::Banner]
    } else {
        Seq::empty()
    }) + (if is_sub(path_used, r.repo@) || is_sub(alt, r.repo@) {
        seq![KeywordMention::RepoName]
    } else {
        Seq::empty()
    })
}

/// The raw-content URL that a repo-sourced image is rewritten to.
pub open spec fn spec_raw_src(r: Readme, branch: Seq<u8>, path: Seq<u8>) -> Seq<u8> {
    lit_bytes("https://raw.githubusercontent.com/"@) + r.owner@ + seq![SLASH] + r.repo@
        + seq![SLASH] + branch + seq![SLASH] + path
}

/// The single authorization header carrying the stored bearer token.
pub open spec fn spec_auth_headers(r: Readme) -> Seq<(Seq<u8>, Seq<u8>)> {
    seq![
        (
            lit_bytes("Authorization"@),
            lit_bytes("Bearer "@) + (match r.token {
                Some(t) => t@,
                None => Seq::empty(),
            }),
        ),
    ]
}

/// The candidate record derived from one image node, none when the node's
/// source does not resolve or the badge predicate excludes it.
pub open spec fn spec_extract(r: Readme, img: ImgNode) -> Option<ImageView> {
    match r.spec_qualify(spec_chosen_source(img)) {
        None => None,
        Some(src0) => if img.badge {
            None
        } else {
            let cdn = spec_cdn_src(r, img);
            let bp = r.spec_branch_and_path(src0);
            let chosen = match cdn {
                Some(c) => (c, Seq::<(Seq<u8>, Seq<u8>)>::empty()),
                None => match bp {
                    Some(t) => (
                        spec_raw_src(r, t.0, t.1),
                        if r.private {
                            spec_auth_headers(r)
                        } else {
                            Seq::empty()
                        },
                    ),
                    None => (src0, Seq::empty()),
                },
            };
            Some(
                ImageView {
                    src: chosen.0,
                    headers: chosen.1,
                    in_primary_heading: img.in_primary_heading,
                    edge_of_primary_heading: false,
                    keyword_mentions: spec_mentions(r, img, src0, bp),
                    sourced_from_repo: bp is Some,
                    links_to: spec_links_to(r, img, src0),
                    is_align_center: chain_align(r.doc.elements@, img_chain(img)),
                    has_size_attrs: img.has_size_attrs,
                },
            )
        },
    }
}

/// A badge-classified image yields no candidate, whatever its other
/// attributes: nothing of it can reach the ranked output.
pub proof fn lemma_badge_never_candidate(r: Readme, img: ImgNode)
    requires
        img.badge,
    ensures
        spec_extract(r, img) is None,
{
}

/// The companion link of a raw image URL, executable form.
fn companion_blob(src: &Vec<u8>) -> (r: Option<Vec<u8>>)
    ensures
        match r {
            Some(u) => spec_companion_blob(src@) == Some(u@),
            None => spec_companion_blob(src@) is None,
        },
{
    let p = match url_path(src) {
        Some(p) => p,
        None => {
            return None;
        },
    };
    proof {
        reveal_strlit("/raw/");
        reveal_strlit("/blob/");
    }
    let raw = bytes_of("/raw/");
    let blob = bytes_of("/blob/");
    let newp = replace_first_bytes(&p, &raw, &blob);
    url_with_path(src, &newp)
}

impl ReadmeImage {
    /// Derives the candidate record for one image node of the document.
    /// Returns nothing exactly when the node's source does not resolve
    /// against the base URL, or the badge predicate excludes it.
    pub fn get(readme: &Readme, img: &ImgNode) -> (r: Option<ReadmeImage>)
        requires
            readme.wf(),
            match img.parent {
                Some(p) => p < readme.doc.elements@.len(),
                None => true,
            },
        ensures
            match r {
                Some(im) => spec_extract(*readme, *img) == Some(im@),
                None => spec_extract(*readme, *img) is None,
            },
    {
        let qualified = match &img.canonical_src {
            Some(c) => readme.qualify_url(c),
            None => readme.qualify_url(&img.src),
        };
        let src0 = match qualified {
            Ok(u) => u,
            Err(_) => {
                return None;
            },
        };
        if img.badge {
            return None;
        }
        let cdn: Option<Vec<u8>> = match &img.canonical_src {
            Some(_) => match readme.qualify_url(&img.src) {
                Ok(u) => Some(u),
                Err(_) => None,
            },
            None => None,
        };
        let walked = walk_ancestors(&readme.doc.elements, img.parent);
        let is_align_center = walked.0;
        proof {
            lemma_chain_anchor_in_range(readme.doc.elements@, img_chain(*img));
        }
        let links_to: Option<ProjectLink> = match walked.1 {
            None => None,
            Some(a) => match &readme.doc.elements[a].href {
                None => None,
                Some(h) => match readme.qualify_url(h) {
                    Err(_) => None,
                    Ok(hq) => {
                        let companion = companion_blob(&src0);
                        let is_companion = match &companion {
                            Some(cb) => bytes_eq(&hq, cb),
                            None => false,
                        };
                        if is_companion {
                            None
                        } else {
                            readme.is_link_to_project(&hq)
                        }
                    },
                },
            },
        };
        let bp = readme.get_branch_and_path(&src0);
        let path_used: Vec<u8> = match &bp {
            Some(t) => to_lower(&t.1),
            None => match url_path(&src0) {
                Some(p) => to_lower(&p),
                None => {
                    let empty: Vec<u8> = Vec::new();
                    proof {
                        assert(empty@ =~= lower(Seq::empty()));
                    }
                    empty
                },
            },
        };
        let alt_used: Vec<u8> = match &img.alt {
            Some(a) => to_lower(a),
            None => {
                let empty: Vec<u8> = Vec::new();
                proof {
                    assert(empty@ =~= lower(Seq::empty()));
                }
                empty
            },
        };
        proof {
            reveal_strlit("logo");
            reveal_strlit("banner");
        }
        let logo_pat = bytes_of("logo");
        let banner_pat = bytes_of("banner");
        let mut mentions: Vec<KeywordMention> = Vec::new();
        if contains_sub(&path_used, &logo_pat) || contains_sub(&alt_used, &logo_pat) {
            mentions.push(KeywordMention::Logo);
        }
        if contains_sub(&path_used, &banner_pat) || contains_sub(&alt_used, &banner_pat) {
            mentions.push(KeywordMention::Banner);
        }
        if contains_sub(&path_used, &readme.repo) || contains_sub(&alt_used, &readme.repo) {
            mentions.push(KeywordMention::RepoName);
        }
        let ghost gbp = readme.spec_branch_and_path(src0@);
        proof {
            assert(mentions@ =~= spec_mentions(*readme, *img, src0@, gbp));
        }
        let sourced_from_repo = bp.is_some();
        let (src, headers): (Vec<u8>, Vec<(Vec<u8>, Vec<u8>)>) = match cdn {
            Some(c) => (c, Vec::new()),
            None => match bp {
                Some(t) => {
                    let mut hs: Vec<(Vec<u8>, Vec<u8>)> = Vec::new();
                    if readme.private {
                        let token = match &readme.token {
                            Some(tk) => tk,
                            None => vstd::pervasive::unreached(),
                        };
                        proof {
                            reveal_strlit("Authorization");
                            reveal_strlit("Bearer ");
                        }
                        let name = bytes_of("Authorization");
                        let mut value = bytes_of("Bearer ");
                        push_all(&mut value, token);
                        hs.push((name, value));
                    }
                    proof {
                        reveal_strlit("https://raw.githubusercontent.com/");
                    }
                    let mut u = bytes_of("https://raw.githubusercontent.com/");
                    push_all(&mut u, &readme.owner);
                    u.push(SLASH);
                    push_all(&mut u, &readme.repo);
                    u.push(SLASH);
                    push_all(&mut u, &t.0);
                    u.push(SLASH);
                    push_all(&mut u, &t.1);
                    proof {
                        assert(u@ =~= spec_raw_src(*readme, t.0@, t.1@));
                    }
                    (u, hs)
                },
                None => (src0, Vec::new()),
            },
        };
        let result = ReadmeImage {
            src,
            headers,
            in_primary_heading: img.in_primary_heading,
            edge_of_primary_heading: false,
            keyword_mentions: mentions,
            sourced_from_repo,
            links_to,
            is_align_center,
            has_size_attrs: img.has_size_attrs,
        };
        proof {
            let expected = spec_extract(*readme, *img)->Some_0;
            assert(result@.headers =~= expected.headers);
            assert(result@ == expected);
        }
        Some(result)
    }
}

/// The candidates of the first `n` image nodes, in document order.
pub open spec fn spec_candidates_prefix(r: Readme, n: int) -> Seq<ImageView>
    decreases n,
{
    if n <= 0 {
        Seq::empty()
    } else {
        let pre = spec_candidates_prefix(r, n - 1);
        match spec_extract(r, r.doc.images@[n - 1]) {
            Some(iv) => pre.push(iv),
            None => pre,
        }
    }
}

/// The candidate list of the whole document, in document order, before
/// the adjacency pass and the sort.
pub open spec fn spec_candidates(r: Readme) -> Seq<ImageView> {
    spec_candidates_prefix(r, r.doc.images@.len() as int)
}

} // verus!
