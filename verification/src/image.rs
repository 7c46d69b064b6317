//! The candidate record derived for each qualifying image, and the weight
//! heuristic that orders candidates.

use vstd::prelude::*;

verus! {

/// Where an image's enclosing anchor points: at the project's website, or
/// back at its own repository.
#[derive(Debug, PartialEq, Eq, Structural, Clone, Copy)]
pub enum ProjectLink {
    Website,
    Repo,
}

/// A keyword found in an image's path or alt text.
#[derive(Debug, PartialEq, Eq, Structural, Clone, Copy, Hash)]
pub enum KeywordMention {
    Logo,
    Banner,
    RepoName,
}

/// One candidate image, with the features that the weight heuristic reads.
pub struct ReadmeImage {
    /// Resolved absolute URL of the image, rewritten to a raw-content URL
    /// when the image is repo-sourced and no content-delivery rewrite of
    /// it exists.
    pub src: Vec<u8>,
    /// Request headers to attach when fetching `src`; non-empty only for
    /// private, repo-sourced images, carrying a bearer token.
    pub headers: Vec<(Vec<u8>, Vec<u8>)>,
    /// The image sits in the README's primary heading region.
    pub in_primary_heading: bool,
    /// The image ends a contiguous run of primary-heading images (or opens
    /// the candidate list from inside the heading); set by the adjacency
    /// pass once all candidates are known.
    pub edge_of_primary_heading: bool,
    /// Keywords found in the image's path or alt text, without duplicates.
    pub keyword_mentions: Vec<KeywordMention>,
    /// The image's URL resolves to a file inside this repository.
    pub sourced_from_repo: bool,
    /// Where the image's nearest enclosing anchor points, when it is an
    /// intentional project link.
    pub links_to: Option<ProjectLink>,
    /// Some ancestor element declares centered alignment.
    pub is_align_center: bool,
    /// The node declares an explicit width or height.
    pub has_size_attrs: bool,
}

/// The mathematical value of a candidate record.
pub ghost struct ImageView {
    pub src: Seq<u8>,
    pub headers: Seq<(Seq<u8>, Seq<u8>)>,
    pub in_primary_heading: bool,
    pub edge_of_primary_heading: bool,
    pub keyword_mentions: Seq<KeywordMention>,
    pub sourced_from_repo: bool,
    pub links_to: Option<ProjectLink>,
    pub is_align_center: bool,
    pub has_size_attrs: bool,
}

impl View for ReadmeImage {
    type V = ImageView;

    open spec fn view(&self) -> ImageView {
        ImageView {
            src: self.src@,
            headers: Seq::new(self.headers@.len(), |i: int| (self.headers@[i].0@, self.headers@[i].1@)),
            in_primary_heading: self.in_primary_heading,
            edge_of_primary_heading: self.edge_of_primary_heading,
            keyword_mentions: self.keyword_mentions@,
            sourced_from_repo: self.sourced_from_repo,
            links_to: self.links_to,
            is_align_center: self.is_align_center,
            has_size_attrs: self.has_size_attrs,
        }
    }
}

/// The weight of a candidate: a pure function of its feature fields,
/// higher is better. The three heading-conditional bonuses (centered,
/// sized, repo-sourced) apply only inside the primary heading.
pub open spec fn spec_weight(img: ImageView) -> int {
    (if img.in_primary_heading {
        2 + (if img.is_align_center {
            2int
        } else {
            0int
        }) + (if img.has_size_attrs {
            2int
        } else {
            0int
        }) + (if img.sourced_from_repo {
            4int
        } else {
            0int
        })
    } else {
        0int
    }) + (if img.edge_of_primary_heading {
        4int
    } else {
        0int
    }) + (match img.links_to {
        Some(ProjectLink::Website) => 8int,
        Some(ProjectLink::Repo) => 4int,
        None => 0int,
    }) + (if img.keyword_mentions.contains(KeywordMention::Logo) {
        16int
    } else {
        0int
    }) + (if img.keyword_mentions.contains(KeywordMention::Banner) {
        8int
    } else {
        0int
    }) + (if img.keyword_mentions.contains(KeywordMention::RepoName) {
        4int
    } else {
        0int
    })
}

/// Whether `m` is among the mentions `v`.
pub fn has_mention(v: &Vec<KeywordMention>, m: KeywordMention) -> (r: bool)
    ensures
        r == v@.contains(m),
{
    let mut i: usize = 0;
    while i < v.len()
        invariant
            i <= v@.len(),
            forall|k: int| 0 <= k < i ==> v@[k] != m,
        decreases v@.len() - i,
    {
        if v[i] == m {
            return true;
        }
        i = i + 1;
    }
    false
}

impl ReadmeImage {
    /// Computes the candidate's weight.
    pub fn weight(&self) -> (r: u8)
        ensures
            r as int == spec_weight(self@),
    {
        let mut w: u8 = 0;
        if self.in_primary_heading {
            w = w + 2;
            if self.is_align_center {
                w = w + 2;
            }
            if self.has_size_attrs {
                w = w + 2;
            }
            if self.sourced_from_repo {
                w = w + 4;
            }
        }
        if self.edge_of_primary_heading {
            w = w + 4;
        }
        match self.links_to {
            Some(ProjectLink::Website) => {
                w = w + 8;
            },
            Some(ProjectLink::Repo) => {
                w = w + 4;
            },
            None => {},
        }
        if has_mention(&self.keyword_mentions, KeywordMention::Logo) {
            w = w + 16;
        }
        if has_mention(&self.keyword_mentions, KeywordMention::Banner) {
            w = w + 8;
        }
        if has_mention(&self.keyword_mentions, KeywordMention::RepoName) {
            w = w + 4;
        }
        w
    }
}

/// The weight reads nothing but the seven feature fields: two candidates
/// that agree on them weigh the same, whatever their sources and headers,
/// and however the rest of the candidate list was processed.
pub proof fn lemma_weight_pure(a: ImageView, b: ImageView)
    requires
        a.in_primary_heading == b.in_primary_heading,
        a.edge_of_primary_heading == b.edge_of_primary_heading,
        a.keyword_mentions == b.keyword_mentions,
        a.sourced_from_repo == b.sourced_from_repo,
        a.links_to == b.links_to,
        a.is_align_center == b.is_align_center,
        a.has_size_attrs == b.has_size_attrs,
    ensures
        spec_weight(a) == spec_weight(b),
{
}

} // verus!
