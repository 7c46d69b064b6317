//! A plain model of the parsed README document: the ancestor structure of
//! every image node, and the attributes that extraction reads. The HTML
//! parser builds this model outside the library; parents come before
//! their children, so each parent link points at a smaller index.

use vstd::prelude::*;

verus! {

/// One element on the ancestor chain of an image node.
pub struct DomElement {
    /// Index of the enclosing element, if any; always smaller than the
    /// element's own index.
    pub parent: Option<usize>,
    /// The element is an `<a>` anchor.
    pub is_anchor: bool,
    /// The element declares `align="center"`.
    pub align_center: bool,
    /// The element's `href` attribute, if any.
    pub href: Option<Vec<u8>>,
}

/// One `<img>` node of the document, together with the answers of the two
/// collaborators that are consulted per node: the primary-heading
/// boundary's membership test, and the badge predicate's verdict on the
/// node's resolved source.
pub struct ImgNode {
    /// Index of the enclosing element, if any.
    pub parent: Option<usize>,
    /// The `src` attribute.
    pub src: Vec<u8>,
    /// The `data-canonical-src` attribute, present when a hosting platform
    /// rewrote the original URL into its own content-delivery URL.
    pub canonical_src: Option<Vec<u8>>,
    /// The `alt` attribute, if any.
    pub alt: Option<Vec<u8>>,
    /// A `width` or `height` attribute is present.
    pub has_size_attrs: bool,
    /// The primary-heading boundary reports the node inside the README's
    /// primary heading region.
    pub in_primary_heading: bool,
    /// The badge predicate classifies the node's resolved source as a
    /// status badge.
    pub badge: bool,
}

/// The parsed document, reduced to what extraction reads: the element
/// table and the image nodes in document order.
pub struct ReadmeDoc {
    pub elements: Vec<DomElement>,
    pub images: Vec<ImgNode>,
}

/// Parent links only ever point backwards in the element table.
pub open spec fn wf_elements(elems: Seq<DomElement>) -> bool {
    forall|i: int|
        0 <= i < elems.len() ==> match #[trigger] elems[i].parent {
            Some(p) => p < i,
            None => true,
        }
}

impl ReadmeDoc {
    /// Every parent link lands in the element table, and the table itself
    /// is well formed.
    pub open spec fn wf(self) -> bool {
        &&& wf_elements(self.elements@)
        &&& forall|i: int|
            0 <= i < self.images@.len() ==> match #[trigger] self.images@[i].parent {
                Some(p) => p < self.elements@.len(),
                None => true,
            }
    }
}

/// The rank of a chain position, for termination of ancestor walks.
pub open spec fn chain_rank(node: Option<int>) -> int {
    match node {
        Some(i) => i + 1,
        None => 0,
    }
}

/// The parent of element `i`, as a chain position.
pub open spec fn parent_of(elems: Seq<DomElement>, i: int) -> Option<int> {
    match elems[i].parent {
        Some(p) => Some(p as int),
        None => None,
    }
}

/// Some element on the chain starting at `node` declares centered
/// alignment.
pub open spec fn chain_align(elems: Seq<DomElement>, node: Option<int>) -> bool
    decreases chain_rank(node),
{
    match node {
        None => false,
        Some(i) => {
            if 0 <= i < elems.len() {
                elems[i].align_center || (match elems[i].parent {
                    Some(p) => p < i && chain_align(elems, Some(p as int)),
                    None => false,
                })
            } else {
                false
            }
        },
    }
}

/// The index of the nearest anchor on the chain starting at `node`.
pub open spec fn chain_anchor(elems: Seq<DomElement>, node: Option<int>) -> Option<int>
    decreases chain_rank(node),
{
    match node {
        None => None,
        Some(i) => {
            if 0 <= i < elems.len() {
                if elems[i].is_anchor {
                    Some(i)
                } else {
                    match elems[i].parent {
                        Some(p) => if p < i {
                            chain_anchor(elems, Some(p as int))
                        } else {
                            None
                        },
                        None => None,
                    }
                }
            } else {
                None
            }
        },
    }
}

/// A found anchor index lies in the element table and names an anchor.
pub proof fn lemma_chain_anchor_in_range(elems: Seq<DomElement>, node: Option<int>)
    ensures
        match chain_anchor(elems, node) {
            Some(a) => 0 <= a < elems.len() && elems[a].is_anchor,
            None => true,
        },
    decreases chain_rank(node),
{
    match node {
        None => {},
        Some(i) => {
            if 0 <= i < elems.len() && !elems[i].is_anchor {
                match elems[i].parent {
                    Some(p) => {
                        if p < i {
                            lemma_chain_anchor_in_range(elems, Some(p as int));
                        }
                    },
                    None => {},
                }
            }
        },
    }
}

/// Walks the ancestor chain of one image node: reports whether any
/// ancestor declares centered alignment, and the index of the nearest
/// anchor ancestor.
pub fn walk_ancestors(elems: &Vec<DomElement>, start: Option<usize>) -> (r: (bool, Option<usize>))
    requires
        wf_elements(elems@),
        match start {
            Some(s) => s < elems@.len(),
            None => true,
        },
    ensures
        r.0 == chain_align(
            elems@,
            match start {
                Some(s) => Some(s as int),
                None => None,
            },
        ),
        (match r.1 {
            Some(a) => Some(a as int),
            None => None,
        }) == chain_anchor(
            elems@,
            match start {
                Some(s) => Some(s as int),
                None => None,
            },
        ),
{
    let ghost start_node: Option<int> = match start {
        Some(s) => Some(s as int),
        None => None,
    };
    let mut cur: Option<usize> = start;
    let mut align: bool = false;
    let mut anchor: Option<usize> = None;
    loop
        invariant
            wf_elements(elems@),
            match cur {
                Some(c) => c < elems@.len(),
                None => true,
            },
            match anchor {
                Some(a) => a < elems@.len(),
                None => true,
            },
            chain_align(elems@, start_node) == (align || chain_align(
                elems@,
                match cur {
                    Some(c) => Some(c as int),
                    None => None,
                },
            )),
            chain_anchor(elems@, start_node) == (match anchor {
                Some(a) => Some(a as int),
                None => chain_anchor(
                    elems@,
                    match cur {
                        Some(c) => Some(c as int),
                        None => None,
                    },
                ),
            }),
        ensures
            cur is None,
        decreases chain_rank(
            match cur {
                Some(c) => Some(c as int),
                None => None,
            },
        ),
    {
        match cur {
            None => {
                break ;
            },
            Some(c) => {
                if elems[c].align_center {
                    align = true;
                }
                if anchor.is_none() && elems[c].is_anchor {
                    anchor = Some(c);
                }
                cur = elems[c].parent;
            },
        }
    }
    (align, anchor)
}

} // verus!
