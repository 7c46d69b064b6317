//! The ranking engine: the adjacency pass that flags the edge of the
//! primary-heading run, and the stable descending-weight ordering of the
//! candidates.

use crate::extract::{spec_candidates, spec_candidates_prefix};
use crate::image::{spec_weight, ImageView, ReadmeImage};
use crate::readme::Readme;
use vstd::prelude::*;

verus! {

/// The mathematical values of a candidate vector.
pub open spec fn views_of(s: Seq<ReadmeImage>) -> Seq<ImageView> {
    Seq::new(s.len(), |i: int| s[i]@)
}

/// The adjacency rule: candidate `i` is the edge of the primary heading
/// iff it is in the heading and is the first candidate overall, the last
/// candidate overall, or followed by one outside the heading.
pub open spec fn spec_edge_rule(s: Seq<ImageView>, i: int) -> bool {
    s[i].in_primary_heading && (i == 0 || i + 1 == s.len() || !s[i + 1].in_primary_heading)
}

/// `iv` with its edge flag set to `b`.
pub open spec fn spec_set_edge(iv: ImageView, b: bool) -> ImageView {
    ImageView { edge_of_primary_heading: b, ..iv }
}

/// The candidate list after the adjacency pass.
pub open spec fn spec_mark_edges(s: Seq<ImageView>) -> Seq<ImageView> {
    Seq::new(s.len(), |i: int| spec_set_edge(s[i], spec_edge_rule(s, i)))
}

/// A candidate outside the primary heading never carries the edge flag.
pub proof fn lemma_edge_only_in_heading(s: Seq<ImageView>, i: int)
    requires
        0 <= i < s.len(),
        !s[i].in_primary_heading,
    ensures
        !spec_mark_edges(s)[i].edge_of_primary_heading,
{
}

/// For a run of candidates `a..=b` that all sit in the primary heading and
/// that no in-heading candidate follows, the adjacency pass flags exactly
/// the run's last member — and, independently, position 0 when the run
/// opens the candidate list.
pub proof fn lemma_edge_of_heading_run(s: Seq<ImageView>, a: int, b: int, i: int)
    requires
        0 <= a <= i <= b < s.len(),
        forall|k: int| a <= k <= b ==> (#[trigger] s[k]).in_primary_heading,
        b + 1 < s.len() ==> !s[b + 1].in_primary_heading,
    ensures
        spec_mark_edges(s)[i].edge_of_primary_heading <==> (i == b || i == 0),
{
}

/// Applies the adjacency pass to the candidates, in document order.
pub fn apply_edges(v: Vec<ReadmeImage>) -> (r: Vec<ReadmeImage>)
    ensures
        views_of(r@) == spec_mark_edges(views_of(v@)),
{
    let ghost orig = views_of(v@);
    let n = v.len();
    let mut heads: Vec<bool> = Vec::new();
    let mut i: usize = 0;
    while i < n
        invariant
            n == v@.len(),
            i <= n,
            heads@.len() == i,
            forall|k: int| 0 <= k < i ==> heads@[k] == v@[k].in_primary_heading,
        decreases n - i,
    {
        let b = v[i].in_primary_heading;
        heads.push(b);
        i = i + 1;
    }
    let mut rest = v;
    let mut out: Vec<ReadmeImage> = Vec::new();
    let mut j: usize = 0;
    while j < n
        invariant
            orig.len() == n,
            heads@.len() == n,
            forall|k: int| 0 <= k < n ==> heads@[k] == orig[k].in_primary_heading,
            j <= n,
            rest@.len() == n - j,
            forall|k: int| 0 <= k < rest@.len() ==> #[trigger] rest@[k]@ == orig[j + k],
            out@.len() == j,
            forall|k: int| 0 <= k < j ==> #[trigger] out@[k]@ == spec_mark_edges(orig)[k],
        decreases n - j,
    {
        let mut img = rest.remove(0);
        proof {
            assert(img@ == orig[j as int]);
        }
        let edge = heads[j] && (j == 0 || j + 1 == n || !heads[j + 1]);
        img.edge_of_primary_heading = edge;
        proof {
            assert(edge == spec_edge_rule(orig, j as int));
            assert(img@ == spec_set_edge(orig[j as int], spec_edge_rule(orig, j as int)));
        }
        out.push(img);
        j = j + 1;
    }
    proof {
        assert(views_of(out@) =~= spec_mark_edges(orig));
    }
    out
}

/// `f` carries `output` back onto `input`: a permutation mapping, with the
/// output sorted by descending weight and, among equal weights, by the
/// original (document) order.
pub open spec fn ranking_map(input: Seq<ImageView>, output: Seq<ImageView>, f: Seq<int>) -> bool {
    &&& output.len() == input.len()
    &&& f.len() == input.len()
    &&& forall|i: int| 0 <= i < f.len() ==> 0 <= #[trigger] f[i] < input.len()
    &&& forall|i: int, j: int| 0 <= i < j < f.len() ==> f[i] != f[j]
    &&& forall|i: int| 0 <= i < output.len() ==> #[trigger] output[i] == input[f[i]]
    &&& forall|i: int, j: int|
        0 <= i < j < output.len() ==> spec_weight(output[i]) > spec_weight(output[j]) || (
        spec_weight(output[i]) == spec_weight(output[j]) && f[i] < f[j])
}

/// `output` is `input` reordered by descending weight, stably: ties keep
/// the input's order.
pub open spec fn is_ranking(input: Seq<ImageView>, output: Seq<ImageView>) -> bool {
    exists|f: Seq<int>| ranking_map(input, output, f)
}

/// The staged pairs: each candidate with its document position, sorted by
/// descending weight and, among equal weights, by position.
spec fn pairs_wf(input: Seq<ImageView>, ps: Seq<(ReadmeImage, usize)>, bound: int) -> bool {
    &&& ps.len() == bound <= input.len()
    &&& forall|k: int| 0 <= k < ps.len() ==> 0 <= (#[trigger] ps[k]).1 < bound
    &&& forall|k: int| 0 <= k < ps.len() ==> (#[trigger] ps[k]).0@ == input[ps[k].1 as int]
    &&& forall|k: int, l: int| 0 <= k < l < ps.len() ==> (#[trigger] ps[k]).1 != (#[trigger] ps[l]).1
    &&& forall|k: int, l: int|
        0 <= k < l < ps.len() ==> spec_weight((#[trigger] ps[k]).0@) > spec_weight(
            (#[trigger] ps[l]).0@,
        ) || (spec_weight(ps[k].0@) == spec_weight(ps[l].0@) && ps[k].1 < ps[l].1)
}

/// The position where a candidate of weight `w` enters the staged pairs:
/// after every staged pair of weight at least `w`.
fn insert_pos(ps: &Vec<(ReadmeImage, usize)>, w: u8) -> (p: usize)
    requires
        forall|k: int, l: int|
            0 <= k < l < ps@.len() ==> spec_weight((#[trigger] ps@[k]).0@) >= spec_weight(
                (#[trigger] ps@[l]).0@,
            ),
    ensures
        p <= ps@.len(),
        forall|k: int| 0 <= k < p ==> spec_weight((#[trigger] ps@[k]).0@) >= w as int,
        forall|k: int| p <= k < ps@.len() ==> spec_weight((#[trigger] ps@[k]).0@) < w as int,
{
    let mut p: usize = 0;
    while p < ps.len()
        invariant
            p <= ps@.len(),
            forall|k: int, l: int|
                0 <= k < l < ps@.len() ==> spec_weight((#[trigger] ps@[k]).0@) >= spec_weight(
                    (#[trigger] ps@[l]).0@,
                ),
            forall|k: int| 0 <= k < p ==> spec_weight((#[trigger] ps@[k]).0@) >= w as int,
        decreases ps@.len() - p,
    {
        let wp = ps[p].0.weight();
        if wp < w {
            return p;
        }
        p = p + 1;
    }
    p
}

/// Orders the candidates by descending weight; candidates of equal weight
/// keep their document order.
pub fn rank(v: Vec<ReadmeImage>) -> (r: Vec<ReadmeImage>)
    ensures
        is_ranking(views_of(v@), views_of(r@)),
        r@.len() == v@.len(),
        forall|i: int|
            0 <= i && i + 1 < r@.len() ==> spec_weight(#[trigger] r@[i]@) >= spec_weight(
                r@[i + 1]@,
            ),
{
    let ghost input = views_of(v@);
    let ghost vorig = v@;
    let n = v.len();
    let mut rest = v;
    let mut pairs: Vec<(ReadmeImage, usize)> = Vec::new();
    let mut i: usize = 0;
    while i < n
        invariant
            input == views_of(vorig),
            input.len() == n,
            i <= n,
            rest@.len() == n - i,
            forall|k: int| 0 <= k < rest@.len() ==> #[trigger] rest@[k]@ == input[i + k],
            pairs_wf(input, pairs@, i as int),
        decreases n - i,
    {
        let img = rest.remove(0);
        proof {
            assert(img@ == input[i as int]);
        }
        let w = img.weight();
        let ghost before = pairs@;
        let p = insert_pos(&pairs, w);
        pairs.insert(p, (img, i));
        proof {
            let after = pairs@;
            assert(after =~= before.insert(p as int, (img, i)));
            assert forall|k: int| 0 <= k < after.len() implies (#[trigger] after[k]).1 < i + 1
                && after[k].0@ == input[after[k].1 as int] by {
                if k < p {
                    assert(after[k] == before[k]);
                } else if k == p {
                } else {
                    assert(after[k] == before[k - 1]);
                }
            }
            assert forall|k: int, l: int| 0 <= k < l < after.len() implies (#[trigger] after[k]).1
                != (#[trigger] after[l]).1 by {
                if k < p {
                    assert(after[k] == before[k]);
                } else if k > p {
                    assert(after[k] == before[k - 1]);
                }
                if l < p {
                    assert(after[l] == before[l]);
                } else if l > p {
                    assert(after[l] == before[l - 1]);
                }
            }
            assert forall|k: int, l: int| 0 <= k < l < after.len() implies spec_weight(
                (#[trigger] after[k]).0@,
            ) > spec_weight((#[trigger] after[l]).0@) || (spec_weight(after[k].0@) == spec_weight(
                after[l].0@,
            ) && after[k].1 < after[l].1) by {
                if k < p {
                    assert(after[k] == before[k]);
                } else if k > p {
                    assert(after[k] == before[k - 1]);
                }
                if l < p {
                    assert(after[l] == before[l]);
                } else if l > p {
                    assert(after[l] == before[l - 1]);
                }
            }
            assert(pairs_wf(input, after, i + 1));
        }
        i = i + 1;
    }
    let ghost gpairs = pairs@;
    let mut staged = pairs;
    let mut out: Vec<ReadmeImage> = Vec::new();
    let mut j: usize = 0;
    while j < n
        invariant
            gpairs.len() == n,
            pairs_wf(input, gpairs, n as int),
            j <= n,
            staged@.len() == n - j,
            forall|k: int| 0 <= k < staged@.len() ==> #[trigger] staged@[k] == gpairs[j + k],
            out@.len() == j,
            forall|k: int| 0 <= k < j ==> #[trigger] out@[k] == gpairs[k].0,
        decreases n - j,
    {
        let pr = staged.remove(0);
        out.push(pr.0);
        j = j + 1;
    }
    proof {
        let f = Seq::new(n as nat, |k: int| gpairs[k].1 as int);
        assert forall|k: int| 0 <= k < n implies #[trigger] views_of(out@)[k] == input[f[k]] by {
            assert(out@[k] == gpairs[k].0);
            assert(gpairs[k].0@ == input[gpairs[k].1 as int]);
            assert(f[k] == gpairs[k].1 as int);
        }
        assert(ranking_map(input, views_of(out@), f));
        assert forall|k: int| 0 <= k && k + 1 < out@.len() implies spec_weight(
            #[trigger] out@[k]@,
        ) >= spec_weight(out@[k + 1]@) by {
            assert(out@[k] == gpairs[k].0);
            assert(out@[k + 1] == gpairs[k + 1].0);
            assert(spec_weight(gpairs[k].0@) > spec_weight(gpairs[k + 1].0@) || (spec_weight(
                gpairs[k].0@,
            ) == spec_weight(gpairs[k + 1].0@) && gpairs[k].1 < gpairs[k + 1].1));
        }
    }
    out
}

impl Readme {
    /// The full pipeline: derives a candidate for every qualifying image
    /// of the document, applies the adjacency pass in document order, and
    /// returns the candidates ordered by descending weight, ties keeping
    /// document order.
    pub fn images(&self) -> (r: Vec<ReadmeImage>)
        requires
            self.wf(),
        ensures
            is_ranking(spec_mark_edges(spec_candidates(*self)), views_of(r@)),
            forall|i: int|
                0 <= i && i + 1 < r@.len() ==> spec_weight(#[trigger] r@[i]@) >= spec_weight(
                    r@[i + 1]@,
                ),
    {
        let mut imgs: Vec<ReadmeImage> = Vec::new();
        let n = self.doc.images.len();
        let mut i: usize = 0;
        while i < n
            invariant
                self.wf(),
                n == self.doc.images@.len(),
                i <= n,
                views_of(imgs@) =~= spec_candidates_prefix(*self, i as int),
            decreases n - i,
        {
            let node = &self.doc.images[i];
            match ReadmeImage::get(self, node) {
                Some(im) => {
                    imgs.push(im);
                },
                None => {},
            }
            proof {
                assert(views_of(imgs@) =~= spec_candidates_prefix(*self, i + 1));
            }
            i = i + 1;
        }
        let marked = apply_edges(imgs);
        rank(marked)
    }
}

} // verus!
