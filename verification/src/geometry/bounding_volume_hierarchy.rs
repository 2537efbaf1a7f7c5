//! The bounding volume hierarchy: a binary tree over geometries, built once
//! along a randomly chosen axis and pruned by box tests at query time.

use vstd::prelude::*;
use vstd::multiset::Multiset;
use crate::geometry::axis_aligned_bounding_box::AxisAlignedBoundingBox;
use crate::geometry::{leaves, lemma_wf_bbox_some, BuildError, Geometry};
use crate::rng::random_axis;
use crate::scalar::Scalar;

verus! {

/// The leaves of a whole collection of geometries, summed in order.
pub open spec fn leaves_of_seq(s: Seq<Geometry>) -> Multiset<Geometry>
    decreases s.len(),
{
    if s.len() == 0 {
        Multiset::empty()
    } else {
        leaves(s[0]).add(leaves_of_seq(s.drop_first()))
    }
}

spec fn leaves_of_keyed(s: Seq<KeyedGeometry>) -> Multiset<Geometry>
    decreases s.len(),
{
    if s.len() == 0 {
        Multiset::empty()
    } else {
        leaves(s[0].geometry).add(leaves_of_keyed(s.drop_first()))
    }
}

proof fn lemma_leaves_seq_push(s: Seq<Geometry>, g: Geometry)
    ensures
        leaves_of_seq(s.push(g)) =~= leaves_of_seq(s).add(leaves(g)),
    decreases s.len(),
{
    if s.len() == 0 {
        assert(s.push(g)[0] == g);
        let rest = s.push(g).drop_first();
        assert(rest =~= Seq::<Geometry>::empty());
        assert(leaves_of_seq(rest) == Multiset::<Geometry>::empty());
        assert(leaves_of_seq(s.push(g)) == leaves(g).add(Multiset::empty()));
        assert(leaves(g).add(Multiset::empty()) =~= Multiset::empty().add(leaves(g)));
    } else {
        assert(s.push(g)[0] == s[0]);
        let rest = s.push(g).drop_first();
        assert(rest =~= s.drop_first().push(g));
        lemma_leaves_seq_push(s.drop_first(), g);
        assert(leaves_of_seq(s.push(g)) == leaves(s[0]).add(leaves_of_seq(rest)));
        assert(leaves_of_seq(rest) =~= leaves_of_seq(s.drop_first()).add(leaves(g)));
        assert(leaves(s[0]).add(leaves_of_seq(s.drop_first()).add(leaves(g))) =~= (leaves(s[0]).add(
            leaves_of_seq(s.drop_first()),
        )).add(leaves(g)));
    }
}

proof fn lemma_leaves_keyed_push(s: Seq<KeyedGeometry>, k: KeyedGeometry)
    ensures
        leaves_of_keyed(s.push(k)) =~= leaves_of_keyed(s).add(leaves(k.geometry)),
    decreases s.len(),
{
    if s.len() == 0 {
        assert(s.push(k)[0] == k);
        let rest = s.push(k).drop_first();
        assert(rest =~= Seq::<KeyedGeometry>::empty());
        assert(leaves_of_keyed(rest) == Multiset::<Geometry>::empty());
        assert(leaves_of_keyed(s.push(k)) == leaves(k.geometry).add(Multiset::empty()));
        assert(leaves(k.geometry).add(Multiset::empty()) =~= Multiset::empty().add(
            leaves(k.geometry),
        ));
    } else {
        assert(s.push(k)[0] == s[0]);
        let rest = s.push(k).drop_first();
        assert(rest =~= s.drop_first().push(k));
        lemma_leaves_keyed_push(s.drop_first(), k);
        assert(leaves_of_keyed(s.push(k)) == leaves(s[0].geometry).add(leaves_of_keyed(rest)));
        assert(leaves_of_keyed(rest) =~= leaves_of_keyed(s.drop_first()).add(leaves(k.geometry)));
        assert(leaves(s[0].geometry).add(leaves_of_keyed(s.drop_first()).add(leaves(k.geometry)))
            =~= (leaves(s[0].geometry).add(leaves_of_keyed(s.drop_first()))).add(
            leaves(k.geometry),
        ));
    }
}

proof fn lemma_leaves_keyed_remove(s: Seq<KeyedGeometry>, i: int)
    requires
        0 <= i < s.len(),
    ensures
        leaves_of_keyed(s.remove(i)).add(leaves(s[i].geometry)) =~= leaves_of_keyed(s),
    decreases i,
{
    if i == 0 {
        assert(s.remove(0) =~= s.drop_first());
        assert(leaves_of_keyed(s.remove(0)).add(leaves(s[0].geometry)) =~= leaves_of_keyed(s));
    } else {
        assert(s.remove(i).drop_first() =~= s.drop_first().remove(i - 1));
        lemma_leaves_keyed_remove(s.drop_first(), i - 1);
        assert(leaves_of_keyed(s.remove(i)).add(leaves(s[i].geometry)) =~= leaves_of_keyed(s));
    }
}

#[derive(Debug)]
pub struct BoundingVolumeHierarchyNode {
    pub left: Geometry,
    pub right: Geometry,
    pub time_start: Scalar,
    pub time_end: Scalar,
    pub bounding_box: AxisAlignedBoundingBox,
}

struct KeyedGeometry {
    key: i64,
    geometry: Geometry,
}

fn sort_by_key(items: Vec<KeyedGeometry>) -> (r: Vec<KeyedGeometry>)
    requires
        forall|i: int| 0 <= i < items@.len() ==> (#[trigger] items@[i]).geometry.wf(),
    ensures
        r@.len() == items@.len(),
        forall|i: int| 0 <= i < r@.len() ==> (#[trigger] r@[i]).geometry.wf(),
        leaves_of_keyed(r@) == leaves_of_keyed(items@),
{
    let mut rest = items;
    let ghost n0 = rest@.len();
    let ghost total = leaves_of_keyed(rest@);
    let mut out: Vec<KeyedGeometry> = Vec::new();
    while rest.len() > 0
        invariant
            out@.len() + rest@.len() == n0,
            leaves_of_keyed(out@).add(leaves_of_keyed(rest@)) =~= total,
            forall|i: int| 0 <= i < rest@.len() ==> (#[trigger] rest@[i]).geometry.wf(),
            forall|i: int| 0 <= i < out@.len() ==> (#[trigger] out@[i]).geometry.wf(),
        decreases rest@.len(),
    {
        let mut best: usize = 0;
        let mut j: usize = 1;
        while j < rest.len()
            invariant
                0 < rest@.len(),
                best < rest@.len(),
                j <= rest@.len(),
            decreases rest@.len() - j,
        {
            if rest[j].key < rest[best].key {
                best = j;
            }
            j = j + 1;
        }
        proof {
            lemma_leaves_keyed_remove(rest@, best as int);
            lemma_leaves_keyed_push(out@, rest@[best as int]);
        }
        let item = rest.remove(best);
        out.push(item);
    }
    proof {
        assert(leaves_of_keyed(rest@) =~= Multiset::empty());
        assert(leaves_of_keyed(out@) =~= total);
    }
    out
}

/// Strips the sort keys, keeping the order.
fn strip_keys(items: Vec<KeyedGeometry>) -> (r: Vec<Geometry>)
    requires
        forall|i: int| 0 <= i < items@.len() ==> (#[trigger] items@[i]).geometry.wf(),
    ensures
        r@.len() == items@.len(),
        forall|i: int| 0 <= i < r@.len() ==> (#[trigger] r@[i]).wf(),
        leaves_of_seq(r@) == leaves_of_keyed(items@),
    decreases items@.len(),
{
    let mut rest = items;
    let ghost n0 = rest@.len();
    let ghost total = leaves_of_keyed(rest@);
    let mut out: Vec<Geometry> = Vec::new();
    while rest.len() > 0
        invariant
            out@.len() + rest@.len() == n0,
            leaves_of_seq(out@).add(leaves_of_keyed(rest@)) =~= total,
            forall|i: int| 0 <= i < rest@.len() ==> (#[trigger] rest@[i]).geometry.wf(),
            forall|i: int| 0 <= i < out@.len() ==> (#[trigger] out@[i]).wf(),
        decreases rest@.len(),
    {
        proof {
            assert(rest@.remove(0) =~= rest@.drop_first());
            lemma_leaves_seq_push(out@, rest@[0].geometry);
        }
        let item = rest.remove(0);
        out.push(item.geometry);
    }
    proof {
        assert(leaves_of_keyed(rest@) =~= Multiset::empty());
        assert(leaves_of_seq(out@) =~= total);
    }
    out
}

fn make_node(left: Geometry, right: Geometry, time_start: Scalar, time_end: Scalar) -> (r: Result<
    Geometry,
    BuildError,
>)
    requires
        left.wf(),
        right.wf(),
    ensures
        r matches Ok(g) ==> g.wf() && (g matches Geometry::Bvh(_)) && leaves(g) == leaves(
            left,
        ).add(leaves(right)),
        r is Ok,
{
    proof {
        lemma_wf_bbox_some(left, time_start, time_end);
        lemma_wf_bbox_some(right, time_start, time_end);
    }
    let lb = left.bounding_box(time_start, time_end);
    let rb = right.bounding_box(time_start, time_end);
    match (lb, rb) {
        (Some(lbox), Some(rbox)) => Ok(
            Geometry::Bvh(
                Box::new(
                    BoundingVolumeHierarchyNode {
                        left,
                        right,
                        time_start,
                        time_end,
                        bounding_box: lbox.union(rbox),
                    },
                ),
            ),
        ),
        _ => Err(BuildError::UnboundedGeometry),
    }
}

/// Builds the hierarchy over a set of geometries for rays within the given
/// time interval. A single geometry stands for itself; larger sets are
/// ordered by their boxes' lower corner along a uniformly random axis and
/// split at the middle. The tree shape may differ between two builds over
/// the same input; what may not differ: the result's leaves are exactly
/// the input geometries, and every node's box is the union of its
/// children's boxes.
pub fn build_bvh(geometries: Vec<Geometry>, time_start: Scalar, time_end: Scalar) -> (r: Result<
    Geometry,
    BuildError,
>)
    requires
        forall|i: int| 0 <= i < geometries@.len() ==> (#[trigger] geometries@[i]).wf(),
    ensures
        r matches Ok(g) ==> g.wf() && leaves(g) == leaves_of_seq(geometries@),
        geometries@.len() == 0 ==> r matches Err(BuildError::EmptyInput),
        geometries@.len() > 0 ==> r is Ok,
    decreases geometries@.len(),
{
    let mut list = geometries;
    let ghost n0 = list@.len();
    let ghost total = leaves_of_seq(list@);
    if list.len() == 0 {
        return Err(BuildError::EmptyInput);
    }
    if list.len() == 1 {
        match list.pop() {
            Some(g) => {
                proof {
                    assert(g == geometries@[0]);
                    assert(geometries@.drop_first() =~= Seq::<Geometry>::empty());
                    assert(leaves_of_seq(geometries@.drop_first())
                        == Multiset::<Geometry>::empty());
                    assert(leaves_of_seq(geometries@) == leaves(g).add(
                        Multiset::<Geometry>::empty(),
                    ));
                    assert(leaves(g).add(Multiset::<Geometry>::empty()) =~= leaves(g));
                }
                return Ok(g);
            },
            None => {
                return Err(BuildError::EmptyInput);
            },
        }
    }
    let axis = random_axis();
    let mut keyed: Vec<KeyedGeometry> = Vec::new();
    while list.len() > 0
        invariant
            keyed@.len() + list@.len() == n0,
            n0 == geometries@.len(),
            2 <= n0,
            total == leaves_of_seq(geometries@),
            leaves_of_keyed(keyed@).add(leaves_of_seq(list@)) =~= total,
            forall|i: int| 0 <= i < list@.len() ==> (#[trigger] list@[i]).wf(),
            forall|i: int| 0 <= i < keyed@.len() ==> (#[trigger] keyed@[i]).geometry.wf(),
        decreases list@.len(),
    {
        proof {
            assert(list@ =~= list@.drop_last().push(list@.last()));
            lemma_leaves_seq_push(list@.drop_last(), list@.last());
        }
        let g = match list.pop() {
            Some(g) => g,
            None => {
                return Err(BuildError::EmptyInput);
            },
        };
        let bb = g.bounding_box(time_start, time_end);
        proof {
            lemma_wf_bbox_some(g, time_start, time_end);
        }
        let key: i64 = match bb {
            Some(b) => {
                if axis == 0 {
                    b.min.x.raw
                } else if axis == 1 {
                    b.min.y.raw
                } else {
                    b.min.z.raw
                }
            },
            None => {
                return Err(BuildError::UnboundedGeometry);
            },
        };
        proof {
            lemma_leaves_keyed_push(keyed@, KeyedGeometry { key, geometry: g });
        }
        keyed.push(KeyedGeometry { key, geometry: g });
    }
    proof {
        assert(leaves_of_seq(list@) =~= Multiset::<Geometry>::empty());
        assert(leaves_of_keyed(keyed@) =~= total);
    }
    let sorted = sort_by_key(keyed);
    let mut ordered = strip_keys(sorted);
    if ordered.len() == 2 {
        let ghost before = ordered@;
        let right = match ordered.pop() {
            Some(g) => g,
            None => {
                return Err(BuildError::EmptyInput);
            },
        };
        let left = match ordered.pop() {
            Some(g) => g,
            None => {
                return Err(BuildError::EmptyInput);
            },
        };
        proof {
            let pair = Seq::<Geometry>::empty().push(left).push(right);
            assert(before =~= pair);
            lemma_leaves_seq_push(Seq::<Geometry>::empty().push(left), right);
            lemma_leaves_seq_push(Seq::<Geometry>::empty(), left);
            assert(leaves_of_seq(Seq::<Geometry>::empty()) =~= Multiset::<Geometry>::empty());
            assert(leaves_of_seq(pair) =~= leaves(left).add(leaves(right)));
            assert(leaves_of_seq(geometries@) == leaves(left).add(leaves(right)));
        }
        return make_node(left, right, time_start, time_end);
    }
    let mid = ordered.len() / 2;
    let mut left_half: Vec<Geometry> = Vec::new();
    let ghost n1 = ordered@.len();
    while left_half.len() < mid
        invariant
            left_half@.len() + ordered@.len() == n1,
            left_half@.len() <= mid,
            mid < n1,
            n1 == geometries@.len(),
            1 <= mid,
            total == leaves_of_seq(geometries@),
            leaves_of_seq(left_half@).add(leaves_of_seq(ordered@)) =~= total,
            forall|i: int| 0 <= i < ordered@.len() ==> (#[trigger] ordered@[i]).wf(),
            forall|i: int| 0 <= i < left_half@.len() ==> (#[trigger] left_half@[i]).wf(),
        decreases mid - left_half@.len(),
    {
        proof {
            assert(ordered@.remove(0) =~= ordered@.drop_first());
            lemma_leaves_seq_push(left_half@, ordered@[0]);
        }
        let g = ordered.remove(0);
        left_half.push(g);
    }
    let left_node = match build_bvh(left_half, time_start, time_end) {
        Ok(g) => g,
        Err(e) => {
            return Err(e);
        },
    };
    let right_node = match build_bvh(ordered, time_start, time_end) {
        Ok(g) => g,
        Err(e) => {
            return Err(e);
        },
    };
    make_node(left_node, right_node, time_start, time_end)
}

} // verus!
