//! A stable, non-destructive sort of the voxel list by depth key.
//!
//! Each render pass sorts an owned copy of the voxels ascending by the
//! side/view depth key; painting in that order realizes the painter's
//! algorithm. The sort is stable, so the result — and with it the canvas —
//! is a function of the input list alone.

use vstd::prelude::*;
use vstd::view::View as _;

use crate::enums::{Side, View};
use crate::model::{size_ok, voxel_in, Size, Voxel};
use crate::project::{sort_key, spec_key};

verus! {

/// The sequence is ascending by depth key.
pub open spec fn sorted_by_key(side: Side, view: View, size: Size, s: Seq<Voxel>) -> bool {
    forall|i: int, j: int|
        0 <= i <= j < s.len() ==> spec_key(side, view, size, #[trigger] s[i]) <= spec_key(
            side,
            view,
            size,
            #[trigger] s[j],
        )
}

/// `v` inserted behind every element of `s` whose key does not exceed its
/// own: the insertion step of a stable insertion sort.
pub open spec fn insert_sorted(side: Side, view: View, size: Size, v: Voxel, s: Seq<Voxel>) -> Seq<
    Voxel,
>
    decreases s.len(),
{
    if s.len() == 0 {
        seq![v]
    } else if spec_key(side, view, size, v) < spec_key(side, view, size, s.last()) {
        insert_sorted(side, view, size, v, s.drop_last()).push(s.last())
    } else {
        s.push(v)
    }
}

/// The stable insertion sort of `s` ascending by depth key.
pub open spec fn sort_spec(side: Side, view: View, size: Size, s: Seq<Voxel>) -> Seq<Voxel>
    decreases s.len(),
{
    if s.len() == 0 {
        s
    } else {
        insert_sorted(side, view, size, s.last(), sort_spec(side, view, size, s.drop_last()))
    }
}

/// Inserting keeps exactly the elements, one more `v`.
pub proof fn lemma_insert_sorted_multiset(side: Side, view: View, size: Size, v: Voxel, s: Seq<
    Voxel,
>)
    ensures
        insert_sorted(side, view, size, v, s).to_multiset() == s.to_multiset().insert(v),
    decreases s.len(),
{
    broadcast use vstd::seq_lib::group_to_multiset_ensures;

    if s.len() == 0 {
        assert(seq![v] =~= Seq::empty().push(v));
        assert(Seq::<Voxel>::empty().push(v).to_multiset() =~= Seq::<
            Voxel,
        >::empty().to_multiset().insert(v));
    } else if spec_key(side, view, size, v) < spec_key(side, view, size, s.last()) {
        lemma_insert_sorted_multiset(side, view, size, v, s.drop_last());
        assert(s.drop_last().push(s.last()) =~= s);
        assert(insert_sorted(side, view, size, v, s).to_multiset() =~= s.to_multiset().insert(v));
    } else {
    }
}

/// Inserting into a sorted sequence keeps it sorted.
pub proof fn lemma_insert_sorted_sorted(side: Side, view: View, size: Size, v: Voxel, s: Seq<
    Voxel,
>)
    requires
        sorted_by_key(side, view, size, s),
    ensures
        sorted_by_key(side, view, size, insert_sorted(side, view, size, v, s)),
    decreases s.len(),
{
    broadcast use vstd::seq_lib::group_to_multiset_ensures;

    if s.len() == 0 {
    } else if spec_key(side, view, size, v) < spec_key(side, view, size, s.last()) {
        assert(sorted_by_key(side, view, size, s.drop_last()));
        lemma_insert_sorted_sorted(side, view, size, v, s.drop_last());
        lemma_insert_sorted_multiset(side, view, size, v, s.drop_last());
        let t = insert_sorted(side, view, size, v, s.drop_last());
        // every element of t is v or an element of s.drop_last(), so its key
        // is at most the key of s.last()
        assert forall|i: int| 0 <= i < t.len() implies spec_key(side, view, size, t[i]) <= spec_key(
            side,
            view,
            size,
            s.last(),
        ) by {
            assert(t.to_multiset().contains(t[i]));
            if t[i] != v {
                assert(s.drop_last().to_multiset().contains(t[i]));
                let k = choose|k: int| 0 <= k < s.drop_last().len() && s.drop_last()[k] == t[i];
                assert(s[k] == t[i] && spec_key(side, view, size, s[k]) <= spec_key(
                    side,
                    view,
                    size,
                    s.last(),
                ));
            }
        }
    } else {
        // every key in s is at most the key of s.last(), which is at most v's
    }
}

/// The sort is ascending by key.
pub proof fn lemma_sort_spec_sorted(side: Side, view: View, size: Size, s: Seq<Voxel>)
    ensures
        sorted_by_key(side, view, size, sort_spec(side, view, size, s)),
    decreases s.len(),
{
    if s.len() > 0 {
        lemma_sort_spec_sorted(side, view, size, s.drop_last());
        lemma_insert_sorted_sorted(
            side,
            view,
            size,
            s.last(),
            sort_spec(side, view, size, s.drop_last()),
        );
    }
}

/// The sort keeps exactly the input's elements.
pub proof fn lemma_sort_spec_multiset(side: Side, view: View, size: Size, s: Seq<Voxel>)
    ensures
        sort_spec(side, view, size, s).to_multiset() == s.to_multiset(),
    decreases s.len(),
{
    broadcast use vstd::seq_lib::group_to_multiset_ensures;

    if s.len() > 0 {
        lemma_sort_spec_multiset(side, view, size, s.drop_last());
        lemma_insert_sorted_multiset(
            side,
            view,
            size,
            s.last(),
            sort_spec(side, view, size, s.drop_last()),
        );
        assert(s.drop_last().push(s.last()) =~= s);
        assert(sort_spec(side, view, size, s).to_multiset() =~= s.to_multiset());
    }
}

/// Every element of the sorted sequence is an element of the input.
pub proof fn lemma_sort_spec_contains(side: Side, view: View, size: Size, s: Seq<Voxel>, i: int)
    requires
        0 <= i < sort_spec(side, view, size, s).len(),
    ensures
        sort_spec(side, view, size, s).len() == s.len(),
        exists|k: int|
            0 <= k < s.len() && s[k] == sort_spec(side, view, size, s)[i],
{
    broadcast use vstd::seq_lib::group_to_multiset_ensures;

    lemma_sort_spec_multiset(side, view, size, s);
    let t = sort_spec(side, view, size, s);
    assert(t.to_multiset().len() == s.to_multiset().len());
    assert(t.to_multiset().contains(t[i]));
    assert(s.to_multiset().contains(t[i]));
    assert(s.contains(t[i]));
}

/// Where the scan of a stable insertion stops, the spec insertion lands.
proof fn lemma_insert_sorted_position(
    side: Side,
    view: View,
    size: Size,
    v: Voxel,
    s: Seq<Voxel>,
    j: int,
)
    requires
        sorted_by_key(side, view, size, s),
        0 <= j <= s.len(),
        forall|k: int|
            j <= k < s.len() ==> spec_key(side, view, size, #[trigger] s[k]) > spec_key(
                side,
                view,
                size,
                v,
            ),
        j > 0 ==> spec_key(side, view, size, s[j - 1]) <= spec_key(side, view, size, v),
    ensures
        insert_sorted(side, view, size, v, s) == s.insert(j, v),
    decreases s.len(),
{
    if j == s.len() {
        assert(insert_sorted(side, view, size, v, s) =~= s.insert(j, v));
    } else {
        assert(spec_key(side, view, size, s.last()) > spec_key(side, view, size, v));
        assert(sorted_by_key(side, view, size, s.drop_last()));
        lemma_insert_sorted_position(side, view, size, v, s.drop_last(), j);
        assert(insert_sorted(side, view, size, v, s) =~= s.insert(j, v));
    }
}

/// Sorts an owned copy of the voxel list ascending by the depth key of the
/// given side and view, stably: equal keys keep their input order, so the
/// result is pinned exactly by `sort_spec`.
pub fn sort_voxels(voxels: &Vec<Voxel>, side: Side, view: View, size: &Size) -> (r: Vec<Voxel>)
    requires
        size_ok(*size),
        forall|k: int| 0 <= k < voxels@.len() ==> voxel_in(*size, #[trigger] voxels@[k]),
    ensures
        r@ == sort_spec(side, view, *size, voxels@),
        r@.len() == voxels@.len(),
{
    broadcast use vstd::seq_lib::group_to_multiset_ensures;

    let mut r: Vec<Voxel> = Vec::new();
    let n = voxels.len();
    assert(voxels@.take(0) =~= Seq::empty());
    for i in 0..n
        invariant
            n == voxels@.len(),
            size_ok(*size),
            forall|k: int| 0 <= k < voxels@.len() ==> voxel_in(*size, #[trigger] voxels@[k]),
            r@ == sort_spec(side, view, *size, voxels@.take(i as int)),
            r@.len() == i,
            sorted_by_key(side, view, *size, r@),
            forall|k: int| 0 <= k < r@.len() ==> voxel_in(*size, #[trigger] r@[k]),
    {
        let v = voxels[i];
        let key_v = sort_key(side, view, size, &v);
        let mut j = r.len();
        while j > 0 && sort_key(side, view, size, &r[j - 1]) > key_v
            invariant
                size_ok(*size),
                j <= r@.len(),
                key_v == spec_key(side, view, *size, v),
                voxel_in(*size, v),
                sorted_by_key(side, view, *size, r@),
                forall|k: int| 0 <= k < r@.len() ==> voxel_in(*size, #[trigger] r@[k]),
                forall|k: int|
                    j <= k < r@.len() ==> spec_key(side, view, *size, #[trigger] r@[k]) > spec_key(
                        side,
                        view,
                        *size,
                        v,
                    ),
            decreases j,
        {
            j = j - 1;
        }
        let ghost r_old = r@;
        r.insert(j, v);
        proof {
            broadcast use vstd::seq_lib::group_to_multiset_ensures;

            lemma_insert_sorted_position(side, view, *size, v, r_old, j as int);
            lemma_insert_sorted_sorted(side, view, *size, v, r_old);
            lemma_insert_sorted_multiset(side, view, *size, v, r_old);
            assert(voxels@.take(i + 1).drop_last() =~= voxels@.take(i as int));
            assert(voxels@.take(i + 1).last() == voxels@[i as int]);
            // the new elements are the old ones plus v, all in bounds
            assert forall|k: int| 0 <= k < r@.len() implies voxel_in(*size, #[trigger] r@[k]) by {
                assert(r@.contains(r@[k]));
                assert(r@.to_multiset().contains(r@[k]));
                if r@[k] != v {
                    assert(r_old.to_multiset().contains(r@[k]));
                    assert(r_old.contains(r@[k]));
                }
            }
        }
    }
    proof {
        assert(voxels@.take(n as int) =~= voxels@);
    }
    r
}

} // verus!
