//! The library's stated laws: palette-lookup shape, determinism of a render,
//! painter's-algorithm occlusion, and the excluded side/view combinations.

use vstd::prelude::*;

use crate::canvas::blank_pixels;
use crate::color::{shade, spec_colour};
use crate::enums::{Side, View};
use crate::model::{Size, Voxel};
use crate::project::{spec_key, spec_screen_x, spec_screen_y, spec_should_render};
use crate::render::{paint_all, paint_offsets, paint_voxel, rendered, spec_height, spec_width, stamp};
use crate::sort::{lemma_sort_spec_multiset, lemma_sort_spec_sorted, sort_spec};

verus! {

/// Palette lookup with no darkening returns the packed entry unpacked
/// unchanged; any darkening subtracts from each color channel with
/// saturation at zero and leaves alpha untouched.
pub proof fn lemma_colour_darken(entry: u32, d: u8)
    ensures
        spec_colour(entry, 0) == (
            (entry as int % 256) as u8,
            ((entry as int / 256) % 256) as u8,
            ((entry as int / 65536) % 256) as u8,
            ((entry as int / 16777216) % 256) as u8,
        ),
        spec_colour(entry, d).0 == shade(spec_colour(entry, 0).0 as int, d as int) as u8,
        spec_colour(entry, d).1 == shade(spec_colour(entry, 0).1 as int, d as int) as u8,
        spec_colour(entry, d).2 == shade(spec_colour(entry, 0).2 as int, d as int) as u8,
        spec_colour(entry, d).3 == spec_colour(entry, 0).3,
        shade(spec_colour(entry, 0).0 as int, d as int) >= 0,
        shade(spec_colour(entry, 0).1 as int, d as int) >= 0,
        shade(spec_colour(entry, 0).2 as int, d as int) >= 0,
{
}

/// Rendering is deterministic: pixel maps that satisfy the render contract
/// for the same size, palette, voxel list, side and view are equal.
pub proof fn lemma_render_deterministic(
    size: Size,
    palette: Seq<u32>,
    side: Side,
    view: View,
    s: Seq<Voxel>,
    m1: Map<(int, int), (u8, u8, u8, u8)>,
    m2: Map<(int, int), (u8, u8, u8, u8)>,
)
    requires
        m1 == rendered(size, palette, side, view, s),
        m2 == rendered(size, palette, side, view, s),
    ensures
        m1 == m2,
{
}

/// The Top and Bottom sides are rendered only with the straight-on view:
/// every oblique combination with them is excluded.
pub proof fn lemma_top_bottom_face_only(side: Side, view: View)
    requires
        spec_should_render(side, view),
        side == Side::Top || side == Side::Bottom,
    ensures
        view == View::Face,
{
}

/// Voxel `v`'s stamp under the view covers screen position `p`.
pub open spec fn covers(side: Side, view: View, size: Size, v: Voxel, p: (int, int)) -> bool {
    exists|k: int|
        0 <= k < stamp(view).len() && p.0 == spec_screen_x(side, view, size, v) + (
        #[trigger] stamp(view)[k]).0 && p.1 == spec_screen_y(side, view, size, v) + stamp(
            view,
        )[k].1
}

/// The color `v`'s stamp paints at `p`: the voxel's palette entry darkened
/// by the one stamp offset that reaches `p`.
pub open spec fn contribution(
    side: Side,
    view: View,
    size: Size,
    palette: Seq<u32>,
    v: Voxel,
    p: (int, int),
) -> (u8, u8, u8, u8) {
    let k = choose|k: int|
        0 <= k < stamp(view).len() && p.0 == spec_screen_x(side, view, size, v) + (
        #[trigger] stamp(view)[k]).0 && p.1 == spec_screen_y(side, view, size, v) + stamp(
            view,
        )[k].1;
    spec_colour(palette[v.i - 1], stamp(view)[k].2)
}

/// No two offsets of one stamp name the same position.
proof fn lemma_stamp_distinct(view: View)
    ensures
        forall|k1: int, k2: int|
            0 <= k1 < k2 < stamp(view).len() ==> !((#[trigger] stamp(view)[k1]).0 == (
            #[trigger] stamp(view)[k2]).0 && stamp(view)[k1].1 == stamp(view)[k2].1),
{
}

/// What one stamp leaves at a position: the shade of the offset that reaches
/// it, or the map's prior value where none does.
proof fn lemma_paint_offsets_at(
    m: Map<(int, int), (u8, u8, u8, u8)>,
    sx: int,
    sy: int,
    entry: u32,
    offs: Seq<(u32, u32, u8)>,
    p: (int, int),
)
    requires
        forall|k1: int, k2: int|
            0 <= k1 < k2 < offs.len() ==> !((#[trigger] offs[k1]).0 == (#[trigger] offs[k2]).0
                && offs[k1].1 == offs[k2].1),
    ensures
        forall|k: int|
            0 <= k < offs.len() && p.0 == sx + (#[trigger] offs[k]).0 && p.1 == sy + offs[k].1
                ==> paint_offsets(m, sx, sy, entry, offs)[p] == spec_colour(entry, offs[k].2)
                && paint_offsets(m, sx, sy, entry, offs).dom().contains(p),
        (forall|k: int|
            0 <= k < offs.len() ==> !(p.0 == sx + (#[trigger] offs[k]).0 && p.1 == sy
                + offs[k].1)) ==> paint_offsets(m, sx, sy, entry, offs)[p] == m[p] && (
        paint_offsets(m, sx, sy, entry, offs).dom().contains(p) <==> m.dom().contains(p)),
    decreases offs.len(),
{
    if offs.len() > 0 {
        let rest = offs.drop_last();
        let o = offs.last();
        assert(forall|k: int| 0 <= k < rest.len() ==> #[trigger] rest[k] == offs[k]);
        lemma_paint_offsets_at(m, sx, sy, entry, rest, p);
        if p.0 == sx + o.0 && p.1 == sy + o.1 {
            assert forall|k: int|
                0 <= k < offs.len() && p.0 == sx + (#[trigger] offs[k]).0 && p.1 == sy
                    + offs[k].1 implies paint_offsets(m, sx, sy, entry, offs)[p] == spec_colour(
                entry,
                offs[k].2,
            ) && paint_offsets(m, sx, sy, entry, offs).dom().contains(p) by {
                if k < offs.len() - 1 {
                    assert(!(offs[k].0 == offs[offs.len() - 1].0 && offs[k].1 == offs[offs.len()
                        - 1].1));
                }
            }
        } else {
            assert forall|k: int|
                0 <= k < offs.len() && p.0 == sx + (#[trigger] offs[k]).0 && p.1 == sy
                    + offs[k].1 implies paint_offsets(m, sx, sy, entry, offs)[p] == spec_colour(
                entry,
                offs[k].2,
            ) && paint_offsets(m, sx, sy, entry, offs).dom().contains(p) by {
                assert(k < offs.len() - 1);
                assert(rest[k] == offs[k]);
            }
        }
    }
}

/// What one voxel's stamp leaves at a position.
proof fn lemma_paint_voxel_at(
    m: Map<(int, int), (u8, u8, u8, u8)>,
    size: Size,
    palette: Seq<u32>,
    side: Side,
    view: View,
    v: Voxel,
    p: (int, int),
)
    ensures
        covers(side, view, size, v, p) ==> paint_voxel(m, size, palette, side, view, v)[p]
            == contribution(side, view, size, palette, v, p) && paint_voxel(
            m,
            size,
            palette,
            side,
            view,
            v,
        ).dom().contains(p),
        !covers(side, view, size, v, p) ==> paint_voxel(m, size, palette, side, view, v)[p]
            == m[p] && (paint_voxel(m, size, palette, side, view, v).dom().contains(p)
            <==> m.dom().contains(p)),
{
    lemma_stamp_distinct(view);
    let sx = spec_screen_x(side, view, size, v);
    let sy = spec_screen_y(side, view, size, v);
    lemma_paint_offsets_at(m, sx, sy, palette[v.i - 1], stamp(view), p);
    if covers(side, view, size, v, p) {
        let k = choose|k: int|
            0 <= k < stamp(view).len() && p.0 == sx + (#[trigger] stamp(view)[k]).0 && p.1 == sy
                + stamp(view)[k].1;
        assert(paint_offsets(m, sx, sy, palette[v.i - 1], stamp(view))[p] == spec_colour(
            palette[v.i - 1],
            stamp(view)[k].2,
        ));
    }
}

/// The index of the last voxel of the sequence whose stamp covers `p`
/// (meaningful only where some voxel covers `p`).
pub open spec fn last_coverer(side: Side, view: View, size: Size, s: Seq<Voxel>, p: (int, int)) -> int
    decreases s.len(),
{
    if s.len() == 0 {
        0
    } else if covers(side, view, size, s.last(), p) {
        s.len() - 1
    } else {
        last_coverer(side, view, size, s.drop_last(), p)
    }
}

/// What painting a whole sequence leaves at a position: the contribution of
/// the last voxel covering it, or the map's prior value where none does.
proof fn lemma_paint_all_at(
    m: Map<(int, int), (u8, u8, u8, u8)>,
    size: Size,
    palette: Seq<u32>,
    side: Side,
    view: View,
    s: Seq<Voxel>,
    p: (int, int),
)
    ensures
        (forall|i: int| 0 <= i < s.len() ==> !covers(side, view, size, #[trigger] s[i], p))
            ==> paint_all(m, size, palette, side, view, s)[p] == m[p] && (paint_all(
            m,
            size,
            palette,
            side,
            view,
            s,
        ).dom().contains(p) <==> m.dom().contains(p)),
        (exists|i: int| 0 <= i < s.len() && covers(side, view, size, #[trigger] s[i], p)) ==> {
            let lc = last_coverer(side, view, size, s, p);
            &&& 0 <= lc < s.len()
            &&& covers(side, view, size, s[lc], p)
            &&& forall|i: int| lc < i < s.len() ==> !covers(side, view, size, #[trigger] s[i], p)
            &&& paint_all(m, size, palette, side, view, s)[p] == contribution(
                side,
                view,
                size,
                palette,
                s[lc],
                p,
            )
            &&& paint_all(m, size, palette, side, view, s).dom().contains(p)
        },
    decreases s.len(),
{
    if s.len() > 0 {
        let rest = s.drop_last();
        assert(forall|i: int| 0 <= i < rest.len() ==> #[trigger] rest[i] == s[i]);
        lemma_paint_all_at(m, size, palette, side, view, rest, p);
        lemma_paint_voxel_at(
            paint_all(m, size, palette, side, view, rest),
            size,
            palette,
            side,
            view,
            s.last(),
            p,
        );
        if exists|i: int| 0 <= i < s.len() && covers(side, view, size, #[trigger] s[i], p) {
            if covers(side, view, size, s.last(), p) {
                assert(last_coverer(side, view, size, s, p) == s.len() - 1);
                assert(s[s.len() - 1] == s.last());
            } else {
                let i0 = choose|i: int|
                    0 <= i < s.len() && covers(side, view, size, #[trigger] s[i], p);
                assert(i0 < s.len() - 1);
                assert(rest[i0] == s[i0]);
                assert(exists|i: int|
                    0 <= i < rest.len() && covers(side, view, size, #[trigger] rest[i], p));
                let lc = last_coverer(side, view, size, rest, p);
                assert(last_coverer(side, view, size, s, p) == lc);
                assert(rest[lc] == s[lc]);
                assert forall|i: int| lc < i < s.len() implies !covers(
                    side,
                    view,
                    size,
                    #[trigger] s[i],
                    p,
                ) by {
                    if i < s.len() - 1 {
                        assert(rest[i] == s[i]);
                    }
                }
            }
        }
    }
}

/// Painter's-algorithm correctness: where the stamps of two voxels overlap
/// on a screen position, the color finally visible there comes from a
/// covering voxel whose depth key is at least as large as either of theirs —
/// whatever the order of the input list.
pub proof fn lemma_painter_occlusion(
    size: Size,
    palette: Seq<u32>,
    side: Side,
    view: View,
    s: Seq<Voxel>,
    u: int,
    w: int,
    p: (int, int),
)
    requires
        0 <= u < s.len(),
        0 <= w < s.len(),
        covers(side, view, size, s[u], p),
        covers(side, view, size, s[w], p),
        spec_key(side, view, size, s[u]) <= spec_key(side, view, size, s[w]),
    ensures
        exists|t: int|
            0 <= t < s.len() && covers(side, view, size, #[trigger] s[t], p) && spec_key(
                side,
                view,
                size,
                s[t],
            ) >= spec_key(side, view, size, s[w]) && rendered(size, palette, side, view, s)[p]
                == contribution(side, view, size, palette, s[t], p),
{
    broadcast use vstd::seq_lib::group_to_multiset_ensures;

    let sorted = sort_spec(side, view, size, s);
    lemma_sort_spec_sorted(side, view, size, s);
    lemma_sort_spec_multiset(side, view, size, s);
    assert(s.contains(s[w]));
    assert(s.to_multiset().contains(s[w]));
    assert(sorted.contains(s[w]));
    let iw = choose|i: int| 0 <= i < sorted.len() && sorted[i] == s[w];
    assert(covers(side, view, size, sorted[iw], p));

    let blank = blank_pixels(
        spec_width(side, view, size, s) as u32,
        spec_height(side, view, size, s) as u32,
    );
    lemma_paint_all_at(blank, size, palette, side, view, sorted, p);
    assert(exists|i: int| 0 <= i < sorted.len() && covers(side, view, size, #[trigger] sorted[i], p));
    let lc = last_coverer(side, view, size, sorted, p);
    assert(iw <= lc) by {
        if lc < iw {
            assert(!covers(side, view, size, sorted[iw], p));
        }
    }
    assert(spec_key(side, view, size, sorted[lc]) >= spec_key(side, view, size, s[w]));

    assert(sorted.contains(sorted[lc]));
    assert(sorted.to_multiset().contains(sorted[lc]));
    assert(s.to_multiset().contains(sorted[lc]));
    assert(s.contains(sorted[lc]));
    let t = choose|t: int| 0 <= t < s.len() && s[t] == sorted[lc];
    assert(covers(side, view, size, s[t], p) && spec_key(side, view, size, s[t]) >= spec_key(
        side,
        view,
        size,
        s[w],
    ) && rendered(size, palette, side, view, s)[p] == contribution(
        side,
        view,
        size,
        palette,
        s[t],
        p,
    ));
}

/// Where exactly two voxels' stamps reach a screen position and their depth
/// keys differ, the color finally shown there is the nearer voxel's.
pub proof fn lemma_nearer_voxel_shown(
    size: Size,
    palette: Seq<u32>,
    side: Side,
    view: View,
    s: Seq<Voxel>,
    u: int,
    w: int,
    p: (int, int),
)
    requires
        0 <= u < s.len(),
        0 <= w < s.len(),
        covers(side, view, size, s[u], p),
        covers(side, view, size, s[w], p),
        spec_key(side, view, size, s[u]) < spec_key(side, view, size, s[w]),
        forall|i: int|
            0 <= i < s.len() && covers(side, view, size, #[trigger] s[i], p) ==> s[i] == s[u]
                || s[i] == s[w],
    ensures
        rendered(size, palette, side, view, s)[p] == contribution(side, view, size, palette, s[w], p),
{
    lemma_painter_occlusion(size, palette, side, view, s, u, w, p);
    let t = choose|t: int|
        0 <= t < s.len() && covers(side, view, size, #[trigger] s[t], p) && spec_key(
            side,
            view,
            size,
            s[t],
        ) >= spec_key(side, view, size, s[w]) && rendered(size, palette, side, view, s)[p]
            == contribution(side, view, size, palette, s[t], p);
    assert(s[t] == s[w]);
}

} // verus!
