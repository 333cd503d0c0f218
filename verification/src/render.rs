//! The stamp compositor and render pass.
//!
//! A render pass sorts the voxels ascending by depth key, sizes the canvas to
//! the projected extent plus the view's padding, and paints each voxel's
//! fixed multi-pixel stamp in that order; later voxels overwrite earlier
//! pixels, so correct occlusion comes from the ordering alone.

use vstd::prelude::*;
use vstd::view::View as _;

use crate::canvas::{blank_pixels, canvas_dims, canvas_pixels, Canvas};
use crate::color::{colour, spec_colour};
use crate::enums::{Side, View};
use crate::model::{model_ok, size_ok, voxel_in, voxel_ok, Model, Size, Voxel, MAX_DIM};
use crate::project::{
    padding, screen_x, screen_y, spec_padding, spec_screen_x, spec_screen_y, spec_should_render,
};
use crate::sort::{sort_spec, sort_voxels};

verus! {

/// The view's stamp: offsets from the voxel's screen position and the
/// darkening of the color painted there, in paint order. Row 0 is the lit
/// top; lower rows are the darker front (left) and half-darkened side
/// (right) faces.
pub open spec fn stamp(view: View) -> Seq<(u32, u32, u8)> {
    match view {
        View::Face => seq![(0u32, 0u32, 0u8)],
        View::FourtyFive => seq![(0u32, 1u32, 30u8), (0u32, 0u32, 0u8)],
        View::TwentyTwoPointFive => seq![
            (0u32, 0u32, 0u8),
            (1u32, 0u32, 0u8),
            (0u32, 1u32, 30u8),
            (1u32, 1u32, 30u8),
            (0u32, 2u32, 30u8),
            (1u32, 2u32, 30u8),
        ],
        View::FourtyFiveIso => seq![
            (0u32, 0u32, 0u8),
            (1u32, 0u32, 0u8),
            (0u32, 1u32, 30u8),
            (1u32, 1u32, 15u8),
        ],
        View::TwentyTwoPointFiveIso => seq![
            (0u32, 0u32, 0u8),
            (1u32, 0u32, 0u8),
            (2u32, 0u32, 0u8),
            (3u32, 0u32, 0u8),
            (0u32, 1u32, 30u8),
            (1u32, 1u32, 30u8),
            (2u32, 1u32, 15u8),
            (3u32, 1u32, 15u8),
            (0u32, 2u32, 30u8),
            (1u32, 2u32, 30u8),
            (2u32, 2u32, 15u8),
            (3u32, 2u32, 15u8),
            (0u32, 3u32, 30u8),
            (1u32, 3u32, 30u8),
            (2u32, 3u32, 15u8),
            (3u32, 3u32, 15u8),
        ],
    }
}

/// Every stamp offset lies within the view's padding: the stamp never paints
/// farther from its origin than the canvas padding leaves room for.
pub proof fn lemma_stamp_bounds(view: View)
    ensures
        forall|k: int|
            0 <= k < stamp(view).len() ==> (#[trigger] stamp(view)[k]).0 <= spec_padding(view).0
                && stamp(view)[k].1 <= spec_padding(view).1,
{
}

/// The view's stamp offsets, in paint order.
pub fn stamp_offsets(view: View) -> (r: Vec<(u32, u32, u8)>)
    ensures
        r@ =~= stamp(view),
{
    match view {
        View::Face => vec![(0, 0, 0)],
        View::FourtyFive => vec![(0, 1, 30), (0, 0, 0)],
        View::TwentyTwoPointFive => vec![
            (0, 0, 0),
            (1, 0, 0),
            (0, 1, 30),
            (1, 1, 30),
            (0, 2, 30),
            (1, 2, 30),
        ],
        View::FourtyFiveIso => vec![(0, 0, 0), (1, 0, 0), (0, 1, 30), (1, 1, 15)],
        View::TwentyTwoPointFiveIso => vec![
            (0, 0, 0),
            (1, 0, 0),
            (2, 0, 0),
            (3, 0, 0),
            (0, 1, 30),
            (1, 1, 30),
            (2, 1, 15),
            (3, 1, 15),
            (0, 2, 30),
            (1, 2, 30),
            (2, 2, 15),
            (3, 2, 15),
            (0, 3, 30),
            (1, 3, 30),
            (2, 3, 15),
            (3, 3, 15),
        ],
    }
}

/// The pixel map after painting the given prefix of stamp offsets for a
/// voxel whose stamp origin is (sx, sy) and whose palette entry is `entry`.
pub open spec fn paint_offsets(
    m: Map<(int, int), (u8, u8, u8, u8)>,
    sx: int,
    sy: int,
    entry: u32,
    offs: Seq<(u32, u32, u8)>,
) -> Map<(int, int), (u8, u8, u8, u8)>
    decreases offs.len(),
{
    if offs.len() == 0 {
        m
    } else {
        paint_offsets(m, sx, sy, entry, offs.drop_last()).insert(
            (sx + offs.last().0, sy + offs.last().1),
            spec_colour(entry, offs.last().2),
        )
    }
}

/// The pixel map after painting one voxel's full stamp.
pub open spec fn paint_voxel(
    m: Map<(int, int), (u8, u8, u8, u8)>,
    size: Size,
    palette: Seq<u32>,
    side: Side,
    view: View,
    v: Voxel,
) -> Map<(int, int), (u8, u8, u8, u8)> {
    paint_offsets(
        m,
        spec_screen_x(side, view, size, v),
        spec_screen_y(side, view, size, v),
        palette[v.i - 1],
        stamp(view),
    )
}

/// The pixel map after painting the voxels in sequence order.
pub open spec fn paint_all(
    m: Map<(int, int), (u8, u8, u8, u8)>,
    size: Size,
    palette: Seq<u32>,
    side: Side,
    view: View,
    s: Seq<Voxel>,
) -> Map<(int, int), (u8, u8, u8, u8)>
    decreases s.len(),
{
    if s.len() == 0 {
        m
    } else {
        paint_voxel(
            paint_all(m, size, palette, side, view, s.drop_last()),
            size,
            palette,
            side,
            view,
            s.last(),
        )
    }
}

/// The largest horizontal screen coordinate over the voxels, or 0 of none.
pub open spec fn max_screen_x(side: Side, view: View, size: Size, s: Seq<Voxel>) -> int
    decreases s.len(),
{
    if s.len() == 0 {
        0
    } else {
        let m = max_screen_x(side, view, size, s.drop_last());
        let c = spec_screen_x(side, view, size, s.last());
        if c > m {
            c
        } else {
            m
        }
    }
}

/// The largest vertical screen coordinate over the voxels, or 0 of none.
pub open spec fn max_screen_y(side: Side, view: View, size: Size, s: Seq<Voxel>) -> int
    decreases s.len(),
{
    if s.len() == 0 {
        0
    } else {
        let m = max_screen_y(side, view, size, s.drop_last());
        let c = spec_screen_y(side, view, size, s.last());
        if c > m {
            c
        } else {
            m
        }
    }
}

/// The canvas width: the largest horizontal screen coordinate plus the
/// view's horizontal padding plus one.
pub open spec fn spec_width(side: Side, view: View, size: Size, s: Seq<Voxel>) -> int {
    max_screen_x(side, view, size, s) + spec_padding(view).0 + 1
}

/// The canvas height: the largest vertical screen coordinate plus the
/// view's vertical padding plus one.
pub open spec fn spec_height(side: Side, view: View, size: Size, s: Seq<Voxel>) -> int {
    max_screen_y(side, view, size, s) + spec_padding(view).1 + 1
}

/// The full render of a voxel list: the blank canvas of the exact projected
/// extent, painted over the depth-sorted voxels.
pub open spec fn rendered(size: Size, palette: Seq<u32>, side: Side, view: View, s: Seq<Voxel>) -> Map<
    (int, int),
    (u8, u8, u8, u8),
> {
    paint_all(
        blank_pixels(spec_width(side, view, size, s) as u32, spec_height(side, view, size, s) as u32),
        size,
        palette,
        side,
        view,
        sort_spec(side, view, size, s),
    )
}

/// No screen coordinate exceeds the running maximum.
pub proof fn lemma_max_screen_ge(side: Side, view: View, size: Size, s: Seq<Voxel>, k: int)
    requires
        0 <= k < s.len(),
    ensures
        spec_screen_x(side, view, size, s[k]) <= max_screen_x(side, view, size, s),
        spec_screen_y(side, view, size, s[k]) <= max_screen_y(side, view, size, s),
    decreases s.len(),
{
    if k < s.len() - 1 {
        assert(s.drop_last()[k] == s[k]);
        lemma_max_screen_ge(side, view, size, s.drop_last(), k);
    }
}

/// The maxima stay within the projection bound.
pub proof fn lemma_max_screen_range(side: Side, view: View, size: Size, s: Seq<Voxel>)
    requires
        size_ok(size),
        forall|k: int| 0 <= k < s.len() ==> voxel_in(size, #[trigger] s[k]),
    ensures
        0 <= max_screen_x(side, view, size, s) <= 5 * MAX_DIM,
        0 <= max_screen_y(side, view, size, s) <= 5 * MAX_DIM,
    decreases s.len(),
{
    if s.len() > 0 {
        lemma_max_screen_range(side, view, size, s.drop_last());
        crate::project::lemma_projection_bounds(side, view, size, s.last());
    }
}

/// The model indices a selection asks for: the chosen one, or all of them.
pub fn selected_models(choice: Option<usize>, count: usize) -> (r: Vec<usize>)
    ensures
        match choice {
            Some(m) => r@ =~= seq![m],
            None => r@.len() == count && forall|i: int| 0 <= i < count ==> r@[i] == i,
        },
{
    match choice {
        Some(m) => vec![m],
        None => {
            let mut r: Vec<usize> = Vec::new();
            for i in 0..count
                invariant
                    r@.len() == i,
                    forall|j: int| 0 <= j < i ==> r@[j] == j,
            {
                r.push(i);
            }
            r
        },
    }
}

/// The sides a selection asks for: the chosen one, or all six.
pub fn selected_sides(choice: Option<Side>) -> (r: Vec<Side>)
    ensures
        match choice {
            Some(side) => r@ =~= seq![side],
            None => r@ =~= seq![
                Side::Top,
                Side::Front,
                Side::Left,
                Side::Right,
                Side::Back,
                Side::Bottom,
            ],
        },
{
    match choice {
        Some(side) => vec![side],
        None => Side::all(),
    }
}

/// The views a selection asks for: the chosen one, or all five.
pub fn selected_views(choice: Option<View>) -> (r: Vec<View>)
    ensures
        match choice {
            Some(view) => r@ =~= seq![view],
            None => r@ =~= seq![
                View::Face,
                View::FourtyFive,
                View::FourtyFiveIso,
                View::TwentyTwoPointFive,
                View::TwentyTwoPointFiveIso,
            ],
        },
{
    match choice {
        Some(view) => vec![view],
        None => View::all(),
    }
}

/// Renders the model from the given side under the given view: an RGBA
/// canvas sized exactly to the projected extent plus the view's padding,
/// initialized transparent, painted voxel by voxel in ascending depth-key
/// order with the view's stamp.
pub fn render(model: &Model, palette: &Vec<u32>, side: Side, view: View) -> (c: Canvas)
    requires
        model_ok(*model, palette@),
        spec_should_render(side, view),
    ensures
        canvas_dims(c) == (
            spec_width(side, view, model.size, model.voxels@) as u32,
            spec_height(side, view, model.size, model.voxels@) as u32,
        ),
        canvas_pixels(c) == rendered(model.size, palette@, side, view, model.voxels@),
{
    let size = &model.size;
    let ghost voxseq = model.voxels@;
    let sorted = sort_voxels(&model.voxels, side, view, size);
    proof {
        crate::sort::lemma_sort_spec_sorted(side, view, *size, voxseq);
        assert forall|k: int| 0 <= k < sorted@.len() implies voxel_ok(
            *size,
            palette@,
            #[trigger] sorted@[k],
        ) by {
            crate::sort::lemma_sort_spec_contains(side, view, *size, voxseq, k);
        }
    }

    // the exact projected extent over the (unsorted) voxel list
    let mut max_x: u32 = 0;
    let mut max_y: u32 = 0;
    let n = model.voxels.len();
    proof {
        assert(voxseq.take(0) =~= Seq::empty());
    }
    for k in 0..n
        invariant
            n == voxseq.len(),
            voxseq == model.voxels@,
            size_ok(*size),
            size == model.size,
            forall|j: int| 0 <= j < voxseq.len() ==> voxel_in(*size, #[trigger] voxseq[j]),
            max_x == max_screen_x(side, view, *size, voxseq.take(k as int)),
            max_y == max_screen_y(side, view, *size, voxseq.take(k as int)),
    {
        proof {
            lemma_max_screen_range(side, view, *size, voxseq.take(k as int));
            crate::project::lemma_projection_bounds(side, view, *size, voxseq[k as int]);
            assert(voxseq.take(k + 1).drop_last() =~= voxseq.take(k as int));
            assert(voxseq.take(k + 1).last() == voxseq[k as int]);
        }
        let sx = screen_x(side, view, size, &model.voxels[k]);
        let sy = screen_y(side, view, size, &model.voxels[k]);
        if sx > max_x {
            max_x = sx;
        }
        if sy > max_y {
            max_y = sy;
        }
    }
    proof {
        assert(voxseq.take(n as int) =~= voxseq);
        lemma_max_screen_range(side, view, *size, voxseq);
    }

    let pad = padding(view);
    let width = max_x + pad.0 + 1;
    let height = max_y + pad.1 + 1;
    assert(4 * (width as int) * (height as int) <= u32::MAX) by (nonlinear_arith)
        requires
            width <= 5 * MAX_DIM + 4,
            height <= 5 * MAX_DIM + 4,
            MAX_DIM == 4096,
    ;

    let mut canvas = Canvas::new(width, height);
    let offs = stamp_offsets(view);
    proof {
        lemma_stamp_bounds(view);
    }

    let m = sorted.len();
    proof {
        assert(sort_spec(side, view, *size, voxseq).take(0) =~= Seq::empty());
        assert forall|j: int| 0 <= j < sorted@.len() implies spec_screen_x(
            side,
            view,
            *size,
            #[trigger] sorted@[j],
        ) <= max_screen_x(side, view, *size, voxseq) && spec_screen_y(side, view, *size, sorted@[j])
            <= max_screen_y(side, view, *size, voxseq) by {
            crate::sort::lemma_sort_spec_contains(side, view, *size, voxseq, j);
            let k = choose|k: int| 0 <= k < voxseq.len() && voxseq[k] == sorted@[j];
            lemma_max_screen_ge(side, view, *size, voxseq, k);
        }
    }
    for i in 0..m
        invariant
            m == sorted@.len(),
            sorted@ == sort_spec(side, view, *size, voxseq),
            size_ok(*size),
            size == model.size,
            offs@ == stamp(view),
            forall|j: int| 0 <= j < sorted@.len() ==> voxel_ok(*size, palette@, #[trigger] sorted@[j]),
            forall|j: int|
                0 <= j < sorted@.len() ==> spec_screen_x(side, view, *size, #[trigger] sorted@[j])
                    <= max_screen_x(side, view, *size, voxseq) && spec_screen_y(
                    side,
                    view,
                    *size,
                    sorted@[j],
                ) <= max_screen_y(side, view, *size, voxseq),
            width == max_screen_x(side, view, *size, voxseq) + spec_padding(view).0 + 1,
            height == max_screen_y(side, view, *size, voxseq) + spec_padding(view).1 + 1,
            canvas_dims(canvas) == (width, height),
            canvas_pixels(canvas) == paint_all(
                blank_pixels(width, height),
                *size,
                palette@,
                side,
                view,
                sorted@.take(i as int),
            ),
    {
        let v = sorted[i];
        let sx = screen_x(side, view, size, &v);
        let sy = screen_y(side, view, size, &v);
        let ghost m0 = canvas_pixels(canvas);
        proof {
            lemma_stamp_bounds(view);
            assert(stamp(view).take(0) =~= Seq::empty());
        }
        let no = offs.len();
        for j in 0..no
            invariant
                no == offs@.len(),
                offs@ == stamp(view),
                size_ok(*size),
                voxel_ok(*size, palette@, v),
                sx == spec_screen_x(side, view, *size, v),
                sy == spec_screen_y(side, view, *size, v),
                sx + spec_padding(view).0 < width,
                sy + spec_padding(view).1 < height,
                forall|k: int|
                    0 <= k < stamp(view).len() ==> (#[trigger] stamp(view)[k]).0 <= spec_padding(
                        view,
                    ).0 && stamp(view)[k].1 <= spec_padding(view).1,
                canvas_dims(canvas) == (width, height),
                canvas_pixels(canvas) == paint_offsets(
                    m0,
                    sx as int,
                    sy as int,
                    palette@[v.i - 1],
                    stamp(view).take(j as int),
                ),
        {
            proof {
                assert(stamp(view).take(j + 1).drop_last() =~= stamp(view).take(j as int));
                assert(stamp(view).take(j + 1).last() == stamp(view)[j as int]);
            }
            let o = offs[j];
            let col = colour(palette, v.i, o.2);
            canvas.put(sx + o.0, sy + o.1, col);
        }
        proof {
            assert(stamp(view).take(no as int) =~= stamp(view));
            assert(canvas_pixels(canvas) == paint_voxel(m0, *size, palette@, side, view, v));
            assert(sorted@.take(i + 1).drop_last() =~= sorted@.take(i as int));
            assert(sorted@.take(i + 1).last() == sorted@[i as int]);
        }
    }
    proof {
        assert(sorted@.take(m as int) =~= sorted@);
    }
    canvas
}

} // verus!
