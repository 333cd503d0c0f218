use voxrender::canvas::Canvas;
use voxrender::enums::{Side, View};
use voxrender::model::{Model, Size, Voxel};
use voxrender::project::should_render;
use voxrender::render::{render, selected_models, selected_sides, selected_views};

const RED: u32 = 0xFF0000FF; // r=0xFF g=0 b=0 a=0xFF
const GREEN: u32 = 0xFF00FF00; // r=0 g=0xFF b=0 a=0xFF
const CLEAR: (u8, u8, u8, u8) = (0, 0, 0, 0);

fn model(size: (u32, u32, u32), voxels: &[(u8, u8, u8, u8)]) -> Model {
    Model {
        size: Size { x: size.0, y: size.1, z: size.2 },
        voxels: voxels.iter().map(|&(x, y, z, i)| Voxel { x, y, z, i }).collect(),
    }
}

fn pixels(c: &Canvas) -> Vec<Vec<(u8, u8, u8, u8)>> {
    let (w, h) = (c.width(), c.height());
    (0..h).map(|y| (0..w).map(|x| c.get(x, y)).collect()).collect()
}

#[test]
fn single_voxel_face_front() {
    // a 1x1x1 model with one voxel at the origin, palette entry 1 opaque red
    let m = model((1, 1, 1), &[(0, 0, 0, 1)]);
    let palette: Vec<u32> = vec![RED];
    let c = render(&m, &palette, Side::Front, View::Face);
    // width = max(x) + 0 + 1; height = max(size.z - z) + 0 + 1
    assert_eq!((c.width(), c.height()), (1, 2));
    assert_eq!(c.get(0, 0), CLEAR);
    assert_eq!(c.get(0, 1), (0xFF, 0, 0, 0xFF));
}

#[test]
fn single_voxel_45_front_stamp() {
    let m = model((1, 1, 1), &[(0, 0, 0, 1)]);
    let palette: Vec<u32> = vec![RED];
    let c = render(&m, &palette, Side::Front, View::FourtyFive);
    // sx = 0, sy = invert_z + invert_y = 2; padding (0, 1)
    assert_eq!((c.width(), c.height()), (1, 4));
    let px = pixels(&c);
    assert_eq!(px[0][0], CLEAR);
    assert_eq!(px[1][0], CLEAR);
    assert_eq!(px[2][0], (0xFF, 0, 0, 0xFF)); // lit top row
    assert_eq!(px[3][0], (0xFF - 30, 0, 0, 0xFF)); // darker front row
}

#[test]
fn single_voxel_22_5_front_stamp() {
    let m = model((1, 1, 1), &[(0, 0, 0, 1)]);
    let palette: Vec<u32> = vec![RED];
    let c = render(&m, &palette, Side::Front, View::TwentyTwoPointFive);
    // sx = 2x = 0, sy = 2*invert_z + invert_y = 3; padding (1, 2)
    assert_eq!((c.width(), c.height()), (2, 6));
    let px = pixels(&c);
    let lit = (0xFF, 0, 0, 0xFF);
    let dark = (0xFF - 30, 0, 0, 0xFF);
    for y in 0..3 {
        assert_eq!(px[y][0], CLEAR);
        assert_eq!(px[y][1], CLEAR);
    }
    assert_eq!(px[3][0], lit);
    assert_eq!(px[3][1], lit);
    for y in 4..6 {
        assert_eq!(px[y][0], dark);
        assert_eq!(px[y][1], dark);
    }
}

#[test]
fn single_voxel_45_iso_front_stamp() {
    let m = model((1, 1, 1), &[(0, 0, 0, 1)]);
    let palette: Vec<u32> = vec![RED];
    let c = render(&m, &palette, Side::Front, View::FourtyFiveIso);
    // sx = x + invert_y = 1, sy = invert_z + invert_y + invert_x = 3; padding (1, 1)
    assert_eq!((c.width(), c.height()), (3, 5));
    let px = pixels(&c);
    let lit = (0xFF, 0, 0, 0xFF);
    let dark = (0xFF - 30, 0, 0, 0xFF);
    let half = (0xFF - 15, 0, 0, 0xFF);
    assert_eq!(px[3][1], lit);
    assert_eq!(px[3][2], lit);
    assert_eq!(px[4][1], dark);
    assert_eq!(px[4][2], half);
    // everything outside the stamp is transparent
    for y in 0..5usize {
        for x in 0..3usize {
            if !(y == 3 && (x == 1 || x == 2)) && !(y == 4 && (x == 1 || x == 2)) {
                assert_eq!(px[y][x], CLEAR, "pixel ({}, {})", x, y);
            }
        }
    }
}

#[test]
fn single_voxel_22_5_iso_front_stamp() {
    let m = model((1, 1, 1), &[(0, 0, 0, 1)]);
    let palette: Vec<u32> = vec![RED];
    let c = render(&m, &palette, Side::Front, View::TwentyTwoPointFiveIso);
    // sx = 2x + 2*invert_y = 2, sy = 3*invert_z + invert_y + invert_x = 5; padding (3, 3)
    assert_eq!((c.width(), c.height()), (6, 9));
    let px = pixels(&c);
    let lit = (0xFF, 0, 0, 0xFF);
    let dark = (0xFF - 30, 0, 0, 0xFF);
    let half = (0xFF - 15, 0, 0, 0xFF);
    for x in 2..6 {
        assert_eq!(px[5][x], lit);
    }
    for y in 6..9 {
        assert_eq!(px[y][2], dark);
        assert_eq!(px[y][3], dark);
        assert_eq!(px[y][4], half);
        assert_eq!(px[y][5], half);
    }
    for y in 0..5 {
        for x in 0..6 {
            assert_eq!(px[y][x], CLEAR);
        }
    }
    for y in 5..9 {
        assert_eq!(px[y][0], CLEAR);
        assert_eq!(px[y][1], CLEAR);
    }
}

#[test]
fn nearer_voxel_wins_regardless_of_input_order() {
    // two voxels stacked along the depth axis of the Front side; the one at
    // y = 0 is nearer the camera and must supply the final pixel
    let palette: Vec<u32> = vec![RED, GREEN];
    let near = (0, 0, 0, 1);
    let far = (0, 1, 0, 2);
    for voxels in [[near, far], [far, near]] {
        let m = model((1, 2, 1), &voxels);
        let c = render(&m, &palette, Side::Front, View::Face);
        assert_eq!((c.width(), c.height()), (1, 2));
        assert_eq!(c.get(0, 1), (0xFF, 0, 0, 0xFF));
        assert_eq!(c.get(0, 0), CLEAR);
    }
}

#[test]
fn occlusion_right_side_45() {
    // stacked along x, viewed from the Right under the oblique view: the
    // voxel with the larger x is nearer
    let palette: Vec<u32> = vec![RED, GREEN];
    let far = (0, 0, 0, 1);
    let near = (1, 0, 0, 2);
    for voxels in [[near, far], [far, near]] {
        let m = model((2, 1, 1), &voxels);
        let c = render(&m, &palette, Side::Right, View::FourtyFive);
        // both voxels project to sx = y = 0, sy = invert_z + x in {1, 2}
        assert_eq!(c.get(0, 2), (0, 0xFF, 0, 0xFF)); // nearer, green, lit row
    }
}

#[test]
fn rendering_twice_is_byte_identical() {
    let palette: Vec<u32> = vec![RED, GREEN, 0x80402010];
    let m1 = model(
        (3, 3, 3),
        &[(0, 0, 0, 1), (1, 1, 1, 2), (2, 2, 2, 3), (2, 0, 1, 1), (0, 2, 1, 2)],
    );
    let m2 = model(
        (3, 3, 3),
        &[(0, 0, 0, 1), (1, 1, 1, 2), (2, 2, 2, 3), (2, 0, 1, 1), (0, 2, 1, 2)],
    );
    for side in Side::all() {
        for view in View::all() {
            if should_render(side, view) {
                let a = render(&m1, &palette, side, view);
                let b = render(&m2, &palette, side, view);
                assert_eq!((a.width(), a.height()), (b.width(), b.height()));
                assert_eq!(pixels(&a), pixels(&b));
            }
        }
    }
}

#[test]
fn canvas_sized_to_projected_extent() {
    // size (2, 3, 4), single voxel at (1, 2, 3)
    let palette: Vec<u32> = vec![RED];
    let m = model((2, 3, 4), &[(1, 2, 3, 1)]);
    // Front/Face: sx = x = 1, sy = invert_z = 1 -> 2 x 2
    let c = render(&m, &palette, Side::Front, View::Face);
    assert_eq!((c.width(), c.height()), (2, 2));
    // Left/Face: sx = invert_y = 1, sy = invert_z = 1 -> 2 x 2
    let c = render(&m, &palette, Side::Left, View::Face);
    assert_eq!((c.width(), c.height()), (2, 2));
    // Top/Face: sx = x = 1, sy = invert_y = 1 -> 2 x 2
    let c = render(&m, &palette, Side::Top, View::Face);
    assert_eq!((c.width(), c.height()), (2, 2));
    // Back/45: sx = invert_x = 1, sy = invert_z + y = 3, padding (0, 1) -> 2 x 5
    let c = render(&m, &palette, Side::Back, View::FourtyFive);
    assert_eq!((c.width(), c.height()), (2, 5));
    // Right/22.5: sx = 2y = 4, sy = 2*invert_z + x = 3, padding (1, 2) -> 6 x 6
    let c = render(&m, &palette, Side::Right, View::TwentyTwoPointFive);
    assert_eq!((c.width(), c.height()), (6, 6));
}

#[test]
fn empty_model_gives_padding_sized_canvas() {
    let palette: Vec<u32> = vec![RED];
    let m = model((2, 2, 2), &[]);
    let c = render(&m, &palette, Side::Front, View::Face);
    assert_eq!((c.width(), c.height()), (1, 1));
    assert_eq!(c.get(0, 0), CLEAR);
    let c = render(&m, &palette, Side::Front, View::TwentyTwoPointFiveIso);
    assert_eq!((c.width(), c.height()), (4, 4));
}

#[test]
fn top_and_bottom_only_with_face_view() {
    let mut rendered = 0;
    for side in Side::all() {
        for view in View::all() {
            if side == Side::Top || side == Side::Bottom {
                assert_eq!(should_render(side, view), view == View::Face);
            } else {
                assert!(should_render(side, view));
            }
            if should_render(side, view) {
                rendered += 1;
            }
        }
    }
    // 6 sides straight on, plus 4 oblique views of the 4 lateral sides
    assert_eq!(rendered, 6 + 4 * 4);
}

#[test]
fn face_views_orient_each_side() {
    // a single voxel at a corner of a 2x2x2 model; its screen position
    // under each Face side follows the mirror table
    let palette: Vec<u32> = vec![RED];
    let m = model((2, 2, 2), &[(0, 1, 0, 1)]);
    let lit = (0xFF, 0, 0, 0xFF);
    // Top: (x, invert_y) = (0, 1)
    let c = render(&m, &palette, Side::Top, View::Face);
    assert_eq!(c.get(0, 1), lit);
    // Front: (x, invert_z) = (0, 2)
    let c = render(&m, &palette, Side::Front, View::Face);
    assert_eq!(c.get(0, 2), lit);
    // Left: (invert_y, invert_z) = (1, 2)
    let c = render(&m, &palette, Side::Left, View::Face);
    assert_eq!(c.get(1, 2), lit);
    // Right: (y, invert_z) = (1, 2)
    let c = render(&m, &palette, Side::Right, View::Face);
    assert_eq!(c.get(1, 2), lit);
    // Back: (invert_x, invert_z) = (2, 2)
    let c = render(&m, &palette, Side::Back, View::Face);
    assert_eq!(c.get(2, 2), lit);
    // Bottom: (x, y) = (0, 1)
    let c = render(&m, &palette, Side::Bottom, View::Face);
    assert_eq!(c.get(0, 1), lit);
}

#[test]
fn selections_default_to_everything() {
    assert_eq!(selected_models(Some(3), 10), vec![3]);
    assert_eq!(selected_models(None, 4), vec![0, 1, 2, 3]);
    assert_eq!(selected_sides(Some(Side::Back)), vec![Side::Back]);
    assert_eq!(selected_sides(None), Side::all());
    assert_eq!(selected_views(Some(View::FourtyFive)), vec![View::FourtyFive]);
    assert_eq!(selected_views(None), View::all());
}
