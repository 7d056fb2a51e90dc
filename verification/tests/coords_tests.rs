use chessboard_ui::coords::{to_pixel_origin, to_square};

#[test]
fn top_left_pixel_is_the_far_rank() {
    // Screen row 0 draws rank 8, so a click in the top-left cell is a8
    // (engine index 56), not a1.
    assert_eq!(to_square(0, 0, 800, 800), 56);
}

#[test]
fn bottom_right_pixel_is_h1() {
    assert_eq!(to_square(799, 799, 800, 800), 7);
}

#[test]
fn forward_mapping_examples() {
    // e2: file 4, rank 1 -> index 12; its cell spans x in [400,500),
    // y in [600,700) for an 800x800 viewport.
    assert_eq!(to_square(450, 650, 800, 800), 12);
    // e4: file 4, rank 3 -> index 28.
    assert_eq!(to_square(401, 499, 800, 800), 28);
}

#[test]
fn out_of_viewport_clicks_clamp_to_the_edge() {
    assert_eq!(to_square(805, 5, 800, 800), 63);
    assert_eq!(to_square(5, 4000, 800, 800), 0);
}

#[test]
fn round_trip_over_all_squares_and_several_viewports() {
    let sizes = [(8u32, 8u32), (800, 800), (801, 913), (1024, 640), (9, 1000)];
    for &(w, h) in sizes.iter() {
        for s in 0..64u8 {
            let (x, y) = to_pixel_origin(s, w, h);
            assert_eq!(to_square(x, y, w, h), s, "square {} viewport {}x{}", s, w, h);
        }
    }
}

#[test]
fn pixel_origin_examples() {
    // a1 is the bottom-left cell.
    assert_eq!(to_pixel_origin(0, 800, 800), (0, 700));
    // a8 is the top-left cell.
    assert_eq!(to_pixel_origin(56, 800, 800), (0, 0));
    // h1 is the bottom-right cell.
    assert_eq!(to_pixel_origin(7, 800, 800), (700, 700));
}
