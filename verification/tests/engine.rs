use mosaic::geometry::ImagePoint;
use mosaic::engine::{apply, sampled_center, DEFAULT_RADIUS, MAX_RADIUS, MIN_RADIUS};
use mosaic::raster::{Color, Image};

/// An image in which every pixel has a color of its own.
fn numbered(width: u32, height: u32) -> Image {
    let mut data = Vec::new();
    for y in 0..height {
        for x in 0..width {
            data.extend_from_slice(&[x as u8, y as u8, (x * 7 + y * 13) as u8, 255]);
        }
    }
    Image::from_raw(width, height, data).unwrap()
}

fn color_of(x: u32, y: u32) -> Color {
    Color { r: x as u8, g: y as u8, b: (x * 7 + y * 13) as u8, a: 255 }
}

#[test]
fn radius_limits() {
    assert_eq!(MIN_RADIUS, 1);
    assert_eq!(MAX_RADIUS, 20);
    assert_eq!(DEFAULT_RADIUS, 5);
}

#[test]
fn zero_area_selection_returns_identical_image() {
    let base = numbered(20, 20);
    let out = apply(&base, ImagePoint::whole(10, 10), ImagePoint::whole(10, 10), 3);
    assert_eq!(out.dimensions(), (20, 20));
    assert_eq!(out.to_raw(), base.to_raw());
}

#[test]
fn selection_between_neighboring_pixels_changes_nothing() {
    let base = numbered(20, 20);
    let out = apply(&base, ImagePoint::whole(10, 10), ImagePoint::whole(11, 11), 1);
    assert_eq!(out.to_raw(), base.to_raw());
}

#[test]
fn apply_leaves_the_base_untouched() {
    let base = numbered(9, 9);
    let before = base.to_raw();
    let out = apply(&base, ImagePoint::whole(-1, -1), ImagePoint::whole(9, 9), 1);
    assert_eq!(base.to_raw(), before);
    assert_ne!(out.to_raw(), before);
}

#[test]
fn interior_takes_the_color_of_its_block_center() {
    // Radius 1: blocks of side 3 with centers at 1, 4, 7.
    let base = numbered(9, 9);
    let out = apply(&base, ImagePoint::whole(-1, -1), ImagePoint::whole(9, 9), 1);
    assert_eq!(out.get_pixel(0, 0), color_of(1, 1));
    assert_eq!(out.get_pixel(2, 2), color_of(1, 1));
    assert_eq!(out.get_pixel(3, 0), color_of(4, 1));
    assert_eq!(out.get_pixel(5, 5), color_of(4, 4));
    assert_eq!(out.get_pixel(6, 3), color_of(7, 4));
    assert_eq!(out.get_pixel(8, 8), color_of(7, 7));
    assert_eq!(out.get_pixel(2, 6), color_of(1, 7));
    for y in 0..9 {
        for x in 0..9 {
            let expected = color_of(x - x % 3 + 1, y - y % 3 + 1);
            assert_eq!(out.get_pixel(x, y), expected);
        }
    }
}

#[test]
fn block_center_formula_with_radius_two() {
    // Radius 2: blocks of side 5 with centers at 2, 7, 12.
    let base = numbered(15, 15);
    let out = apply(&base, ImagePoint::whole(-1, -1), ImagePoint::whole(15, 15), 2);
    assert_eq!(out.get_pixel(0, 0), color_of(2, 2));
    assert_eq!(out.get_pixel(4, 4), color_of(2, 2));
    assert_eq!(out.get_pixel(5, 4), color_of(7, 2));
    assert_eq!(out.get_pixel(9, 10), color_of(7, 12));
    assert_eq!(out.get_pixel(14, 14), color_of(12, 12));
    assert_eq!(out.get_pixel(12, 12), color_of(12, 12));
}

#[test]
fn selection_boundary_is_excluded() {
    let base = numbered(9, 9);
    let out = apply(&base, ImagePoint::whole(2, 2), ImagePoint::whole(6, 6), 1);
    for y in 0..9 {
        for x in 0..9 {
            let inside = 2 < x && x < 6 && 2 < y && y < 6;
            let expected = if inside { color_of(4, 4) } else { color_of(x, y) };
            assert_eq!(out.get_pixel(x, y), expected, "pixel ({x}, {y})");
        }
    }
}

#[test]
fn fractional_corners_are_compared_exactly() {
    // The rectangle from (1.5, 1.5) to (4.5, 7.25): columns 2..=4, rows 2..=7.
    let base = numbered(9, 9);
    let min = ImagePoint { x: 3, y: 3, scale: 2 };
    let max = ImagePoint { x: 18, y: 29, scale: 4 };
    let out = apply(&base, min, max, 1);
    for y in 0..9 {
        for x in 0..9 {
            let inside = (2..=4).contains(&x) && (2..=7).contains(&y);
            let expected = if inside {
                color_of(x - x % 3 + 1, y - y % 3 + 1)
            } else {
                color_of(x, y)
            };
            assert_eq!(out.get_pixel(x, y), expected, "pixel ({x}, {y})");
        }
    }
}

#[test]
fn block_centers_keep_their_color_for_every_radius() {
    let base = numbered(50, 45);
    for radius in MIN_RADIUS..=MAX_RADIUS {
        let out = apply(&base, ImagePoint::whole(-1, -1), ImagePoint::whole(50, 45), radius);
        let side = 2 * radius + 1;
        for y in 0..45 {
            for x in 0..50 {
                if x % side == radius && y % side == radius {
                    assert_eq!(out.get_pixel(x, y), color_of(x, y));
                }
            }
        }
    }
}

#[test]
fn block_whose_center_is_outside_is_left_alone() {
    // Radius 1 on a 7 x 7 image: the third block starts at 6 and would have
    // its center at 7, beyond the image.
    let base = numbered(7, 7);
    let out = apply(&base, ImagePoint::whole(-1, -1), ImagePoint::whole(7, 7), 1);
    for y in 0..7 {
        for x in 0..7 {
            let expected = if x == 6 || y == 6 {
                color_of(x, y)
            } else {
                color_of(x - x % 3 + 1, y - y % 3 + 1)
            };
            assert_eq!(out.get_pixel(x, y), expected, "pixel ({x}, {y})");
        }
    }
}

#[test]
fn image_no_wider_than_the_radius_is_unchanged() {
    let base = numbered(10, 10);
    let out = apply(&base, ImagePoint::whole(-1, -1), ImagePoint::whole(10, 10), 10);
    assert_eq!(out.to_raw(), base.to_raw());
    let narrow = numbered(5, 40);
    let out = apply(&narrow, ImagePoint::whole(-1, -1), ImagePoint::whole(5, 40), 5);
    assert_eq!(out.to_raw(), narrow.to_raw());
    let flat = numbered(40, 3);
    let out = apply(&flat, ImagePoint::whole(-1, -1), ImagePoint::whole(40, 3), 3);
    assert_eq!(out.to_raw(), flat.to_raw());
}

#[test]
fn single_block_with_center_inside_is_filled() {
    // Width 10, height 10, radius 5: one block of side 11 whose center (5, 5)
    // lies inside the image, so every selected pixel takes its color.
    let base = numbered(10, 10);
    let out = apply(&base, ImagePoint::whole(-1, -1), ImagePoint::whole(10, 10), 5);
    for y in 0..10 {
        for x in 0..10 {
            assert_eq!(out.get_pixel(x, y), color_of(5, 5));
        }
    }
}

#[test]
fn grid_does_not_move_with_the_selection() {
    let base = numbered(12, 12);
    let first = apply(&base, ImagePoint::whole(0, 0), ImagePoint::whole(7, 7), 1);
    let second = apply(&base, ImagePoint::whole(1, 1), ImagePoint::whole(8, 8), 1);
    for y in 0..12u32 {
        for x in 0..12u32 {
            let center = color_of(x - x % 3 + 1, y - y % 3 + 1);
            let in_first = 0 < x && x < 7 && 0 < y && y < 7;
            let in_second = 1 < x && x < 8 && 1 < y && y < 8;
            assert_eq!(first.get_pixel(x, y), if in_first { center } else { color_of(x, y) });
            assert_eq!(second.get_pixel(x, y), if in_second { center } else { color_of(x, y) });
            if in_first == in_second {
                assert_eq!(first.get_pixel(x, y), second.get_pixel(x, y));
            }
        }
    }
}

#[test]
fn inverted_corners_select_nothing() {
    let base = numbered(9, 9);
    let out = apply(&base, ImagePoint::whole(6, 6), ImagePoint::whole(2, 2), 1);
    assert_eq!(out.to_raw(), base.to_raw());
}

#[test]
fn empty_image_stays_empty() {
    let base = Image::from_raw(0, 0, Vec::new()).unwrap();
    let out = apply(&base, ImagePoint::whole(-1, -1), ImagePoint::whole(5, 5), 1);
    assert_eq!(out.dimensions(), (0, 0));
    assert!(out.to_raw().is_empty());
}

#[test]
fn largest_radius_does_not_overflow() {
    let base = numbered(3, 3);
    let out = apply(&base, ImagePoint::whole(-1, -1), ImagePoint::whole(3, 3), u32::MAX);
    assert_eq!(out.to_raw(), base.to_raw());
}

#[test]
fn applying_twice_to_the_base_gives_the_same_image() {
    let base = numbered(11, 8);
    let min = ImagePoint::whole(1, 0);
    let max = ImagePoint::whole(9, 7);
    let once = apply(&base, min, max, 2);
    let again = apply(&base, min, max, 2);
    assert_eq!(once.to_raw(), again.to_raw());
}

#[test]
fn sampled_center_names_the_block_center() {
    // Radius 2: blocks of side 5 with centers at 2, 7, 12.
    let img = numbered(15, 15);
    let min = ImagePoint::whole(-1, -1);
    let max = ImagePoint::whole(15, 15);
    assert_eq!(sampled_center(&img, min, max, 2, 0, 0), Some((2, 2)));
    assert_eq!(sampled_center(&img, min, max, 2, 4, 5), Some((2, 7)));
    assert_eq!(sampled_center(&img, min, max, 2, 14, 9), Some((12, 7)));
    assert_eq!(sampled_center(&img, min, max, 2, 7, 6), Some((7, 7)));
}

#[test]
fn sampled_center_is_none_where_the_pixel_keeps_its_color() {
    let img = numbered(7, 7);
    let min = ImagePoint::whole(1, 1);
    let max = ImagePoint::whole(7, 7);
    // A block center.
    assert_eq!(sampled_center(&img, min, max, 1, 4, 4), None);
    // On the boundary of the selection, and outside it.
    assert_eq!(sampled_center(&img, min, max, 1, 1, 3), None);
    assert_eq!(sampled_center(&img, min, max, 1, 0, 0), None);
    // In a block whose center (7) lies beyond the image.
    assert_eq!(sampled_center(&img, min, max, 1, 6, 3), None);
    assert_eq!(sampled_center(&img, min, max, 1, 3, 6), None);
    // Inside the selection, with the center in the image.
    assert_eq!(sampled_center(&img, min, max, 1, 3, 5), Some((4, 4)));
    assert_eq!(sampled_center(&img, min, max, 1, 2, 2), Some((1, 1)));
}

#[test]
fn sampled_center_agrees_with_apply() {
    let img = numbered(11, 8);
    let min = ImagePoint { x: 3, y: 1, scale: 2 };
    let max = ImagePoint { x: 19, y: 13, scale: 2 };
    let out = apply(&img, min, max, 1);
    for y in 0..8 {
        for x in 0..11 {
            let expected = match sampled_center(&img, min, max, 1, x, y) {
                Some((cx, cy)) => color_of(cx, cy),
                None => color_of(x, y),
            };
            assert_eq!(out.get_pixel(x, y), expected, "pixel ({x}, {y})");
        }
    }
}

#[test]
fn sampled_center_with_extreme_arguments() {
    let img = numbered(3, 3);
    let min = ImagePoint::whole(-1, -1);
    let max = ImagePoint::whole(i64::MAX, i64::MAX);
    assert_eq!(sampled_center(&img, min, max, u32::MAX, 0, 0), None);
    assert_eq!(sampled_center(&img, min, max, 1, u32::MAX, u32::MAX), None);
    assert_eq!(sampled_center(&img, min, max, 0, 1, 1), None);
}
