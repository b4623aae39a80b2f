use mica_term::terminal_atlas_model::{row_hashes_for_frame, rows_to_rerender, viewport_background_changed};
use mica_term::terminal_atlas_model::{
    blend, composite_color, fill_rect, rgba8, selection_overlaps_cell, PixelRect, Rgba8Pixel,
};

#[test]
fn colors_unpack_from_argb_words() {
    assert_eq!(rgba8(0x80ff_4020), Rgba8Pixel { a: 0x80, r: 0xff, g: 0x40, b: 0x20 });
    assert_eq!(rgba8(0), Rgba8Pixel { a: 0, r: 0, g: 0, b: 0 });
}

#[test]
fn blending_weighs_by_alpha_and_makes_opaque() {
    let mut dst = Rgba8Pixel { r: 0, g: 100, b: 255, a: 10 };
    blend(&mut dst, Rgba8Pixel { r: 255, g: 200, b: 0, a: 0 }, 255);
    assert_eq!(dst, Rgba8Pixel { r: 255, g: 200, b: 0, a: 255 });
    let mut half = Rgba8Pixel { r: 0, g: 0, b: 0, a: 0 };
    blend(&mut half, Rgba8Pixel { r: 255, g: 128, b: 1, a: 0 }, 128);
    assert_eq!(half, Rgba8Pixel { r: 128, g: 64, b: 0, a: 255 });
    let base = Rgba8Pixel { r: 10, g: 20, b: 30, a: 255 };
    assert_eq!(composite_color(base, Rgba8Pixel { r: 200, g: 200, b: 200, a: 0 }), Rgba8Pixel { a: 255, ..base });
}

#[test]
fn selection_touches_wide_cells_by_their_last_column() {
    assert!(selection_overlaps_cell((3, 5), 2, 2));
    assert!(!selection_overlaps_cell((3, 5), 1, 2));
    assert!(selection_overlaps_cell((3, 5), 5, 0));
    assert!(!selection_overlaps_cell((3, 5), 6, 1));
}

#[test]
fn fill_rect_is_clipped_to_the_surface() {
    let blank = Rgba8Pixel { r: 0, g: 0, b: 0, a: 0 };
    let red = Rgba8Pixel { r: 255, g: 0, b: 0, a: 255 };
    let mut pixels = vec![blank; 4 * 3];
    fill_rect(&mut pixels, 4, 3, PixelRect { start_x: 2, start_y: 1, width: 5, height: 1 }, red);
    for y in 0..3u32 {
        for x in 0..4u32 {
            let expected = if y == 1 && x >= 2 { red } else { blank };
            assert_eq!(pixels[(y * 4 + x) as usize], expected);
        }
    }
}

#[test]
fn frame_redraws_only_rows_whose_hash_changed() {
    let kept = row_hashes_for_frame(&vec![7, 8, 9], 4, false);
    assert_eq!(kept, vec![7, 8, 9, 0]);
    assert_eq!(row_hashes_for_frame(&vec![7, 8, 9], 2, true), vec![0, 0]);
    let next = vec![7, 5, 9, 1];
    assert_eq!(rows_to_rerender(false, false, &kept, &next), vec![1, 3]);
    assert_eq!(rows_to_rerender(true, false, &kept, &next), vec![0, 1, 2, 3]);
    assert_eq!(rows_to_rerender(false, true, &kept, &next), vec![0, 1, 2, 3]);
    assert!(!viewport_background_changed(false, Some((1, 2, 3)), (1, 2, 3)));
    assert!(viewport_background_changed(false, Some((1, 2, 4)), (1, 2, 3)));
    assert!(viewport_background_changed(true, Some((1, 2, 3)), (1, 2, 3)));
    assert!(viewport_background_changed(false, None, (1, 2, 3)));
}
