use vu::window::{
    buffer_window, centered_span, clamp_offset, flat_idx, max_pan, shift_offset, visible_span,
};

/// An image whose every byte tells where it sits.
fn numbered(width: u32, height: u32) -> Vec<u8> {
    let mut data = Vec::new();
    for y in 0..height {
        for x in 0..width {
            for c in 0..4u32 {
                data.push(((x * 7 + y * 13 + c * 3 + 1) % 251) as u8);
            }
        }
    }
    data
}

fn pixel(data: &[u8], width: u32, x: u32, y: u32) -> [u8; 4] {
    let at = ((y * width + x) * 4) as usize;
    [data[at], data[at + 1], data[at + 2], data[at + 3]]
}

#[test]
fn flat_idx_is_row_major() {
    assert_eq!(flat_idx(0, 0, 10), 0);
    assert_eq!(flat_idx(3, 2, 10), 23);
    assert_eq!(flat_idx(9, 0, 10), 9);
    assert_eq!(flat_idx(0, 1, 10), 10);
    assert_eq!(flat_idx(5, 7, 0), 5);
}

#[test]
fn centered_span_of_a_wide_image() {
    // The middle strip of 300 columns in a window of 100.
    assert_eq!(centered_span(300, 100, 0), (100, 200));
    assert_eq!(centered_span(300, 100, 30), (130, 230));
    assert_eq!(centered_span(300, 100, -30), (70, 170));
}

#[test]
fn centered_span_is_held_to_the_image() {
    assert_eq!(centered_span(300, 100, -1000), (0, 100));
    assert_eq!(centered_span(300, 100, 1000), (300, 400));
    assert_eq!(centered_span(300, 100, 100), (200, 300));
    assert_eq!(centered_span(300, 100, -100), (0, 100));
    assert_eq!(centered_span(300, 100, i32::MAX), (300, 400));
    assert_eq!(centered_span(300, 100, i32::MIN), (0, 100));
}

#[test]
fn centered_span_of_a_small_image() {
    assert_eq!(centered_span(100, 200, 0), (0, 200));
    assert_eq!(centered_span(0, 0, 0), (0, 0));
    assert_eq!(centered_span(0, 5, 3), (0, 5));
    assert_eq!(centered_span(7, 0, 0), (3, 3));
}

#[test]
fn centered_span_halves_each_extent_by_itself() {
    // 301 / 2 = 150 and 100 / 2 = 50.
    assert_eq!(centered_span(301, 100, 0), (100, 200));
    // 300 / 2 = 150 and 101 / 2 = 50.
    assert_eq!(centered_span(300, 101, 0), (100, 201));
}

#[test]
fn max_pan_is_half_the_overhang() {
    assert_eq!(max_pan(300, 100), 100);
    assert_eq!(max_pan(301, 100), 100);
    assert_eq!(max_pan(300, 101), 99);
    assert_eq!(max_pan(100, 100), 0);
    assert_eq!(max_pan(100, 300), 0);
    assert_eq!(max_pan(0, 0), 0);
    assert_eq!(max_pan(u32::MAX, 0), i32::MAX);
}

#[test]
fn clamp_offset_holds_the_pan() {
    assert_eq!(clamp_offset(30, 300, 100), 30);
    assert_eq!(clamp_offset(130, 300, 100), 100);
    assert_eq!(clamp_offset(-130, 300, 100), -100);
    assert_eq!(clamp_offset(5, 100, 100), 0);
    assert_eq!(clamp_offset(-5, 50, 100), 0);
    assert_eq!(clamp_offset(i32::MIN, 300, 100), -100);
}

#[test]
fn pan_extremes_show_the_edges() {
    // Extents that differ by an even number: both edges are reached.
    let limit = max_pan(300, 100);
    assert_eq!(centered_span(300, 100, limit).0, 200);
    assert_eq!(centered_span(300, 100, -limit).0, 0);
    let limit = max_pan(301, 101);
    assert_eq!(centered_span(301, 101, limit).0, 200);
    assert_eq!(centered_span(301, 101, -limit).0, 0);
}

#[test]
fn pan_extremes_with_an_odd_overhang() {
    // 300 against 101: the far edge is reached, the near edge is one short.
    let limit = max_pan(300, 101);
    assert_eq!(centered_span(300, 101, limit).0, 199);
    assert_eq!(centered_span(300, 101, -limit).0, 1);
    // 301 against 100: the near edge is reached, the far edge is one short.
    let limit = max_pan(301, 100);
    assert_eq!(centered_span(301, 100, limit).0, 200);
    assert_eq!(centered_span(301, 100, -limit).0, 0);
}

#[test]
fn small_image_is_centered_in_a_large_window() {
    let data = numbered(100, 100);
    let view = buffer_window(&data, (100, 100), (200, 200), (0, 0));
    assert_eq!(view.len(), 200 * 200 * 4);
    for y in 0..200u32 {
        for x in 0..200u32 {
            let shown = pixel(&view, 200, x, y);
            if (50..150).contains(&x) && (50..150).contains(&y) {
                assert_eq!(shown, pixel(&data, 100, x - 50, y - 50));
            } else {
                assert_eq!(shown, [0, 0, 0, 0]);
            }
        }
    }
}

#[test]
fn padding_is_floored() {
    // 3 columns in a window of 6: padding (6 - 3) / 2 = 1.
    let data = numbered(3, 1);
    let view = buffer_window(&data, (3, 1), (6, 2), (0, 0));
    assert_eq!(view.len(), 6 * 2 * 4);
    assert_eq!(pixel(&view, 6, 0, 0), [0, 0, 0, 0]);
    assert_eq!(pixel(&view, 6, 1, 0), pixel(&data, 3, 0, 0));
    assert_eq!(pixel(&view, 6, 2, 0), pixel(&data, 3, 1, 0));
    assert_eq!(pixel(&view, 6, 3, 0), pixel(&data, 3, 2, 0));
    assert_eq!(pixel(&view, 6, 4, 0), [0, 0, 0, 0]);
    assert_eq!(pixel(&view, 6, 5, 0), [0, 0, 0, 0]);
    for x in 0..6 {
        assert_eq!(pixel(&view, 6, x, 1), [0, 0, 0, 0]);
    }
}

#[test]
fn wide_image_is_cropped_to_its_middle() {
    let data = numbered(300, 100);
    let view = buffer_window(&data, (300, 100), (100, 100), (0, 0));
    assert_eq!(view.len(), 100 * 100 * 4);
    for y in 0..100u32 {
        for x in 0..100u32 {
            assert_eq!(pixel(&view, 100, x, y), pixel(&data, 300, x + 100, y));
        }
    }
}

#[test]
fn pan_moves_the_crop() {
    let data = numbered(300, 100);
    let right = buffer_window(&data, (300, 100), (100, 100), (100, 0));
    let left = buffer_window(&data, (300, 100), (100, 100), (-100, 0));
    for y in 0..100u32 {
        for x in 0..100u32 {
            assert_eq!(pixel(&right, 100, x, y), pixel(&data, 300, x + 200, y));
            assert_eq!(pixel(&left, 100, x, y), pixel(&data, 300, x, y));
        }
    }
}

#[test]
fn crop_on_one_axis_and_padding_on_the_other() {
    // Wider than the window, and less high.
    let data = numbered(8, 2);
    let view = buffer_window(&data, (8, 2), (4, 6), (1, 0));
    assert_eq!(view.len(), 4 * 6 * 4);
    // Columns 8/2 + 1 - 4/2 = 3 to 7; rows padded by (6 - 2) / 2 = 2.
    for y in 0..6u32 {
        for x in 0..4u32 {
            let shown = pixel(&view, 4, x, y);
            if (2..4).contains(&y) {
                assert_eq!(shown, pixel(&data, 8, x + 3, y - 2));
            } else {
                assert_eq!(shown, [0, 0, 0, 0]);
            }
        }
    }
}

#[test]
fn pan_beyond_the_image_copies_nothing() {
    let data = numbered(8, 8);
    // The span starts where the image ends: no column is left to copy.
    let view = buffer_window(&data, (8, 8), (4, 4), (1000, 0));
    assert_eq!(view, vec![0u8; 4 * 4 * 4]);
    let view = buffer_window(&data, (8, 8), (4, 4), (0, -1000));
    for y in 0..4u32 {
        for x in 0..4u32 {
            assert_eq!(pixel(&view, 4, x, y), pixel(&data, 8, x + 2, y));
        }
    }
}

#[test]
fn pan_past_the_limit_shows_what_is_left() {
    let data = numbered(8, 1);
    // Start at 8/2 + 3 - 4/2 = 5: three columns are left, the fourth stays empty.
    let view = buffer_window(&data, (8, 1), (4, 1), (3, 0));
    assert_eq!(pixel(&view, 4, 0, 0), pixel(&data, 8, 5, 0));
    assert_eq!(pixel(&view, 4, 1, 0), pixel(&data, 8, 6, 0));
    assert_eq!(pixel(&view, 4, 2, 0), pixel(&data, 8, 7, 0));
    assert_eq!(pixel(&view, 4, 3, 0), [0, 0, 0, 0]);
}

#[test]
fn empty_image_and_empty_window() {
    let view = buffer_window(&[], (0, 0), (2, 2), (0, 0));
    assert_eq!(view, vec![0u8; 16]);
    let data = numbered(2, 2);
    let view = buffer_window(&data, (2, 2), (0, 0), (0, 0));
    assert!(view.is_empty());
    let view = buffer_window(&data, (2, 2), (0, 3), (0, 0));
    assert!(view.is_empty());
    let view = buffer_window(&[], (0, 5), (1, 1), (0, 0));
    assert_eq!(view, vec![0u8; 4]);
}

#[test]
fn image_of_the_windows_size_is_shown_whole() {
    let data = numbered(5, 4);
    let view = buffer_window(&data, (5, 4), (5, 4), (0, 0));
    assert_eq!(view, data);
}

#[test]
fn visible_span_is_start_and_length() {
    assert_eq!(visible_span(300, 100, 0), (100, 100));
    assert_eq!(visible_span(300, 100, 100), (200, 100));
    assert_eq!(visible_span(300, 100, 130), (230, 70));
    assert_eq!(visible_span(300, 100, 1000), (300, 0));
    assert_eq!(visible_span(300, 100, -1000), (0, 100));
    assert_eq!(visible_span(100, 200, 0), (0, 100));
    assert_eq!(visible_span(100, 200, 60), (10, 90));
    assert_eq!(visible_span(0, 200, 0), (0, 0));
    assert_eq!(visible_span(u32::MAX, 1, 0), (0x7fff_ffff, 1));
    assert_eq!(visible_span(u32::MAX, u32::MAX, i32::MAX), (0x7fff_ffff, 0x8000_0000));
}

#[test]
fn shift_offset_moves_and_holds() {
    assert_eq!(shift_offset(0, 30, 300, 100), 30);
    assert_eq!(shift_offset(90, 30, 300, 100), 100);
    assert_eq!(shift_offset(-90, -30, 300, 100), -100);
    assert_eq!(shift_offset(0, 30, 100, 100), 0);
    assert_eq!(shift_offset(i32::MAX, i32::MAX, 300, 100), 100);
    assert_eq!(shift_offset(i32::MIN, i32::MIN, 300, 100), -100);
    assert_eq!(shift_offset(i32::MAX, 1, u32::MAX, 0), i32::MAX);
}

#[test]
fn a_window_on_a_very_wide_image_without_height() {
    // No pixels at all, but more columns than a signed number counts.
    let view = buffer_window(&[], (u32::MAX, 0), (2, 1), (0, 0));
    assert_eq!(view, vec![0u8; 8]);
}
