use fiberlamp::config::MAX_FIBERS;
use fiberlamp::geometry::{
    debug_circle_vertex_count, frame_vertex_count, palette_index, segment_style, SegmentStyle,
    FIRST_DRAWN_SEGMENT, MAX_VERTICES, NODES,
};

#[test]
fn last_two_segments_are_tips() {
    for i in FIRST_DRAWN_SEGMENT..NODES {
        let expected = if i >= 18 { SegmentStyle::Tip } else { SegmentStyle::Body };
        assert_eq!(segment_style(i), expected, "segment {}", i);
    }
}

#[test]
fn frame_vertex_counts() {
    assert_eq!(frame_vertex_count(0), 0);
    assert_eq!(frame_vertex_count(1), 108);
    assert_eq!(frame_vertex_count(500), 54000);
    assert_eq!(debug_circle_vertex_count(), 192);
}

#[test]
fn largest_frame_fits_the_vertex_buffer() {
    assert_eq!(MAX_VERTICES, 57000);
    assert!(frame_vertex_count(MAX_FIBERS as usize) + debug_circle_vertex_count() <= MAX_VERTICES);
}

#[test]
fn palette_is_walked_round() {
    assert_eq!(palette_index(0, 64), Some(0));
    assert_eq!(palette_index(63, 64), Some(63));
    assert_eq!(palette_index(64, 64), Some(0));
    assert_eq!(palette_index(130, 64), Some(2));
    assert_eq!(palette_index(7, 1), Some(0));
}

#[test]
fn empty_palette_has_no_entry() {
    assert_eq!(palette_index(5, 0), None);
    assert_eq!(palette_index(0, 0), None);
}
