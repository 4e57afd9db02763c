use scripture_reader::layout::Rect;
use scripture_reader::scroll::{clamp_scroll, scroll_down, scroll_up, wrapped_line_count};
use scripture_reader::text::{StyledLine, StyledSpan, StyledText};

fn line(parts: &[&str]) -> StyledLine {
    StyledLine {
        spans: parts.iter().map(|p| StyledSpan { text: p.to_string(), bold: false, italic: false }).collect(),
        alignment: None,
    }
}

fn text(lines: Vec<StyledLine>) -> StyledText {
    StyledText { lines }
}

#[test]
fn each_line_takes_a_row_and_one_more_for_each_full_width() {
    let model = text(vec![line(&["0123456789"]), line(&[]), line(&["abc"]), line(&["01234567"])]);
    assert_eq!(wrapped_line_count(&model, 4), 3 + 1 + 1 + 3);
    assert_eq!(wrapped_line_count(&model, 10), 2 + 1 + 1 + 1);
    assert_eq!(wrapped_line_count(&model, 11), 4);
    assert_eq!(wrapped_line_count(&model, 1), 11 + 1 + 4 + 9);
}

#[test]
fn width_of_a_line_is_the_sum_of_its_spans() {
    let model = text(vec![line(&["01234", "56", "789"])]);
    assert_eq!(wrapped_line_count(&model, 4), 3);
    assert_eq!(wrapped_line_count(&model, 5), 3);
    assert_eq!(wrapped_line_count(&model, 6), 2);
}

#[test]
fn wide_and_combining_characters_count_by_display_width() {
    let wide = text(vec![line(&["日本"])]);
    assert_eq!(wrapped_line_count(&wide, 3), 2);
    assert_eq!(wrapped_line_count(&wide, 4), 2);
    assert_eq!(wrapped_line_count(&wide, 5), 1);
    let combining = text(vec![line(&["e\u{301}e\u{301}"])]);
    assert_eq!(wrapped_line_count(&combining, 2), 2);
    assert_eq!(wrapped_line_count(&combining, 3), 1);
}

#[test]
fn viewport_without_width_shows_no_row() {
    let model = text(vec![line(&["0123456789"]), line(&["abc"])]);
    assert_eq!(wrapped_line_count(&model, 0), 0);
    assert_eq!(clamp_scroll(&model, 0, 1, 9), 0);
}

#[test]
fn empty_text_has_no_rows() {
    let model = text(Vec::new());
    assert_eq!(wrapped_line_count(&model, 80), 0);
    assert_eq!(clamp_scroll(&model, 80, 0, 5), 0);
}

#[test]
fn offset_is_the_request_up_to_the_rows_beyond_the_viewport() {
    let model = text(vec![line(&["0123456789"]), line(&["0123456789"]), line(&["0123456789"])]);
    assert_eq!(wrapped_line_count(&model, 4), 9);
    assert_eq!(clamp_scroll(&model, 4, 5, 0), 0);
    assert_eq!(clamp_scroll(&model, 4, 5, 2), 2);
    assert_eq!(clamp_scroll(&model, 4, 5, 4), 4);
    assert_eq!(clamp_scroll(&model, 4, 5, 5), 4);
    assert_eq!(clamp_scroll(&model, 4, 5, 7), 4);
    assert_eq!(clamp_scroll(&model, 4, 5, u16::MAX), 4);
}

#[test]
fn text_that_fits_cannot_be_scrolled() {
    let model = text(vec![line(&["ab"]), line(&["cd"])]);
    assert_eq!(clamp_scroll(&model, 10, 2, 1), 0);
    assert_eq!(clamp_scroll(&model, 10, 3, 9), 0);
    assert_eq!(clamp_scroll(&model, 10, 1, 9), 1);
    assert_eq!(clamp_scroll(&model, 10, 0, 9), 2);
}

#[test]
fn scrolling_down_moves_one_row_within_bounds() {
    let model = text(vec![line(&["a"]), line(&["b"]), line(&["c"]), line(&["d"])]);
    assert_eq!(scroll_down(&model, 10, 2, 0), 1);
    assert_eq!(scroll_down(&model, 10, 2, 1), 2);
    assert_eq!(scroll_down(&model, 10, 2, 2), 2);
    assert_eq!(scroll_down(&model, 10, 2, 9), 2);
    assert_eq!(scroll_down(&model, 10, 2, u16::MAX), 2);
    assert_eq!(scroll_down(&model, 10, 9, 0), 0);
}

#[test]
fn scrolling_up_stops_at_the_top() {
    assert_eq!(scroll_up(0), 0);
    assert_eq!(scroll_up(1), 0);
    assert_eq!(scroll_up(9), 8);
    assert_eq!(scroll_up(u16::MAX), u16::MAX - 1);
}

#[test]
fn rectangle_edges_are_capped_at_the_largest_cell() {
    let r = Rect { x: 2, y: 3, width: 10, height: 4 };
    assert_eq!((r.left(), r.right(), r.top(), r.bottom()), (2, 12, 3, 7));
    let far = Rect { x: 65530, y: 65535, width: 10, height: 1 };
    assert_eq!((far.right(), far.bottom()), (65535, 65535));
    assert_eq!(Rect::empty(), Rect { x: 0, y: 0, width: 0, height: 0 });
}

#[test]
fn rectangle_holds_its_cells_and_none_behind_its_edges() {
    let r = Rect { x: 2, y: 3, width: 10, height: 4 };
    assert!(r.contains(2, 3));
    assert!(r.contains(11, 6));
    assert!(r.contains(5, 5));
    assert!(r.contains(11, 3));
    assert!(r.contains(2, 6));
    assert!(!r.contains(12, 6));
    assert!(!r.contains(11, 7));
    assert!(!r.contains(12, 7));
    assert!(!r.contains(1, 5));
    assert!(!r.contains(5, 2));
    assert!(!r.contains(13, 5));
    assert!(!r.contains(5, 8));
}

#[test]
fn rectangle_without_extent_holds_no_cell() {
    assert!(!Rect::empty().contains(0, 0));
    assert!(!Rect::empty().contains(1, 0));
    assert!(!Rect { x: 4, y: 4, width: 0, height: 3 }.contains(4, 4));
    assert!(!Rect { x: 4, y: 4, width: 3, height: 0 }.contains(4, 4));
    assert!(Rect { x: 4, y: 4, width: 1, height: 1 }.contains(4, 4));
    assert!(!Rect { x: 4, y: 4, width: 1, height: 1 }.contains(5, 4));
    assert!(!Rect { x: 4, y: 4, width: 1, height: 1 }.contains(4, 5));
}
