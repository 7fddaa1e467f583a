use ted::text_buffer::TedBuffer;
use ted::viewport::BufferRenderer;

fn type_str(b: &mut TedBuffer, s: &str) {
    for ch in s.chars() {
        b.insert_char(ch);
    }
}

fn five_line_buffer() -> TedBuffer {
    let mut b = TedBuffer::new();
    type_str(&mut b, "line0");
    for s in ["line1", "line2", "line3", "line4"] {
        b.insert_empty_line();
        type_str(&mut b, s);
    }
    b
}

fn to_string_vec(lines: &[Vec<char>]) -> Vec<String> {
    lines.iter().map(|l| l.iter().collect()).collect()
}

#[test]
fn window_scrolls_down_to_keep_cursor_visible() {
    // display_height = 2, five lines, cursor on row 4
    let b = five_line_buffer();
    assert_eq!(b.cursor_y(), 4);
    let mut w = BufferRenderer::new();
    w.update_view_window(80, 2, &b);
    assert_eq!(w.start_row(), 3);
    assert_eq!(w.start_col(), 0);
}

#[test]
fn window_does_not_move_when_cursor_is_visible() {
    let mut b = TedBuffer::new();
    type_str(&mut b, "ab");
    let mut w = BufferRenderer::new();
    w.update_view_window(80, 24, &b);
    assert_eq!(w.start_row(), 0);
    assert_eq!(w.start_col(), 0);
}

#[test]
fn window_scrolls_back_up_when_cursor_leaves_the_top() {
    let mut b = five_line_buffer();
    let mut w = BufferRenderer::new();
    w.update_view_window(80, 2, &b);
    assert_eq!(w.start_row(), 3);
    for _ in 0..4 {
        b.move_cursor_up();
    }
    assert_eq!(b.cursor_y(), 0);
    w.update_view_window(80, 2, &b);
    assert_eq!(w.start_row(), 0);
}

#[test]
fn window_scrolls_right_and_back() {
    let mut b = TedBuffer::new();
    type_str(&mut b, "0123456789");
    let mut w = BufferRenderer::new();
    w.update_view_window(4, 24, &b);
    // cursor at column 10, width 4: first visible column becomes 10+1-4
    assert_eq!(w.start_col(), 7);
    for _ in 0..10 {
        b.move_cursor_left();
    }
    w.update_view_window(4, 24, &b);
    assert_eq!(w.start_col(), 0);
}

#[test]
fn visible_lines_are_the_window_rows() {
    let b = five_line_buffer();
    let mut w = BufferRenderer::new();
    w.update_view_window(80, 2, &b);
    let v = w.visible_lines(&b, 2);
    assert_eq!(to_string_vec(&v), vec!["line3".to_string(), "line4".to_string()]);
}

#[test]
fn visible_lines_slice_columns_from_the_window_origin() {
    let mut b = TedBuffer::new();
    type_str(&mut b, "0123456789");
    b.insert_empty_line();
    type_str(&mut b, "ab");
    b.insert_empty_line();
    type_str(&mut b, "abcdefghij");
    let mut w = BufferRenderer::new();
    w.update_view_window(4, 24, &b);
    assert_eq!(w.start_col(), 7);
    let v = w.visible_lines(&b, 24);
    // lines shorter than the first visible column render as empty
    assert_eq!(
        to_string_vec(&v),
        vec!["789".to_string(), String::new(), "hij".to_string()]
    );
}

#[test]
fn zero_extent_window_moves_just_past_the_cursor() {
    // the far-edge rule start = pos + 1 - extent, taken verbatim at
    // extent 0, puts the origin one past the cursor on each axis
    let b = five_line_buffer();
    assert_eq!(b.cursor_x(), 5);
    assert_eq!(b.cursor_y(), 4);
    let mut w = BufferRenderer::new();
    w.update_view_window(0, 0, &b);
    assert_eq!(w.start_row(), 5);
    assert_eq!(w.start_col(), 6);
    let v = w.visible_lines(&b, 0);
    assert!(v.is_empty());
}

#[test]
fn visible_lines_with_zero_height_are_empty() {
    let b = five_line_buffer();
    let w = BufferRenderer::new();
    let v = w.visible_lines(&b, 0);
    assert!(v.is_empty());
}

#[test]
fn cursor_screen_position_is_window_relative() {
    let b = five_line_buffer();
    assert_eq!(b.cursor_x(), 5);
    assert_eq!(b.cursor_y(), 4);
    let mut w = BufferRenderer::new();
    w.update_view_window(3, 2, &b);
    assert_eq!(w.start_col(), 3);
    assert_eq!(w.start_row(), 3);
    let (sx, sy) = w.view_cursor_position_on_buffer(&b);
    assert_eq!(sx, 2);
    assert_eq!(sy, 1);
}
