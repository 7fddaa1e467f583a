use ted::ebuffer::EBuffer;

fn type_chars(b: &mut EBuffer, s: &str) {
    for ch in s.chars() {
        b.insert_char(ch);
    }
}

fn to_string_vec(lines: &[Vec<char>]) -> Vec<String> {
    lines.iter().map(|l| l.iter().collect()).collect()
}

#[test]
fn ebuffer_starts_empty() {
    let b = EBuffer::new();
    let (lines, start) = b.display_lines(10);
    assert_eq!(start, 0);
    assert_eq!(to_string_vec(&lines), vec![String::new()]);
    assert_eq!(b.cursor_x(), 0);
    assert_eq!(b.cursor_y(), 0);
}

#[test]
fn ebuffer_edit_and_merge() {
    let mut b = EBuffer::new();
    type_chars(&mut b, "ab");
    b.insert_empty_line();
    type_chars(&mut b, "cd");
    b.move_cursor_left();
    b.move_cursor_left();
    assert_eq!(b.cursor_x(), 0);
    assert_eq!(b.cursor_y(), 1);
    b.rm_char_backspace();
    let (lines, start) = b.display_lines(10);
    assert_eq!(start, 0);
    assert_eq!(to_string_vec(&lines), vec!["abcd".to_string()]);
    assert_eq!(b.cursor_x(), 2);
    assert_eq!(b.cursor_y(), 0);
}

#[test]
fn ebuffer_delete_forward_merges() {
    let mut b = EBuffer::new();
    type_chars(&mut b, "ab");
    b.insert_empty_line();
    type_chars(&mut b, "cd");
    let mut cache: Option<usize> = None;
    b.move_cursor_up(&mut cache);
    assert_eq!(b.cursor_x(), 2);
    b.rm_char_delete();
    let (lines, _) = b.display_lines(10);
    assert_eq!(to_string_vec(&lines), vec!["abcd".to_string()]);
}

#[test]
fn ebuffer_sticky_column_with_external_cache() {
    let mut b = EBuffer::new();
    type_chars(&mut b, "abcdefghij");
    b.insert_empty_line();
    type_chars(&mut b, "ab");
    b.insert_empty_line();
    type_chars(&mut b, "0123456789");
    let mut cache: Option<usize> = None;
    b.move_cursor_up(&mut cache);
    b.move_cursor_up(&mut cache);
    assert_eq!(b.cursor_y(), 0);
    // a non-vertical command ends the run: the control loop clears the cache
    cache = None;
    for _ in 0..5 {
        b.move_cursor_left();
    }
    assert_eq!(b.cursor_x(), 5);

    b.move_cursor_down(&mut cache);
    assert_eq!(b.cursor_x(), 2);
    assert_eq!(cache, Some(5));
    b.move_cursor_down(&mut cache);
    assert_eq!(b.cursor_x(), 5);
    assert_eq!(cache, Some(5));
}

#[test]
fn ebuffer_moves_stop_at_boundaries() {
    let mut b = EBuffer::new();
    let mut cache: Option<usize> = None;
    b.move_cursor_left();
    b.move_cursor_up(&mut cache);
    b.rm_char_backspace();
    assert_eq!(b.cursor_x(), 0);
    assert_eq!(b.cursor_y(), 0);
    type_chars(&mut b, "ab");
    b.move_cursor_right();
    b.move_cursor_down(&mut cache);
    b.rm_char_delete();
    let (lines, _) = b.display_lines(10);
    assert_eq!(to_string_vec(&lines), vec!["ab".to_string()]);
    assert_eq!(b.cursor_x(), 2);
    assert_eq!(b.cursor_y(), 0);
}

#[test]
fn display_lines_shows_the_tail_when_buffer_overflows() {
    let mut b = EBuffer::new();
    type_chars(&mut b, "one");
    b.insert_empty_line();
    type_chars(&mut b, "two");
    b.insert_empty_line();
    type_chars(&mut b, "three");
    b.insert_empty_line();
    type_chars(&mut b, "four");
    b.insert_empty_line();
    type_chars(&mut b, "five");

    let (lines, start) = b.display_lines(2);
    assert_eq!(start, 3);
    assert_eq!(to_string_vec(&lines), vec!["four".to_string(), "five".to_string()]);

    let (all, start_all) = b.display_lines(5);
    assert_eq!(start_all, 0);
    assert_eq!(all.len(), 5);
}
