use scroll::cmd::Dir;
use scroll::key::Key;
use scroll::mode::Mode;
use scroll::state::{Event, State};

fn lines(texts: &[&str]) -> Vec<String> {
    texts.iter().map(|t| t.to_string()).collect()
}

fn numbered(n: usize) -> Vec<String> {
    (0..n).map(|i| format!("line {}", i)).collect()
}

#[test]
fn new_state_is_empty_and_dirty() {
    let st = State::new(80, 10);
    assert_eq!(st.data.len(), 0);
    assert_eq!(st.offset, 0);
    assert!(st.dirty);
    assert!(matches!(st.mode, Mode::Viewing(None)));
}

#[test]
fn bottom_on_25_lines_height_10_gives_offset_16() {
    let mut st = State::new(80, 10);
    st.append(numbered(25));
    st.scroll(Dir::Bottom);
    assert_eq!(st.offset, 16);
}

#[test]
fn top_always_returns_to_zero() {
    let mut st = State::new(80, 10);
    st.append(numbered(25));
    st.scroll(Dir::Down(7));
    st.scroll(Dir::Top);
    assert_eq!(st.offset, 0);
    st.scroll(Dir::Bottom);
    st.scroll(Dir::Top);
    assert_eq!(st.offset, 0);
}

#[test]
fn up_then_down_away_from_boundaries_is_a_no_op() {
    let mut st = State::new(80, 10);
    st.append(numbered(25));
    st.scroll(Dir::Down(5));
    assert_eq!(st.offset, 5);
    st.scroll(Dir::Up(3));
    st.scroll(Dir::Down(3));
    assert_eq!(st.offset, 5);
}

#[test]
fn scrolling_never_leaves_bounds() {
    let mut st = State::new(80, 10);
    st.append(numbered(25));
    st.scroll(Dir::Up(100));
    assert_eq!(st.offset, 0);
    st.scroll(Dir::Down(1000));
    assert_eq!(st.offset, 16);
    st.scroll(Dir::HalfPageUp);
    assert_eq!(st.offset, 11);
    st.scroll(Dir::HalfPageDown);
    assert_eq!(st.offset, 16);
}

#[test]
fn scroll_on_empty_buffer_stays_at_zero() {
    let mut st = State::new(80, 10);
    st.scroll(Dir::Down(3));
    assert_eq!(st.offset, 0);
    st.scroll(Dir::Bottom);
    assert_eq!(st.offset, 0);
}

#[test]
fn no_op_scroll_does_not_mark_dirty() {
    let mut st = State::new(80, 10);
    st.append(numbered(25));
    st.clear_dirty();
    st.scroll(Dir::Up(1));
    assert!(!st.dirty);
    st.scroll(Dir::Down(1));
    assert!(st.dirty);
}

#[test]
fn append_inside_viewport_marks_dirty() {
    let mut st = State::new(80, 10);
    st.clear_dirty();
    st.append(lines(&["a", "b"]));
    assert!(st.dirty);
    assert_eq!(st.data.len(), 2);
}

#[test]
fn append_outside_viewport_keeps_offset_and_dirty_flag() {
    let mut st = State::new(80, 10);
    st.append(numbered(50));
    st.scroll(Dir::Up(100));
    assert_eq!(st.offset, 0);
    st.clear_dirty();
    st.append(numbered(30));
    assert_eq!(st.offset, 0);
    assert!(!st.dirty);
    assert_eq!(st.data.len(), 80);
}

#[test]
fn empty_batch_changes_nothing() {
    let mut st = State::new(80, 10);
    st.clear_dirty();
    st.append(Vec::new());
    assert!(!st.dirty);
    assert_eq!(st.data.len(), 0);
}

#[test]
fn resize_reclamps_offset_and_marks_dirty() {
    let mut st = State::new(80, 10);
    st.append(numbered(25));
    st.scroll(Dir::Bottom);
    assert_eq!(st.offset, 16);
    st.clear_dirty();
    // a taller terminal shows more rows, so the bottom offset shrinks
    st.set_viewport(80, 20);
    assert_eq!(st.offset, 6);
    assert!(st.dirty);
}

#[test]
fn resize_to_the_same_size_changes_nothing() {
    let mut st = State::new(80, 10);
    st.append(numbered(25));
    st.clear_dirty();
    st.set_viewport(80, 10);
    assert_eq!(st.offset, 0);
    assert!(!st.dirty);
}

#[test]
fn quit_key_quits_only_in_viewing_mode() {
    let mut st = State::new(80, 10);
    assert!(st.handle_key(Key::Char('q')));
    let mut st2 = State::new(80, 10);
    assert!(!st2.handle_key(Key::Char('/')));
    assert!(!st2.handle_key(Key::Char('q')));
    assert!(matches!(&st2.mode, Mode::Searching(s) if s == "q"));
}

#[test]
fn update_dispatches_events() {
    let mut st = State::new(80, 10);
    assert!(!st.update(Event::MoreData(lines(&["x"]))));
    assert_eq!(st.data.len(), 1);
    assert!(!st.update(Event::Key(Key::Char('j'))));
    assert!(st.update(Event::Key(Key::Ctrl('c'))));
}

#[test]
fn typing_builds_search_input() {
    let mut st = State::new(80, 10);
    st.handle_key(Key::Char('/'));
    assert!(matches!(&st.mode, Mode::Searching(s) if s.is_empty()));
    st.handle_key(Key::Char('e'));
    st.handle_key(Key::Char('r'));
    st.handle_key(Key::Char('r'));
    assert!(matches!(&st.mode, Mode::Searching(s) if s == "err"));
    st.handle_key(Key::Backspace);
    assert!(matches!(&st.mode, Mode::Searching(s) if s == "er"));
}

#[test]
fn backspace_on_empty_input_is_a_no_op() {
    let mut st = State::new(80, 10);
    st.handle_key(Key::Char('/'));
    st.handle_key(Key::Backspace);
    assert!(matches!(&st.mode, Mode::Searching(s) if s.is_empty()));
    assert_eq!(st.offset, 0);
}

#[test]
fn confirm_with_unique_match_scrolls_there() {
    let mut st = State::new(80, 10);
    let mut data = numbered(20);
    data[5] = "an err happened".to_string();
    st.append(data);
    st.handle_key(Key::Char('/'));
    st.handle_key(Key::Char('e'));
    st.handle_key(Key::Char('r'));
    st.handle_key(Key::Char('r'));
    st.handle_key(Key::Char('\n'));
    assert_eq!(st.offset, 5);
    assert!(matches!(&st.mode, Mode::Viewing(Some(t)) if t == "err"));
    assert!(st.dirty);
}

#[test]
fn confirm_with_absent_term_keeps_offset_and_clears_highlight() {
    let mut st = State::new(80, 10);
    st.append(numbered(20));
    st.scroll(Dir::Down(3));
    st.handle_key(Key::Char('/'));
    st.handle_key(Key::Char('z'));
    st.handle_key(Key::Char('z'));
    st.handle_key(Key::Char('\n'));
    assert_eq!(st.offset, 3);
    assert!(matches!(&st.mode, Mode::Viewing(None)));
}

#[test]
fn confirm_with_empty_input_clears_active_term() {
    let mut st = State::new(80, 10);
    st.append(numbered(20));
    let mut data = numbered(0);
    data.push("needle".to_string());
    st.append(data);
    st.handle_key(Key::Char('/'));
    st.handle_key(Key::Char('n'));
    st.handle_key(Key::Char('\n'));
    assert!(matches!(&st.mode, Mode::Viewing(Some(_))));
    st.handle_key(Key::Char('/'));
    st.handle_key(Key::Char('\n'));
    assert!(matches!(&st.mode, Mode::Viewing(None)));
}

#[test]
fn next_match_advances_then_reports_nothing() {
    let mut st = State::new(80, 10);
    let mut data = numbered(30);
    data[4] = "err one".to_string();
    data[9] = "err two".to_string();
    data[13] = "err three".to_string();
    st.append(data);
    st.handle_key(Key::Char('/'));
    st.handle_key(Key::Char('e'));
    st.handle_key(Key::Char('r'));
    st.handle_key(Key::Char('r'));
    st.handle_key(Key::Char('\n'));
    assert_eq!(st.offset, 4);
    st.handle_key(Key::Char('n'));
    assert_eq!(st.offset, 9);
    st.handle_key(Key::Char('n'));
    assert_eq!(st.offset, 13);
    // past the last occurrence: the offset no longer moves
    st.handle_key(Key::Char('n'));
    assert_eq!(st.offset, 13);
    st.handle_key(Key::Char('n'));
    assert_eq!(st.offset, 13);
}

#[test]
fn next_match_without_active_term_changes_nothing() {
    let mut st = State::new(80, 10);
    st.append(numbered(20));
    st.clear_dirty();
    st.handle_key(Key::Char('n'));
    assert_eq!(st.offset, 0);
    assert!(!st.dirty);
}

#[test]
fn unbound_keys_are_no_ops_in_both_modes() {
    let mut st = State::new(80, 10);
    st.append(numbered(20));
    st.clear_dirty();
    assert!(!st.handle_key(Key::Esc));
    assert_eq!(st.offset, 0);
    assert!(!st.dirty);
    st.handle_key(Key::Char('/'));
    assert!(!st.handle_key(Key::Delete));
    assert!(matches!(&st.mode, Mode::Searching(s) if s.is_empty()));
}
