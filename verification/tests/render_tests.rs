use scroll::cmd::Dir;
use scroll::key::Key;
use scroll::render::Segment;
use scroll::state::State;

fn numbered(n: usize) -> Vec<String> {
    (0..n).map(|i| format!("line {}", i)).collect()
}

fn row_text(row: &[Segment]) -> String {
    let mut s = String::new();
    for seg in row {
        s.push_str(&seg.text);
    }
    s
}

#[test]
fn empty_buffer_status_is_zero_safe() {
    let st = State::new(80, 10);
    assert_eq!(st.status_text(), "   0% of 0 lines");
}

#[test]
fn empty_buffer_shows_nine_filler_rows() {
    let st = State::new(80, 10);
    let rows = st.render_rows();
    assert_eq!(rows.len(), 9);
    for row in &rows {
        let text = row_text(row);
        assert_eq!(text.len(), 80);
        assert!(text.starts_with('~'));
        assert!(text[1..].chars().all(|c| c == ' '));
        assert!(row.iter().all(|seg| !seg.highlight));
    }
}

#[test]
fn bottom_of_25_lines_reads_100_percent() {
    let mut st = State::new(80, 10);
    st.append(numbered(25));
    st.scroll(Dir::Bottom);
    assert_eq!(st.offset, 16);
    assert_eq!(st.status_text(), " 100% of 25 lines");
}

#[test]
fn half_way_status_percentage_truncates() {
    let mut st = State::new(80, 10);
    st.append(numbered(25));
    st.scroll(Dir::Down(8));
    assert_eq!(st.status_text(), "  50% of 25 lines");
}

#[test]
fn searching_status_shows_indicator_and_input() {
    let mut st = State::new(80, 10);
    st.handle_key(Key::Char('/'));
    st.handle_key(Key::Char('a'));
    st.handle_key(Key::Char('b'));
    assert_eq!(st.status_text(), "/ab");
}

#[test]
fn visible_rows_show_the_buffer_window() {
    let mut st = State::new(20, 5);
    st.append(numbered(10));
    st.scroll(Dir::Down(2));
    let rows = st.render_rows();
    assert_eq!(rows.len(), 4);
    assert_eq!(row_text(&rows[0]), format!("{:<20}", "line 2"));
    assert_eq!(row_text(&rows[3]), format!("{:<20}", "line 5"));
}

#[test]
fn active_term_occurrences_are_highlighted() {
    let mut st = State::new(40, 10);
    let data: Vec<String> = vec!["xerrx err".to_string(), "clean".to_string()];
    st.append(data);
    st.handle_key(Key::Char('/'));
    st.handle_key(Key::Char('e'));
    st.handle_key(Key::Char('r'));
    st.handle_key(Key::Char('r'));
    st.handle_key(Key::Char('\n'));
    let rows = st.render_rows();
    let first: Vec<(String, bool)> =
        rows[0].iter().map(|s| (s.text.clone(), s.highlight)).collect();
    assert_eq!(
        first,
        vec![
            ("x".to_string(), false),
            ("err".to_string(), true),
            ("x ".to_string(), false),
            ("err".to_string(), true),
            ("".to_string(), false),
            (" ".repeat(31), false),
        ]
    );
    // a line without the term renders as one plain run plus padding
    assert!(rows[1].iter().all(|seg| !seg.highlight));
    assert_eq!(row_text(&rows[1]), format!("{:<40}", "clean"));
}

#[test]
fn row_padding_always_reaches_the_width() {
    let mut st = State::new(8, 4);
    st.append(vec!["12345678".to_string(), "abc".to_string(), "".to_string()]);
    let rows = st.render_rows();
    // a line exactly as wide as the terminal is padded to exactly that
    // width: no extra blank row
    assert_eq!(row_text(&rows[0]), "12345678");
    assert_eq!(row_text(&rows[1]), "abc     ");
    // an empty line still paints one full blank row
    assert_eq!(row_text(&rows[2]), "        ");
}

#[test]
fn cursor_hidden_while_viewing_and_placed_while_searching() {
    let mut st = State::new(80, 10);
    assert_eq!(st.cursor_pos(), None);
    st.handle_key(Key::Char('/'));
    st.handle_key(Key::Char('a'));
    st.handle_key(Key::Char('b'));
    assert_eq!(st.cursor_pos(), Some((4, 10)));
}
