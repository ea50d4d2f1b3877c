use scroll::cmd::{Cmd, Dir, SearchCmd, ViewCmd};
use scroll::key::Key;
use scroll::mode::Mode;
use scroll::numfmt::{make_spaces, usize_to_string};
use scroll::search::{find_in_line, find_line_from, line_contains};

#[test]
fn line_contains_finds_literal_substrings() {
    assert!(line_contains("hello world", "lo w"));
    assert!(line_contains("hello", "hello"));
    assert!(line_contains("hello", ""));
    assert!(!line_contains("hello", "world"));
    assert!(!line_contains("", "x"));
    // case-sensitive
    assert!(!line_contains("Hello", "hello"));
}

#[test]
fn find_in_line_returns_the_first_occurrence() {
    assert_eq!(find_in_line("abcabc", "bc"), Some(1));
    assert_eq!(find_in_line("abcabc", "abc"), Some(0));
    assert_eq!(find_in_line("abc", "d"), None);
    assert_eq!(find_in_line("aaa", "aa"), Some(0));
}

#[test]
fn find_line_from_scans_forward_only() {
    let lines: Vec<String> =
        vec!["one".into(), "two".into(), "three".into(), "two more".into()];
    assert_eq!(find_line_from(&lines, "two", 0), Some(1));
    assert_eq!(find_line_from(&lines, "two", 2), Some(3));
    assert_eq!(find_line_from(&lines, "two", 4), None);
    assert_eq!(find_line_from(&lines, "five", 0), None);
}

#[test]
fn decimal_rendering_is_exact() {
    assert_eq!(usize_to_string(0), "0");
    assert_eq!(usize_to_string(7), "7");
    assert_eq!(usize_to_string(10), "10");
    assert_eq!(usize_to_string(105), "105");
    assert_eq!(usize_to_string(98765), "98765");
}

#[test]
fn make_spaces_is_exact() {
    assert_eq!(make_spaces(0), "");
    assert_eq!(make_spaces(3), "   ");
}

#[test]
fn view_keys_map_to_their_commands() {
    assert!(matches!(ViewCmd::from_key(Key::Char('q')), ViewCmd::Quit));
    assert!(matches!(ViewCmd::from_key(Key::Ctrl('c')), ViewCmd::Quit));
    assert!(matches!(ViewCmd::from_key(Key::Char('j')), ViewCmd::Scroll(Dir::Down(1))));
    assert!(matches!(ViewCmd::from_key(Key::Down), ViewCmd::Scroll(Dir::Down(1))));
    assert!(matches!(ViewCmd::from_key(Key::Char('k')), ViewCmd::Scroll(Dir::Up(1))));
    assert!(matches!(ViewCmd::from_key(Key::Char('n')), ViewCmd::NextSearchResult));
    assert!(matches!(ViewCmd::from_key(Key::Home), ViewCmd::Scroll(Dir::Top)));
    assert!(matches!(ViewCmd::from_key(Key::Char('G')), ViewCmd::Scroll(Dir::Bottom)));
    assert!(matches!(ViewCmd::from_key(Key::Ctrl('d')), ViewCmd::Scroll(Dir::HalfPageDown)));
    assert!(matches!(ViewCmd::from_key(Key::PageUp), ViewCmd::Scroll(Dir::HalfPageUp)));
    assert!(matches!(ViewCmd::from_key(Key::Char('/')), ViewCmd::StartSearching));
    assert!(matches!(ViewCmd::from_key(Key::Esc), ViewCmd::Noop));
}

#[test]
fn search_keys_map_to_their_commands() {
    assert!(matches!(SearchCmd::from_key(Key::Char('\n')), SearchCmd::Confirm));
    assert!(matches!(SearchCmd::from_key(Key::Char('x')), SearchCmd::EnterText('x')));
    assert!(matches!(SearchCmd::from_key(Key::Backspace), SearchCmd::RemoveChar));
    assert!(matches!(SearchCmd::from_key(Key::Up), SearchCmd::Noop));
}

#[test]
fn cmd_routing_follows_the_mode() {
    let viewing = Mode::Viewing(None);
    let searching = Mode::Searching(String::new());
    assert!(matches!(Cmd::from_key(&viewing, Key::Char('q')), Cmd::View(ViewCmd::Quit)));
    assert!(matches!(
        Cmd::from_key(&searching, Key::Char('q')),
        Cmd::Search(SearchCmd::EnterText('q'))
    ));
}
