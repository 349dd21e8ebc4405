use suggestline::executor::ExecError;
use suggestline::session::{Action, KeyEvent, Suggester};

fn buffer_text(s: &Suggester) -> String {
    s.buffer.characters.iter().collect()
}

fn with_candidates(lines: &str) -> Suggester {
    let mut s = Suggester::new();
    let diag = s.apply_query_result(Ok(lines.to_string()));
    assert!(diag.is_none());
    s
}

#[test]
fn success_output_becomes_candidates_in_order() {
    let s = with_candidates("a\nb\n");
    assert_eq!(s.engine.candidates, vec!["a".to_string(), "b".to_string()]);
    assert_eq!(s.engine.selection, 0);
}

#[test]
fn failure_leaves_candidates_empty_and_reports_text() {
    let mut s = Suggester::new();
    let diag = s.apply_query_result(Err(ExecError::NonZeroExit("boom".to_string())));
    assert_eq!(s.engine.candidates.len(), 0);
    assert_eq!(diag, Some("boom".to_string()));
}

#[test]
fn interior_empty_lines_are_kept_trailing_one_dropped() {
    let s = with_candidates("a\n\nb");
    assert_eq!(
        s.engine.candidates,
        vec!["a".to_string(), "".to_string(), "b".to_string()]
    );
    let s = with_candidates("");
    assert_eq!(s.engine.candidates.len(), 0);
}

#[test]
fn selection_navigation_is_clamped() {
    let mut s = with_candidates("one\ntwo\n");
    s.suggestion_down();
    s.suggestion_down();
    assert_eq!(s.engine.selection, 2);
    s.suggestion_down();
    assert_eq!(s.engine.selection, 2);
    s.suggestion_up();
    s.suggestion_up();
    assert_eq!(s.engine.selection, 0);
    s.suggestion_up();
    assert_eq!(s.engine.selection, 0);
}

#[test]
fn selection_down_on_empty_list_is_noop() {
    let mut s = Suggester::new();
    s.suggestion_down();
    assert_eq!(s.engine.selection, 0);
    assert_eq!(s.engine.candidates.len(), 0);
}

#[test]
fn promotion_on_insert() {
    let mut s = with_candidates("ls -la\nls -l\n");
    s.suggestion_down();
    s.suggestion_down();
    assert_eq!(s.engine.selection, 2);
    s.char_insert('x');
    assert_eq!(buffer_text(&s), "ls -lx");
    assert_eq!(s.engine.selection, 0);
    assert_eq!(s.engine.candidates.len(), 0);
}

#[test]
fn promotion_on_delete() {
    let mut s = with_candidates("abc\n");
    s.suggestion_down();
    s.char_delete();
    assert_eq!(buffer_text(&s), "ab");
    assert_eq!(s.engine.selection, 0);
}

#[test]
fn display_follows_selection() {
    let mut s = with_candidates("one\ntwo\n");
    s.buffer.insert('q');
    assert_eq!(s.display(), "q");
    s.suggestion_down();
    assert_eq!(s.display(), "one");
    s.suggestion_down();
    assert_eq!(s.display(), "two");
}

#[test]
fn edits_reset_selection_and_candidates() {
    let mut s = with_candidates("one\n");
    s.suggestion_down();
    s.char_insert('z');
    assert_eq!(s.engine.selection, 0);
    assert_eq!(s.engine.candidates.len(), 0);
}

#[test]
fn dispatch_action_table() {
    let mut s = Suggester::new();
    assert!(matches!(s.dispatch(KeyEvent::Printable('a')), Action::Requery));
    assert_eq!(buffer_text(&s), "a");
    assert!(matches!(s.dispatch(KeyEvent::Backspace), Action::Requery));
    assert_eq!(buffer_text(&s), "");
    assert!(matches!(s.dispatch(KeyEvent::Left), Action::Redraw));
    assert!(matches!(s.dispatch(KeyEvent::Right), Action::Redraw));
    assert!(matches!(s.dispatch(KeyEvent::Home), Action::Redraw));
    assert!(matches!(s.dispatch(KeyEvent::End), Action::Redraw));
    assert!(matches!(s.dispatch(KeyEvent::WordBackward), Action::Redraw));
    assert!(matches!(s.dispatch(KeyEvent::WordForward), Action::Redraw));
    assert!(matches!(s.dispatch(KeyEvent::SelectionDown), Action::Redraw));
    assert!(matches!(s.dispatch(KeyEvent::SelectionUp), Action::Redraw));
    assert!(matches!(s.dispatch(KeyEvent::Enter), Action::Finish));
    assert!(matches!(s.dispatch(KeyEvent::Interrupt), Action::Quit));
    assert!(matches!(s.dispatch(KeyEvent::Ignored), Action::Ignore));
}

#[test]
fn selection_stays_in_bounds_over_a_long_sequence() {
    let mut s = Suggester::new();
    let check = |s: &Suggester| {
        assert!(s.engine.selection <= s.engine.candidates.len());
        assert!(s.buffer.cursor <= s.buffer.characters.len());
    };
    s.dispatch(KeyEvent::Printable('l'));
    check(&s);
    s.apply_query_result(Ok("ls\nlsblk\nlsof\n".to_string()));
    check(&s);
    s.dispatch(KeyEvent::SelectionDown);
    check(&s);
    s.dispatch(KeyEvent::SelectionDown);
    check(&s);
    s.dispatch(KeyEvent::SelectionDown);
    check(&s);
    s.dispatch(KeyEvent::SelectionDown);
    check(&s);
    s.dispatch(KeyEvent::Backspace);
    check(&s);
    s.dispatch(KeyEvent::SelectionUp);
    check(&s);
    s.dispatch(KeyEvent::WordBackward);
    check(&s);
}
