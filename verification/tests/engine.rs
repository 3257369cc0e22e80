//! Tests of the document, row rendering, navigation and viewport engine.

use hector::editor::help_status;
use hector::editor::open_error_status;
use hector::editor::welcome_line;
use hector::editor::welcome_text;
use hector::editor::MESSAGE_LIFETIME_MS;
use hector::Document;
use hector::Editor;
use hector::KeyEvent;
use hector::Position;
use hector::Row;
use hector::ScreenLine;
use hector::Size;
use hector::StatusMessage;

fn chars(s: &str) -> Vec<char> {
    s.chars().collect()
}

fn text(v: &[char]) -> String {
    v.iter().collect()
}

fn editor_over(content: &str, size: Size) -> Editor {
    let doc = Document::from_text(&chars(content), None);
    Editor::new(doc, size, StatusMessage::from(help_status()))
}

#[test]
fn row_expands_tab_to_next_stop() {
    let row = Row::from_chars(chars("a\tb"));
    assert_eq!(row.len(), 5);
    assert_eq!(text(&row.render(0, 5)), "a   b");

    let row = Row::from_chars(chars("ab\tc"));
    assert_eq!(text(&row.render(0, 5)), "ab  c");

    let row = Row::from_chars(chars("\t"));
    assert_eq!(text(&row.render(0, 4)), "    ");
}

#[test]
fn row_render_clamps_every_range() {
    let row = Row::from_chars(chars("hello"));
    assert_eq!(text(&row.render(0, 5)), "hello");
    assert_eq!(text(&row.render(2, 100)), "llo");
    assert_eq!(text(&row.render(7, 9)), "");
    assert_eq!(text(&row.render(5, 5)), "");
    assert_eq!(text(&row.render(3, 2)), "");
}

#[test]
fn row_render_is_idempotent() {
    let row = Row::from_chars(chars("x\ty"));
    let once = row.render(0, row.len());
    let again = row.render(0, row.len());
    assert_eq!(once, again);

    let rerendered = Row::from_chars(once.clone());
    assert_eq!(rerendered.render(0, rerendered.len()), once);
}

#[test]
fn row_len_is_render_space() {
    let row = Row::from_chars(chars("\tab"));
    assert_eq!(row.len(), 6);
    assert!(!row.is_empty());
    assert!(Row::from_chars(chars("")).is_empty());
}

#[test]
fn document_splits_on_line_boundaries() {
    let doc = Document::from_text(&chars("a\nbb\nccc"), None);
    assert_eq!(doc.len(), 3);
    assert_eq!(text(&doc.row(0).unwrap().render(0, 10)), "a");
    assert_eq!(text(&doc.row(1).unwrap().render(0, 10)), "bb");
    assert_eq!(text(&doc.row(2).unwrap().render(0, 10)), "ccc");
}

#[test]
fn document_final_newline_terminates_last_line() {
    let doc = Document::from_text(&chars("a\nb\n"), None);
    assert_eq!(doc.len(), 2);

    let doc = Document::from_text(&chars("\n"), None);
    assert_eq!(doc.len(), 1);
    assert_eq!(doc.row(0).unwrap().len(), 0);
}

#[test]
fn document_empty_text_has_no_rows() {
    let doc = Document::from_text(&chars(""), None);
    assert_eq!(doc.len(), 0);
    assert!(doc.is_empty());
    assert!(doc.row(0).is_none());

    let doc = Document::default();
    assert!(doc.is_empty());
    assert!(doc.file_name().is_none());
}

#[test]
fn document_keeps_file_name() {
    let doc = Document::from_text(&chars("x"), Some("notes.txt".to_string()));
    assert_eq!(doc.file_name().as_deref(), Some("notes.txt"));
}

#[test]
fn document_round_trip_reproduces_text() {
    let content = "first line\nsecond\nthird one";
    let lines: Vec<&str> = content.split('\n').collect();
    let doc = Document::from_text(&chars(content), None);
    assert_eq!(doc.len(), lines.len());
    for (i, line) in lines.iter().enumerate() {
        let row = doc.row(i).unwrap();
        assert_eq!(text(&row.render(0, row.len())), *line);
    }
}

#[test]
fn down_reclamps_to_shorter_row_then_right_walks_the_long_one() {
    let mut e = editor_over("aaaaa\n\naaaaaaaaaa", Size { width: 80, height: 24 });
    e.cursor_position = Position { x: 5, y: 0 };
    e.move_cursor(KeyEvent::Down);
    assert_eq!(e.cursor_position, Position { x: 0, y: 1 });
    e.move_cursor(KeyEvent::Down);
    assert_eq!(e.cursor_position, Position { x: 0, y: 2 });
    for _ in 0..10 {
        e.move_cursor(KeyEvent::Right);
    }
    assert_eq!(e.cursor_position, Position { x: 10, y: 2 });
    e.move_cursor(KeyEvent::Right);
    assert_eq!(e.cursor_position, Position { x: 10, y: 2 });
}

#[test]
fn left_at_origin_saturates() {
    let mut e = editor_over("abc", Size { width: 80, height: 24 });
    e.move_cursor(KeyEvent::Left);
    assert_eq!(e.cursor_position, Position { x: 0, y: 0 });
    e.move_cursor(KeyEvent::Up);
    assert_eq!(e.cursor_position, Position { x: 0, y: 0 });
}

#[test]
fn home_end_page_up_page_down() {
    let mut e = editor_over("abcde\nfg", Size { width: 80, height: 24 });
    e.move_cursor(KeyEvent::End);
    assert_eq!(e.cursor_position, Position { x: 5, y: 0 });
    e.move_cursor(KeyEvent::Home);
    assert_eq!(e.cursor_position, Position { x: 0, y: 0 });
    e.cursor_position = Position { x: 5, y: 0 };
    e.move_cursor(KeyEvent::PageDown);
    assert_eq!(e.cursor_position, Position { x: 0, y: 2 });
    e.move_cursor(KeyEvent::PageUp);
    assert_eq!(e.cursor_position, Position { x: 0, y: 0 });
}

#[test]
fn down_rests_one_past_the_last_row() {
    let mut e = editor_over("a\nb", Size { width: 80, height: 24 });
    e.move_cursor(KeyEvent::Down);
    e.move_cursor(KeyEvent::Down);
    assert_eq!(e.cursor_position, Position { x: 0, y: 2 });
    e.move_cursor(KeyEvent::Down);
    assert_eq!(e.cursor_position, Position { x: 0, y: 2 });
}

#[test]
fn scroll_follows_cursor_past_the_right_edge() {
    let mut e = editor_over("x", Size { width: 80, height: 24 });
    e.cursor_position = Position { x: 85, y: 0 };
    e.scroll();
    assert_eq!(e.offset, Position { x: 6, y: 0 });
    e.scroll();
    assert_eq!(e.offset, Position { x: 6, y: 0 });
}

#[test]
fn scroll_jumps_back_to_a_cursor_before_the_window() {
    let mut e = editor_over("x", Size { width: 10, height: 5 });
    e.offset = Position { x: 10, y: 10 };
    e.cursor_position = Position { x: 3, y: 4 };
    e.scroll();
    assert_eq!(e.offset, Position { x: 3, y: 4 });
}

#[test]
fn scroll_keeps_a_visible_cursor_still() {
    let mut e = editor_over("x", Size { width: 10, height: 5 });
    e.offset = Position { x: 2, y: 1 };
    e.cursor_position = Position { x: 11, y: 5 };
    e.scroll();
    assert_eq!(e.offset, Position { x: 2, y: 1 });
}

#[test]
fn first_paint_of_empty_document_shows_banner_on_row_height_over_three() {
    let e = editor_over("", Size { width: 80, height: 24 });
    let msg = chars(&welcome_text("1.2.3"));
    let lines = e.frame(&msg);
    assert_eq!(lines.len(), 24);
    for (r, line) in lines.iter().enumerate() {
        if r == 8 {
            let expected = format!("~{}{}", " ".repeat(23), "Hector editor -- version 1.2.3\r");
            match line {
                ScreenLine::Welcome(t) => assert_eq!(text(t), expected),
                other => panic!("row 8 was {:?}", other),
            }
        } else {
            assert!(matches!(line, ScreenLine::Placeholder), "row {} not a placeholder", r);
        }
    }
}

#[test]
fn frame_slices_rows_through_the_viewport() {
    let mut e = editor_over("hello\nworld", Size { width: 3, height: 4 });
    let msg = chars("m");
    let lines = e.frame(&msg);
    assert_eq!(lines.len(), 4);
    assert!(matches!(&lines[0], ScreenLine::Content(t) if text(t) == "hel"));
    assert!(matches!(&lines[1], ScreenLine::Content(t) if text(t) == "wor"));
    assert!(matches!(&lines[2], ScreenLine::Placeholder));
    assert!(matches!(&lines[3], ScreenLine::Placeholder));

    e.offset = Position { x: 1, y: 1 };
    let lines = e.frame(&msg);
    assert!(matches!(&lines[0], ScreenLine::Content(t) if text(t) == "orl"));
    assert!(matches!(&lines[1], ScreenLine::Placeholder));
}

#[test]
fn no_banner_on_a_nonempty_document() {
    let e = editor_over("x", Size { width: 80, height: 24 });
    let lines = e.frame(&chars("m"));
    assert!(matches!(&lines[8], ScreenLine::Placeholder));
}

#[test]
fn welcome_line_truncates_to_a_narrow_terminal() {
    let msg = chars(&welcome_text("1.2.3"));
    assert_eq!(text(&welcome_line(&msg, 10)), "~Hector ed");
    assert_eq!(text(&welcome_line(&msg, 1)), "~");
}

#[test]
fn status_bar_pads_name_and_indicator_to_width() {
    let doc = Document::from_text(&chars("a\nb\nc"), None);
    let mut e = Editor::new(
        doc,
        Size { width: 30, height: 24 },
        StatusMessage::from(help_status()),
    );
    assert_eq!(text(&e.status_bar_line()), "[No Name] - 3 lines       1/3 ");
    e.cursor_position = Position { x: 0, y: 2 };
    assert_eq!(text(&e.status_bar_line()), "[No Name] - 3 lines       3/3 ");
}

#[test]
fn status_bar_shows_and_cuts_the_file_name() {
    let doc = Document::from_text(&chars("x"), Some("a_very_long_file_name_indeed.rs".to_string()));
    let e = Editor::new(
        doc,
        Size { width: 40, height: 24 },
        StatusMessage::from(help_status()),
    );
    let line = text(&e.status_bar_line());
    assert!(line.starts_with("a_very_long_file_nam - 1 lines"));
    assert_eq!(line.len(), 40);
    assert!(line.ends_with("1/1 "));
}

#[test]
fn status_bar_truncates_to_a_narrow_width() {
    let doc = Document::from_text(&chars("a"), None);
    let e = Editor::new(
        doc,
        Size { width: 10, height: 24 },
        StatusMessage::from(help_status()),
    );
    assert_eq!(text(&e.status_bar_line()), "[No Name] ");
}

#[test]
fn message_bar_shows_fresh_messages_and_drops_stale_ones() {
    let doc = Document::default();
    let mut e = Editor::new(
        doc,
        Size { width: 80, height: 24 },
        StatusMessage { text: "HELP: Ctrl-Q = quit".to_string(), time: 10_000 },
    );
    let shown = e.message_bar_line(10_000 + MESSAGE_LIFETIME_MS - 1).unwrap();
    assert_eq!(text(&shown), "HELP: Ctrl-Q = quit");
    assert!(e.message_bar_line(10_000 + MESSAGE_LIFETIME_MS).is_none());

    e.size = Size { width: 4, height: 24 };
    assert_eq!(text(&e.message_bar_line(10_000).unwrap()), "HELP");
}

#[test]
fn status_message_keeps_its_text() {
    let m = StatusMessage::from("hello there".to_string());
    assert_eq!(m.text, "hello there");
}

#[test]
fn ctrl_q_quits_and_ctrl_t_asks_for_a_theme_switch() {
    let mut e = editor_over("abc", Size { width: 80, height: 24 });
    assert!(!e.should_quit);
    assert!(!e.process_keypress(KeyEvent::Char('x')));
    assert!(!e.should_quit);
    assert!(e.process_keypress(KeyEvent::Ctrl('t')));
    assert!(!e.should_quit);
    assert!(!e.process_keypress(KeyEvent::Ctrl('q')));
    assert!(e.should_quit);
}

#[test]
fn keypress_moves_the_cursor_and_scrolls_after_it() {
    let mut e = editor_over("abcdefghij", Size { width: 4, height: 3 });
    for _ in 0..5 {
        e.process_keypress(KeyEvent::Right);
    }
    assert_eq!(e.cursor_position, Position { x: 5, y: 0 });
    assert_eq!(e.offset, Position { x: 2, y: 0 });
}

#[test]
fn screen_cursor_is_relative_to_the_offset() {
    let mut e = editor_over("x", Size { width: 80, height: 24 });
    e.cursor_position = Position { x: 85, y: 3 };
    e.offset = Position { x: 6, y: 1 };
    assert_eq!(e.screen_cursor(), Position { x: 79, y: 2 });
}

#[test]
fn startup_status_texts() {
    assert_eq!(help_status(), "HELP: Ctrl-Q = quit");
    assert_eq!(
        open_error_status("missing.txt"),
        "ERR: Could not open file: missing.txt"
    );
    assert_eq!(welcome_text("0.1.0"), "Hector editor -- version 0.1.0\r");
}

#[test]
fn position_default_is_the_origin() {
    let p = Position::default();
    assert_eq!(p, Position { x: 0, y: 0 });
}
