use text_editor::editor::Command;
use text_editor::editor::Editor;
use text_editor::keys::KeyEvent;

fn line(ed: &Editor, i: usize) -> Vec<u8> {
    ed.buffer().get_line(i).expect("line missing").clone()
}

fn handled(ed: &mut Editor, key: KeyEvent) {
    let cmd = ed.process_key(key);
    assert!(matches!(cmd, Command::Handled));
}

#[test]
fn typing_and_enter_build_two_lines() {
    let mut ed = Editor::new(22, 80);
    handled(&mut ed, KeyEvent::Character(b'h'));
    handled(&mut ed, KeyEvent::Character(b'i'));
    handled(&mut ed, KeyEvent::Enter);
    handled(&mut ed, KeyEvent::Character(b'y'));
    handled(&mut ed, KeyEvent::Character(b'o'));
    assert_eq!(ed.buffer().line_count(), 2);
    assert_eq!(line(&ed, 0), b"hi".to_vec());
    assert_eq!(line(&ed, 1), b"yo".to_vec());
    assert_eq!(ed.cursor_position(), (1, 2));
    assert!(ed.buffer().is_modified());
}

#[test]
fn backspace_at_column_zero_joins_lines() {
    let mut ed = Editor::from_file(b"t.txt".to_vec(), &b"abc\ndef".to_vec(), 24, 80);
    handled(&mut ed, KeyEvent::Down);
    assert_eq!(ed.cursor_position(), (1, 0));
    handled(&mut ed, KeyEvent::Backspace);
    assert_eq!(ed.buffer().line_count(), 1);
    assert_eq!(line(&ed, 0), b"abcdef".to_vec());
    assert_eq!(ed.cursor_position(), (0, 3));
}

#[test]
fn enter_at_line_end_opens_empty_line() {
    let mut ed = Editor::from_file(b"t.txt".to_vec(), &b"x".to_vec(), 24, 80);
    handled(&mut ed, KeyEvent::Right);
    assert_eq!(ed.cursor_position(), (0, 1));
    handled(&mut ed, KeyEvent::Enter);
    assert_eq!(ed.buffer().line_count(), 2);
    assert_eq!(line(&ed, 0), b"x".to_vec());
    assert_eq!(line(&ed, 1), b"".to_vec());
    assert_eq!(ed.cursor_position(), (1, 0));
}

#[test]
fn scroll_follows_cursor_down_a_small_viewport() {
    let mut ed = Editor::new(3, 80);
    for _ in 0..9 {
        handled(&mut ed, KeyEvent::Enter);
    }
    assert_eq!(ed.buffer().line_count(), 10);
    for _ in 0..9 {
        handled(&mut ed, KeyEvent::Up);
    }
    assert_eq!(ed.cursor_position(), (0, 0));
    assert_eq!(ed.scroll_offset(), 0);
    for _ in 0..5 {
        handled(&mut ed, KeyEvent::Down);
    }
    assert_eq!(ed.cursor_position(), (5, 0));
    assert_eq!(ed.scroll_offset(), 3);
    assert_eq!(ed.visible_range(), (3, 6));
    assert_eq!(ed.cursor_screen_position(), (2, 0));
}

#[test]
fn scroll_follows_cursor_back_up() {
    let mut ed = Editor::new(3, 80);
    for _ in 0..9 {
        handled(&mut ed, KeyEvent::Enter);
    }
    assert_eq!(ed.scroll_offset(), 7);
    for _ in 0..9 {
        handled(&mut ed, KeyEvent::Up);
    }
    assert_eq!(ed.scroll_offset(), 0);
}

#[test]
fn forward_delete_at_document_end_is_a_no_op() {
    let mut ed = Editor::from_file(b"t.txt".to_vec(), &b"ab".to_vec(), 24, 80);
    handled(&mut ed, KeyEvent::End);
    assert_eq!(ed.cursor_position(), (0, 2));
    handled(&mut ed, KeyEvent::ForwardDelete);
    assert_eq!(ed.buffer().line_count(), 1);
    assert_eq!(line(&ed, 0), b"ab".to_vec());
    assert_eq!(ed.cursor_position(), (0, 2));
    assert!(!ed.buffer().is_modified());
}

#[test]
fn forward_delete_removes_char_or_joins_next_line() {
    let mut ed = Editor::from_file(b"t.txt".to_vec(), &b"ab\ncd".to_vec(), 24, 80);
    handled(&mut ed, KeyEvent::ForwardDelete);
    assert_eq!(line(&ed, 0), b"b".to_vec());
    handled(&mut ed, KeyEvent::End);
    handled(&mut ed, KeyEvent::ForwardDelete);
    assert_eq!(ed.buffer().line_count(), 1);
    assert_eq!(line(&ed, 0), b"bcd".to_vec());
    assert_eq!(ed.cursor_position(), (0, 1));
}

#[test]
fn backspace_at_document_start_is_a_no_op() {
    let mut ed = Editor::from_file(b"t.txt".to_vec(), &b"ab".to_vec(), 24, 80);
    handled(&mut ed, KeyEvent::Backspace);
    assert_eq!(line(&ed, 0), b"ab".to_vec());
    assert_eq!(ed.cursor_position(), (0, 0));
}

#[test]
fn vertical_moves_clamp_the_column() {
    let mut ed = Editor::from_file(b"t.txt".to_vec(), &b"long line\nab\nlonger".to_vec(), 24, 80);
    handled(&mut ed, KeyEvent::End);
    assert_eq!(ed.cursor_position(), (0, 9));
    handled(&mut ed, KeyEvent::Down);
    assert_eq!(ed.cursor_position(), (1, 2));
    handled(&mut ed, KeyEvent::Down);
    assert_eq!(ed.cursor_position(), (2, 2));
}

#[test]
fn left_and_right_wrap_across_lines() {
    let mut ed = Editor::from_file(b"t.txt".to_vec(), &b"ab\ncd".to_vec(), 24, 80);
    handled(&mut ed, KeyEvent::Left);
    assert_eq!(ed.cursor_position(), (0, 0));
    handled(&mut ed, KeyEvent::Right);
    handled(&mut ed, KeyEvent::Right);
    assert_eq!(ed.cursor_position(), (0, 2));
    handled(&mut ed, KeyEvent::Right);
    assert_eq!(ed.cursor_position(), (1, 0));
    handled(&mut ed, KeyEvent::Left);
    assert_eq!(ed.cursor_position(), (0, 2));
    handled(&mut ed, KeyEvent::Down);
    handled(&mut ed, KeyEvent::End);
    handled(&mut ed, KeyEvent::Right);
    assert_eq!(ed.cursor_position(), (1, 2));
}

#[test]
fn home_and_end_move_within_the_line() {
    let mut ed = Editor::from_file(b"t.txt".to_vec(), &b"hello".to_vec(), 24, 80);
    handled(&mut ed, KeyEvent::End);
    assert_eq!(ed.cursor_position(), (0, 5));
    handled(&mut ed, KeyEvent::Home);
    assert_eq!(ed.cursor_position(), (0, 0));
}

#[test]
fn up_at_first_row_and_down_at_last_row_are_no_ops() {
    let mut ed = Editor::from_file(b"t.txt".to_vec(), &b"a\nb".to_vec(), 24, 80);
    handled(&mut ed, KeyEvent::Up);
    assert_eq!(ed.cursor_position(), (0, 0));
    handled(&mut ed, KeyEvent::Down);
    handled(&mut ed, KeyEvent::Down);
    assert_eq!(ed.cursor_position(), (1, 0));
}

#[test]
fn quit_request_ends_the_loop_without_saving() {
    let mut ed = Editor::new(24, 80);
    ed.process_key(KeyEvent::Character(b'x'));
    let cmd = ed.process_key(KeyEvent::Quit);
    assert!(matches!(cmd, Command::Quit));
    assert!(ed.should_quit());
    assert!(ed.buffer().is_modified());
}

#[test]
fn unknown_keys_are_ignored() {
    let mut ed = Editor::from_file(b"t.txt".to_vec(), &b"ab".to_vec(), 24, 80);
    handled(&mut ed, KeyEvent::Unknown);
    assert_eq!(line(&ed, 0), b"ab".to_vec());
    assert_eq!(ed.cursor_position(), (0, 0));
    assert!(!ed.buffer().is_modified());
}
