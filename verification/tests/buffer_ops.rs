use text_editor::buffer::Buffer;
use text_editor::buffer::EditorError;
use text_editor::buffer::join_lines;
use text_editor::buffer::split_content;

fn line(buf: &Buffer, i: usize) -> Vec<u8> {
    buf.get_line(i).expect("line missing").clone()
}

#[test]
fn new_buffer_has_one_empty_line() {
    let buf = Buffer::new();
    assert_eq!(buf.line_count(), 1);
    assert_eq!(line(&buf, 0), b"".to_vec());
    assert!(!buf.is_modified());
    assert!(buf.filename().is_none());
}

#[test]
fn insert_and_delete_char() {
    let mut buf = Buffer::new();
    buf.insert_char(0, 0, b'a');
    buf.insert_char(0, 1, b'c');
    buf.insert_char(0, 1, b'b');
    assert_eq!(line(&buf, 0), b"abc".to_vec());
    assert!(buf.is_modified());
    buf.delete_char(0, 1);
    assert_eq!(line(&buf, 0), b"ac".to_vec());
}

#[test]
fn out_of_range_operations_are_no_ops() {
    let mut buf = Buffer::new();
    buf.insert_char(5, 0, b'x');
    buf.insert_char(0, 1, b'x');
    buf.delete_char(0, 0);
    buf.delete_char(3, 0);
    buf.insert_newline(2, 0);
    buf.delete_newline(0);
    buf.delete_newline(7);
    assert_eq!(buf.line_count(), 1);
    assert_eq!(line(&buf, 0), b"".to_vec());
    assert!(!buf.is_modified());
}

#[test]
fn split_line_at_middle() {
    let buf0 = Buffer::from_file(b"t.txt".to_vec(), &b"hello".to_vec());
    let mut buf = buf0;
    buf.insert_newline(0, 2);
    assert_eq!(buf.line_count(), 2);
    assert_eq!(line(&buf, 0), b"he".to_vec());
    assert_eq!(line(&buf, 1), b"llo".to_vec());
    assert!(buf.is_modified());
}

#[test]
fn split_line_at_end_makes_empty_line() {
    let mut buf = Buffer::from_file(b"t.txt".to_vec(), &b"x".to_vec());
    buf.insert_newline(0, 1);
    assert_eq!(buf.line_count(), 2);
    assert_eq!(line(&buf, 0), b"x".to_vec());
    assert_eq!(line(&buf, 1), b"".to_vec());
}

#[test]
fn join_with_previous_line() {
    let mut buf = Buffer::from_file(b"t.txt".to_vec(), &b"abc\ndef".to_vec());
    buf.delete_newline(1);
    assert_eq!(buf.line_count(), 1);
    assert_eq!(line(&buf, 0), b"abcdef".to_vec());
    assert!(buf.is_modified());
}

#[test]
fn from_file_splits_content() {
    let buf = Buffer::from_file(b"t.txt".to_vec(), &b"a\nbb\nccc".to_vec());
    assert_eq!(buf.line_count(), 3);
    assert_eq!(line(&buf, 0), b"a".to_vec());
    assert_eq!(line(&buf, 1), b"bb".to_vec());
    assert_eq!(line(&buf, 2), b"ccc".to_vec());
    assert!(!buf.is_modified());
    assert_eq!(buf.filename().unwrap().clone(), b"t.txt".to_vec());
}

#[test]
fn from_file_empty_content_is_one_empty_line() {
    let buf = Buffer::from_file(b"t.txt".to_vec(), &b"".to_vec());
    assert_eq!(buf.line_count(), 1);
    assert_eq!(line(&buf, 0), b"".to_vec());
}

#[test]
fn from_file_drops_one_trailing_newline() {
    let buf = Buffer::from_file(b"t.txt".to_vec(), &b"a\n".to_vec());
    assert_eq!(buf.line_count(), 1);
    assert_eq!(line(&buf, 0), b"a".to_vec());

    let buf2 = Buffer::from_file(b"t.txt".to_vec(), &b"a\n\n".to_vec());
    assert_eq!(buf2.line_count(), 2);
    assert_eq!(line(&buf2, 0), b"a".to_vec());
    assert_eq!(line(&buf2, 1), b"".to_vec());

    let buf3 = Buffer::from_file(b"t.txt".to_vec(), &b"\n".to_vec());
    assert_eq!(buf3.line_count(), 1);
    assert_eq!(line(&buf3, 0), b"".to_vec());
}

#[test]
fn line_len_out_of_range_is_zero() {
    let buf = Buffer::from_file(b"t.txt".to_vec(), &b"abc".to_vec());
    assert_eq!(buf.line_len(0), 3);
    assert_eq!(buf.line_len(1), 0);
}

#[test]
fn save_without_location_fails() {
    let buf = Buffer::new();
    match buf.save() {
        Err(EditorError::NoTargetLocation) => {}
        _ => panic!("expected NoTargetLocation"),
    }
}

#[test]
fn save_serializes_lines_with_single_separators() {
    let mut buf = Buffer::from_file(b"t.txt".to_vec(), &b"abc\ndef".to_vec());
    buf.insert_char(1, 3, b'!');
    let req = buf.save().expect("location is set");
    assert_eq!(req.path, b"t.txt".to_vec());
    assert_eq!(req.content, b"abc\ndef!".to_vec());
    assert!(buf.is_modified());
    buf.mark_saved();
    assert!(!buf.is_modified());
}

#[test]
fn save_as_resolves_bare_name_against_directory() {
    let mut buf = Buffer::new();
    buf.set_save_directory(b"/tmp".to_vec());
    buf.insert_char(0, 0, b'z');
    let req = buf.save_as(b"out.txt".to_vec());
    assert_eq!(req.path, b"/tmp/out.txt".to_vec());
    assert_eq!(req.content, b"z".to_vec());
    assert_eq!(buf.filename().unwrap().clone(), b"/tmp/out.txt".to_vec());
}

#[test]
fn save_as_with_existing_location_takes_name_as_given() {
    let mut buf = Buffer::new();
    buf.set_filename(b"/tmp/old.txt".to_vec());
    buf.set_save_directory(b"/tmp".to_vec());
    let req = buf.save_as(b"new.txt".to_vec());
    assert_eq!(req.path, b"new.txt".to_vec());
    assert_eq!(buf.filename().unwrap().clone(), b"new.txt".to_vec());
}

#[test]
fn save_as_without_directory_takes_name_as_given() {
    let mut buf = Buffer::new();
    let req = buf.save_as(b"plain.txt".to_vec());
    assert_eq!(req.path, b"plain.txt".to_vec());
}

#[test]
fn persist_then_reload_round_trips() {
    let original = b"first\nsecond\nthird";
    let buf = Buffer::from_file(b"t.txt".to_vec(), &original.to_vec());
    let req = buf.save().expect("location is set");
    assert_eq!(req.content, original.to_vec());
    let reloaded = Buffer::from_file(b"t.txt".to_vec(), &req.content);
    assert_eq!(reloaded.line_count(), buf.line_count());
    for i in 0..buf.line_count() {
        assert_eq!(line(&reloaded, i), line(&buf, i));
    }
}

#[test]
fn join_then_split_round_trips() {
    let lines = vec![b"ab".to_vec(), b"".to_vec(), b"c".to_vec()];
    let content = join_lines(&lines);
    assert_eq!(content, b"ab\n\nc".to_vec());
    let back = split_content(&content);
    assert_eq!(back, lines);
}

#[test]
fn get_line_out_of_range_is_none() {
    let buf = Buffer::new();
    assert!(buf.get_line(1).is_none());
}
