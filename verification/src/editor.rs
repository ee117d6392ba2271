//! The edit session: a cursor, a scroll offset, a fixed viewport, and the
//! dispatch of decoded key events into document mutations.
//!
//! The session owns one [`Buffer`] and keeps three invariants across every
//! operation: the document always has at least one line, the cursor stays on a
//! line and at most one position past its end, and the cursor row stays inside
//! the window `[scroll_offset, scroll_offset + screen_rows)`.  Saving is split
//! at the I/O edge: the session hands the caller a [`Command`] saying what
//! outside work is due (run the filename prompt, attempt one write), and the
//! caller reports the outcome back.

use vstd::prelude::*;
use crate::buffer::Buffer;
use crate::buffer::BufferView;
use crate::buffer::SaveRequest;
use crate::buffer::join_lines_spec;
use crate::buffer::resolve_target_spec;
use crate::buffer::split_content_spec;
use crate::keys::KeyEvent;

verus! {

/// The message shown in the bar below the content.  The caller renders it;
/// transient messages revert to the static help line on the next keystroke.
#[derive(Clone, Copy, Debug, PartialEq, Eq, Structural)]
pub enum StatusMessage {
    /// The static help line.
    Help,
    /// A save under the current location succeeded.
    Saved,
    /// A save under a newly chosen name succeeded.
    SavedAs,
    /// The external write failed; the document stays dirty.
    SaveFailed,
    /// The filename prompt was cancelled; nothing was written.
    SaveAborted,
}

/// What the caller must do after handing the session one key event.
pub enum Command {
    /// The event was consumed in memory; nothing outside is due.
    Handled,
    /// End the input loop without saving.
    Quit,
    /// Run the filename prompt, then hand its outcome to
    /// [`Editor::submit_filename`].
    RunPrompt,
    /// Attempt the one external write, then report the outcome to
    /// [`Editor::finish_save`].
    Write(SaveRequest),
}

/// Where the viewport starts after the cursor reached `row`: the window moves
/// only when the cursor left it, and then only as far as needed.
pub open spec fn scrolled(offset: int, row: int, height: int) -> int {
    if row < offset {
        row
    } else if row >= offset + height {
        row + 1 - height
    } else {
        offset
    }
}

/// Mathematical model of an [`Editor`].
pub ghost struct EditorView {
    pub buffer: BufferView,
    pub cursor_row: int,
    pub cursor_col: int,
    pub scroll_offset: int,
    pub screen_rows: int,
    pub screen_cols: int,
    pub quit: bool,
    pub status: StatusMessage,
    pub message_is_temporary: bool,
    pub save_count: int,
}

impl EditorView {
    /// The session invariants: the document is never empty, the cursor sits on
    /// a line at a column no greater than that line's length, and the cursor
    /// row lies inside the viewport window.
    pub open spec fn inv(self) -> bool {
        &&& self.buffer.inv()
        &&& 0 <= self.cursor_row < self.buffer.lines.len()
        &&& 0 <= self.cursor_col <= self.buffer.lines[self.cursor_row].len()
        &&& 0 <= self.scroll_offset <= self.cursor_row
        &&& self.cursor_row < self.scroll_offset + self.screen_rows
        &&& 1 <= self.screen_rows
    }

    /// The cursor moved to `(row, col)`, with the viewport following.
    pub open spec fn with_cursor(self, row: int, col: int) -> EditorView {
        EditorView {
            cursor_row: row,
            cursor_col: col,
            scroll_offset: scrolled(self.scroll_offset, row, self.screen_rows),
            ..self
        }
    }

    /// The cursor column clamped to the length of line `row`.
    pub open spec fn clamped_col(self, row: int) -> int {
        if self.cursor_col <= self.buffer.lines[row].len() {
            self.cursor_col
        } else {
            self.buffer.lines[row].len() as int
        }
    }

    /// Arrow Up: one row up when possible, the column clamped to the new line.
    pub open spec fn moved_up(self) -> EditorView {
        if self.cursor_row > 0 {
            self.with_cursor(self.cursor_row - 1, self.clamped_col(self.cursor_row - 1))
        } else {
            self
        }
    }

    /// Arrow Down: one row down when possible, the column clamped.
    pub open spec fn moved_down(self) -> EditorView {
        if self.cursor_row + 1 < self.buffer.lines.len() {
            self.with_cursor(self.cursor_row + 1, self.clamped_col(self.cursor_row + 1))
        } else {
            self
        }
    }

    /// Arrow Left: one column back, or to the end of the previous line.
    pub open spec fn moved_left(self) -> EditorView {
        if self.cursor_col > 0 {
            self.with_cursor(self.cursor_row, self.cursor_col - 1)
        } else if self.cursor_row > 0 {
            self.with_cursor(
                self.cursor_row - 1,
                self.buffer.lines[self.cursor_row - 1].len() as int,
            )
        } else {
            self
        }
    }

    /// Arrow Right: one column forward, or to the start of the next line.
    pub open spec fn moved_right(self) -> EditorView {
        if self.cursor_col < self.buffer.lines[self.cursor_row].len() {
            self.with_cursor(self.cursor_row, self.cursor_col + 1)
        } else if self.cursor_row + 1 < self.buffer.lines.len() {
            self.with_cursor(self.cursor_row + 1, 0)
        } else {
            self
        }
    }

    /// Home: the column jumps to 0; the row and viewport stay.
    pub open spec fn moved_home(self) -> EditorView {
        EditorView { cursor_col: 0, ..self }
    }

    /// End: the column jumps past the last character of the current line.
    pub open spec fn moved_end(self) -> EditorView {
        EditorView {
            cursor_col: self.buffer.lines[self.cursor_row].len() as int,
            ..self
        }
    }

    /// A printable character inserted at the cursor; the cursor follows it.
    pub open spec fn char_inserted(self, ch: u8) -> EditorView {
        EditorView {
            buffer: BufferView {
                lines: self.buffer.lines.update(
                    self.cursor_row,
                    self.buffer.lines[self.cursor_row].insert(self.cursor_col, ch),
                ),
                modified: true,
                ..self.buffer
            },
            cursor_col: self.cursor_col + 1,
            ..self
        }
    }

    /// Enter: the current line splits at the cursor; the cursor moves to the
    /// start of the new line and the viewport follows.
    pub open spec fn newline_inserted(self) -> EditorView {
        EditorView {
            buffer: BufferView {
                lines: self.buffer.lines.update(
                    self.cursor_row,
                    self.buffer.lines[self.cursor_row].take(self.cursor_col),
                ).insert(
                    self.cursor_row + 1,
                    self.buffer.lines[self.cursor_row].skip(self.cursor_col),
                ),
                modified: true,
                ..self.buffer
            },
            cursor_row: self.cursor_row + 1,
            cursor_col: 0,
            scroll_offset: scrolled(self.scroll_offset, self.cursor_row + 1, self.screen_rows),
            ..self
        }
    }

    /// Backspace: the character before the cursor goes, or at column 0 the
    /// current line joins the previous one; a no-op at the document start.
    pub open spec fn backspaced(self) -> EditorView {
        if self.cursor_col > 0 {
            EditorView {
                buffer: BufferView {
                    lines: self.buffer.lines.update(
                        self.cursor_row,
                        self.buffer.lines[self.cursor_row].remove(self.cursor_col - 1),
                    ),
                    modified: true,
                    ..self.buffer
                },
                cursor_col: self.cursor_col - 1,
                ..self
            }
        } else if self.cursor_row > 0 {
            EditorView {
                buffer: BufferView {
                    lines: self.buffer.lines.update(
                        self.cursor_row - 1,
                        self.buffer.lines[self.cursor_row - 1]
                            + self.buffer.lines[self.cursor_row],
                    ).remove(self.cursor_row),
                    modified: true,
                    ..self.buffer
                },
                cursor_row: self.cursor_row - 1,
                cursor_col: self.buffer.lines[self.cursor_row - 1].len() as int,
                scroll_offset: scrolled(
                    self.scroll_offset,
                    self.cursor_row - 1,
                    self.screen_rows,
                ),
                ..self
            }
        } else {
            self
        }
    }

    /// Forward delete: the character under the cursor goes, or at the line end
    /// the next line joins the current one; a no-op at the very last position
    /// of the very last line.
    pub open spec fn forward_deleted(self) -> EditorView {
        if self.cursor_col < self.buffer.lines[self.cursor_row].len() {
            EditorView {
                buffer: BufferView {
                    lines: self.buffer.lines.update(
                        self.cursor_row,
                        self.buffer.lines[self.cursor_row].remove(self.cursor_col),
                    ),
                    modified: true,
                    ..self.buffer
                },
                ..self
            }
        } else if self.cursor_row + 1 < self.buffer.lines.len() {
            EditorView {
                buffer: BufferView {
                    lines: self.buffer.lines.update(
                        self.cursor_row,
                        self.buffer.lines[self.cursor_row]
                            + self.buffer.lines[self.cursor_row + 1],
                    ).remove(self.cursor_row + 1),
                    modified: true,
                    ..self.buffer
                },
                ..self
            }
        } else {
            self
        }
    }

    /// A transient message reverts to the static help line on the next
    /// keystroke; a lasting one stays.
    pub open spec fn message_reset(self) -> EditorView {
        if self.message_is_temporary {
            EditorView { status: StatusMessage::Help, message_is_temporary: false, ..self }
        } else {
            self
        }
    }
}

/// Law: forward delete at the very last position of the very last line
/// changes nothing.
pub proof fn lemma_forward_delete_at_end_noop(v: EditorView)
    requires
        v.inv(),
        v.cursor_row == v.buffer.lines.len() - 1,
        v.cursor_col == v.buffer.lines[v.cursor_row].len(),
    ensures
        v.forward_deleted() == v,
{
}

/// The edit session.
pub struct Editor {
    buffer: Buffer,
    cursor_x: usize,
    cursor_y: usize,
    scroll_offset: usize,
    screen_rows: usize,
    screen_cols: usize,
    quit: bool,
    status: StatusMessage,
    message_is_temporary: bool,
    save_count: u64,
}

impl View for Editor {
    type V = EditorView;

    closed spec fn view(&self) -> EditorView {
        EditorView {
            buffer: self.buffer@,
            cursor_row: self.cursor_y as int,
            cursor_col: self.cursor_x as int,
            scroll_offset: self.scroll_offset as int,
            screen_rows: self.screen_rows as int,
            screen_cols: self.screen_cols as int,
            quit: self.quit,
            status: self.status,
            message_is_temporary: self.message_is_temporary,
            save_count: self.save_count as int,
        }
    }
}

impl Editor {
    /// A session over a brand-new document.  `screen_rows` is the number of
    /// content rows the viewport shows; the cursor must always be visible, so
    /// at least one row is needed.
    pub fn new(screen_rows: usize, screen_cols: usize) -> (r: Editor)
        requires
            screen_rows >= 1,
        ensures
            r@.buffer.lines == seq![Seq::<u8>::empty()],
            r@.buffer.filename is None,
            r@.buffer.save_directory is None,
            !r@.buffer.modified,
            r@.cursor_row == 0 && r@.cursor_col == 0 && r@.scroll_offset == 0,
            r@.screen_rows == screen_rows && r@.screen_cols == screen_cols,
            !r@.quit,
            r@.status == StatusMessage::Help,
            !r@.message_is_temporary,
            r@.save_count == 0,
            r@.inv(),
    {
        Editor {
            buffer: Buffer::new(),
            cursor_x: 0,
            cursor_y: 0,
            scroll_offset: 0,
            screen_rows,
            screen_cols,
            quit: false,
            status: StatusMessage::Help,
            message_is_temporary: false,
            save_count: 0,
        }
    }

    /// A session over a document loaded from stored content: the caller reads
    /// the bytes at `path` and hands them in.
    pub fn from_file(path: Vec<u8>, content: &Vec<u8>, screen_rows: usize, screen_cols: usize)
        -> (r: Editor)
        requires
            screen_rows >= 1,
        ensures
            r@.buffer.lines == split_content_spec(content@),
            r@.buffer.filename == Some(path@),
            r@.buffer.save_directory is None,
            !r@.buffer.modified,
            r@.cursor_row == 0 && r@.cursor_col == 0 && r@.scroll_offset == 0,
            r@.screen_rows == screen_rows && r@.screen_cols == screen_cols,
            !r@.quit,
            r@.status == StatusMessage::Help,
            !r@.message_is_temporary,
            r@.save_count == 0,
            r@.inv(),
    {
        Editor {
            buffer: Buffer::from_file(path, content),
            cursor_x: 0,
            cursor_y: 0,
            scroll_offset: 0,
            screen_rows,
            screen_cols,
            quit: false,
            status: StatusMessage::Help,
            message_is_temporary: false,
            save_count: 0,
        }
    }

    /// A session over a new document already bound to `path` (the location
    /// does not exist yet; the first save creates it).
    pub fn new_with_filename(path: Vec<u8>, screen_rows: usize, screen_cols: usize) -> (r:
        Editor)
        requires
            screen_rows >= 1,
        ensures
            r@.buffer.lines == seq![Seq::<u8>::empty()],
            r@.buffer.filename == Some(path@),
            r@.buffer.save_directory is None,
            !r@.buffer.modified,
            r@.cursor_row == 0 && r@.cursor_col == 0 && r@.scroll_offset == 0,
            r@.screen_rows == screen_rows && r@.screen_cols == screen_cols,
            !r@.quit,
            r@.status == StatusMessage::Help,
            !r@.message_is_temporary,
            r@.save_count == 0,
            r@.inv(),
    {
        let mut buffer = Buffer::new();
        buffer.set_filename(path);
        Editor {
            buffer,
            cursor_x: 0,
            cursor_y: 0,
            scroll_offset: 0,
            screen_rows,
            screen_cols,
            quit: false,
            status: StatusMessage::Help,
            message_is_temporary: false,
            save_count: 0,
        }
    }

    /// A session over a new unbound document whose first save resolves a bare
    /// name against `directory`.
    pub fn new_with_save_directory(directory: Vec<u8>, screen_rows: usize, screen_cols: usize)
        -> (r: Editor)
        requires
            screen_rows >= 1,
        ensures
            r@.buffer.lines == seq![Seq::<u8>::empty()],
            r@.buffer.filename is None,
            r@.buffer.save_directory == Some(directory@),
            !r@.buffer.modified,
            r@.cursor_row == 0 && r@.cursor_col == 0 && r@.scroll_offset == 0,
            r@.screen_rows == screen_rows && r@.screen_cols == screen_cols,
            !r@.quit,
            r@.status == StatusMessage::Help,
            !r@.message_is_temporary,
            r@.save_count == 0,
            r@.inv(),
    {
        let mut buffer = Buffer::new();
        buffer.set_save_directory(directory);
        Editor {
            buffer,
            cursor_x: 0,
            cursor_y: 0,
            scroll_offset: 0,
            screen_rows,
            screen_cols,
            quit: false,
            status: StatusMessage::Help,
            message_is_temporary: false,
            save_count: 0,
        }
    }

    /// Sets the document's fallback base directory.
    pub fn set_save_directory(&mut self, directory: Vec<u8>)
        ensures
            final(self)@ == (EditorView {
                buffer: BufferView { save_directory: Some(directory@), ..old(self)@.buffer },
                ..old(self)@
            }),
    {
        self.buffer.set_save_directory(directory);
    }

    /// Clamps the cursor column to the current line's length, so that a row
    /// change never leaves the column past the end of the new line.
    pub fn snap_cursor_to_line(&mut self)
        requires
            0 <= old(self)@.cursor_row < old(self)@.buffer.lines.len(),
        ensures
            final(self)@ == (EditorView {
                cursor_col: old(self)@.clamped_col(old(self)@.cursor_row),
                ..old(self)@
            }),
    {
        let line_len = self.buffer.line_len(self.cursor_y);
        if self.cursor_x > line_len {
            self.cursor_x = line_len;
        }
    }

    /// Moves the viewport so the cursor row is visible again, and no further
    /// than needed, as [`scrolled`] describes.
    pub fn adjust_scroll(&mut self)
        requires
            old(self)@.screen_rows >= 1,
        ensures
            final(self)@ == (EditorView {
                scroll_offset: scrolled(
                    old(self)@.scroll_offset,
                    old(self)@.cursor_row,
                    old(self)@.screen_rows,
                ),
                ..old(self)@
            }),
            final(self)@.scroll_offset <= final(self)@.cursor_row
                < final(self)@.scroll_offset + final(self)@.screen_rows,
    {
        if self.cursor_y < self.scroll_offset {
            self.scroll_offset = self.cursor_y;
        }
        if self.cursor_y - self.scroll_offset >= self.screen_rows {
            self.scroll_offset = self.cursor_y - self.screen_rows + 1;
        }
    }

    /// Arrow Up.
    pub fn move_cursor_up(&mut self)
        requires
            old(self)@.inv(),
        ensures
            final(self)@ == old(self)@.moved_up(),
            final(self)@.inv(),
    {
        if self.cursor_y > 0 {
            self.cursor_y = self.cursor_y - 1;
            self.snap_cursor_to_line();
            self.adjust_scroll();
        }
    }

    /// Arrow Down.
    pub fn move_cursor_down(&mut self)
        requires
            old(self)@.inv(),
        ensures
            final(self)@ == old(self)@.moved_down(),
            final(self)@.inv(),
    {
        let count = self.buffer.line_count();
        if self.cursor_y + 1 < count {
            self.cursor_y = self.cursor_y + 1;
            self.snap_cursor_to_line();
            self.adjust_scroll();
        }
    }

    /// Arrow Left.
    pub fn move_cursor_left(&mut self)
        requires
            old(self)@.inv(),
        ensures
            final(self)@ == old(self)@.moved_left(),
            final(self)@.inv(),
    {
        if self.cursor_x > 0 {
            self.cursor_x = self.cursor_x - 1;
        } else if self.cursor_y > 0 {
            self.cursor_y = self.cursor_y - 1;
            self.cursor_x = self.buffer.line_len(self.cursor_y);
            self.adjust_scroll();
        }
    }

    /// Arrow Right.
    pub fn move_cursor_right(&mut self)
        requires
            old(self)@.inv(),
        ensures
            final(self)@ == old(self)@.moved_right(),
            final(self)@.inv(),
    {
        let line_len = self.buffer.line_len(self.cursor_y);
        let count = self.buffer.line_count();
        if self.cursor_x < line_len {
            self.cursor_x = self.cursor_x + 1;
        } else if self.cursor_y + 1 < count {
            self.cursor_y = self.cursor_y + 1;
            self.cursor_x = 0;
            self.adjust_scroll();
        }
    }

    /// Home.
    pub fn move_cursor_home(&mut self)
        requires
            old(self)@.inv(),
        ensures
            final(self)@ == old(self)@.moved_home(),
            final(self)@.inv(),
    {
        self.cursor_x = 0;
    }

    /// End.
    pub fn move_cursor_end(&mut self)
        requires
            old(self)@.inv(),
        ensures
            final(self)@ == old(self)@.moved_end(),
            final(self)@.inv(),
    {
        self.cursor_x = self.buffer.line_len(self.cursor_y);
    }

    /// Inserts one printable character at the cursor and moves the cursor past
    /// it.
    pub fn insert_char(&mut self, ch: u8)
        requires
            old(self)@.inv(),
        ensures
            final(self)@ == old(self)@.char_inserted(ch),
            final(self)@.inv(),
    {
        self.buffer.insert_char(self.cursor_y, self.cursor_x, ch);
        // the call pins the grown line's length within usize range, which
        // bounds the cursor increment below
        let _ = self.buffer.line_len(self.cursor_y);
        self.cursor_x = self.cursor_x + 1;
    }

    /// Enter: splits the current line at the cursor; the cursor moves to the
    /// start of the new line and the viewport follows.
    pub fn insert_newline(&mut self)
        requires
            old(self)@.inv(),
        ensures
            final(self)@ == old(self)@.newline_inserted(),
            final(self)@.inv(),
    {
        self.buffer.insert_newline(self.cursor_y, self.cursor_x);
        // the call pins the grown line count within usize range, which bounds
        // the cursor increment below
        let _ = self.buffer.line_count();
        self.cursor_y = self.cursor_y + 1;
        self.cursor_x = 0;
        self.adjust_scroll();
    }

    /// Backspace: deletes the character before the cursor, or at column 0
    /// joins the current line onto the previous one.  A no-op at the document
    /// start.
    pub fn delete_char(&mut self)
        requires
            old(self)@.inv(),
        ensures
            final(self)@ == old(self)@.backspaced(),
            final(self)@.inv(),
    {
        if self.cursor_x > 0 {
            self.buffer.delete_char(self.cursor_y, self.cursor_x - 1);
            self.cursor_x = self.cursor_x - 1;
        } else if self.cursor_y > 0 {
            self.cursor_x = self.buffer.line_len(self.cursor_y - 1);
            self.buffer.delete_newline(self.cursor_y);
            self.cursor_y = self.cursor_y - 1;
            self.adjust_scroll();
        }
    }

    /// Forward delete: deletes the character under the cursor, or at the line
    /// end joins the next line onto the current one.  A no-op at the very last
    /// position of the very last line.
    pub fn delete_char_forward(&mut self)
        requires
            old(self)@.inv(),
        ensures
            final(self)@ == old(self)@.forward_deleted(),
            final(self)@.inv(),
    {
        let line_len = self.buffer.line_len(self.cursor_y);
        let count = self.buffer.line_count();
        if self.cursor_x < line_len {
            self.buffer.delete_char(self.cursor_y, self.cursor_x);
        } else if self.cursor_y + 1 < count {
            self.buffer.delete_newline(self.cursor_y + 1);
        }
    }

    /// A plain save: when a location is set the write is due at once; when
    /// none is, the filename prompt must run first.  The session itself does
    /// not change.
    pub fn save_file(&mut self) -> (cmd: Command)
        requires
            old(self)@.inv(),
        ensures
            final(self)@ == old(self)@,
            final(self)@.inv(),
            old(self)@.buffer.filename is None ==> cmd is RunPrompt,
            old(self)@.buffer.filename matches Some(p) ==> (cmd matches Command::Write(req)
                && req.path@ == p && req.content@ == join_lines_spec(old(self)@.buffer.lines)),
    {
        match self.buffer.save() {
            Ok(req) => Command::Write(req),
            Err(_) => Command::RunPrompt,
        }
    }

    /// Save-As: the filename prompt always runs again, even when a location is
    /// already set.  The session itself does not change.
    pub fn save_file_as(&mut self) -> (cmd: Command)
        requires
            old(self)@.inv(),
        ensures
            final(self)@ == old(self)@,
            final(self)@.inv(),
            cmd is RunPrompt,
    {
        Command::RunPrompt
    }

    /// The filename prompt's outcome.  A cancelled prompt (`None`) leaves the
    /// document untouched — lines, location and dirty flag unchanged — and
    /// posts the transient abort message.  A committed name is resolved
    /// against the fallback directory when no location is set yet, becomes the
    /// new location, and the due write is handed back.
    pub fn submit_filename(&mut self, name: Option<Vec<u8>>) -> (r: Option<SaveRequest>)
        requires
            old(self)@.inv(),
        ensures
            final(self)@.inv(),
            name is None ==> r is None && final(self)@ == (EditorView {
                status: StatusMessage::SaveAborted,
                message_is_temporary: true,
                ..old(self)@
            }),
            name matches Some(n) ==> (r matches Some(req) && req.path@ == resolve_target_spec(
                old(self)@.buffer.filename,
                old(self)@.buffer.save_directory,
                n@,
            ) && req.content@ == join_lines_spec(old(self)@.buffer.lines) && final(self)@ == (
            EditorView {
                buffer: BufferView { filename: Some(req.path@), ..old(self)@.buffer },
                ..old(self)@
            })),
    {
        match name {
            Some(n) => Some(self.buffer.save_as(n)),
            None => {
                self.status = StatusMessage::SaveAborted;
                self.message_is_temporary = true;
                None
            }
        }
    }

    /// The outcome of the one external write.  On success the document is
    /// clean, the save counter steps (it saturates rather than wraps), and the
    /// transient success message is posted — [`StatusMessage::SavedAs`] when
    /// the save ran under a newly chosen name.  On failure the document stays
    /// dirty and the transient failure message is posted.
    pub fn finish_save(&mut self, success: bool, saved_as: bool)
        requires
            old(self)@.inv(),
        ensures
            final(self)@.inv(),
            success ==> final(self)@ == (EditorView {
                buffer: BufferView { modified: false, ..old(self)@.buffer },
                status: if saved_as {
                    StatusMessage::SavedAs
                } else {
                    StatusMessage::Saved
                },
                message_is_temporary: true,
                save_count: if old(self)@.save_count < u64::MAX {
                    old(self)@.save_count + 1
                } else {
                    old(self)@.save_count
                },
                ..old(self)@
            }),
            !success ==> final(self)@ == (EditorView {
                status: StatusMessage::SaveFailed,
                message_is_temporary: true,
                ..old(self)@
            }),
    {
        if success {
            self.buffer.mark_saved();
            if self.save_count < u64::MAX {
                self.save_count = self.save_count + 1;
            }
            self.status = if saved_as {
                StatusMessage::SavedAs
            } else {
                StatusMessage::Saved
            };
            self.message_is_temporary = true;
        } else {
            self.status = StatusMessage::SaveFailed;
            self.message_is_temporary = true;
        }
    }

    /// Consumes one decoded key event: a transient message reverts to the
    /// help line first, then the event is dispatched.  The result says what
    /// outside work, if any, the caller owes before reading the next event.
    pub fn process_key(&mut self, key: KeyEvent) -> (cmd: Command)
        requires
            old(self)@.inv(),
        ensures
            final(self)@.inv(),
            ({
                let v = old(self)@.message_reset();
                match key {
                    KeyEvent::Character(ch) => final(self)@ == v.char_inserted(ch)
                        && cmd is Handled,
                    KeyEvent::Enter => final(self)@ == v.newline_inserted() && cmd is Handled,
                    KeyEvent::Backspace => final(self)@ == v.backspaced() && cmd is Handled,
                    KeyEvent::ForwardDelete => final(self)@ == v.forward_deleted()
                        && cmd is Handled,
                    KeyEvent::Up => final(self)@ == v.moved_up() && cmd is Handled,
                    KeyEvent::Down => final(self)@ == v.moved_down() && cmd is Handled,
                    KeyEvent::Left => final(self)@ == v.moved_left() && cmd is Handled,
                    KeyEvent::Right => final(self)@ == v.moved_right() && cmd is Handled,
                    KeyEvent::Home => final(self)@ == v.moved_home() && cmd is Handled,
                    KeyEvent::End => final(self)@ == v.moved_end() && cmd is Handled,
                    KeyEvent::Quit => final(self)@ == (EditorView { quit: true, ..v })
                        && cmd is Quit,
                    KeyEvent::Save => final(self)@ == v && (v.buffer.filename is None
                        ==> cmd is RunPrompt) && (v.buffer.filename matches Some(p)
                        ==> (cmd matches Command::Write(req) && req.path@ == p
                        && req.content@ == join_lines_spec(v.buffer.lines))),
                    KeyEvent::SaveAs => final(self)@ == v && cmd is RunPrompt,
                    KeyEvent::Unknown => final(self)@ == v && cmd is Handled,
                }
            }),
    {
        if self.message_is_temporary {
            self.status = StatusMessage::Help;
            self.message_is_temporary = false;
        }
        match key {
            KeyEvent::Character(ch) => {
                self.insert_char(ch);
                Command::Handled
            }
            KeyEvent::Enter => {
                self.insert_newline();
                Command::Handled
            }
            KeyEvent::Backspace => {
                self.delete_char();
                Command::Handled
            }
            KeyEvent::ForwardDelete => {
                self.delete_char_forward();
                Command::Handled
            }
            KeyEvent::Up => {
                self.move_cursor_up();
                Command::Handled
            }
            KeyEvent::Down => {
                self.move_cursor_down();
                Command::Handled
            }
            KeyEvent::Left => {
                self.move_cursor_left();
                Command::Handled
            }
            KeyEvent::Right => {
                self.move_cursor_right();
                Command::Handled
            }
            KeyEvent::Home => {
                self.move_cursor_home();
                Command::Handled
            }
            KeyEvent::End => {
                self.move_cursor_end();
                Command::Handled
            }
            KeyEvent::Quit => {
                self.quit = true;
                Command::Quit
            }
            KeyEvent::Save => self.save_file(),
            KeyEvent::SaveAs => self.save_file_as(),
            KeyEvent::Unknown => Command::Handled,
        }
    }

    /// The document, for the renderer's line and status lookups.
    pub fn buffer(&self) -> (r: &Buffer)
        ensures
            r@ == self@.buffer,
    {
        &self.buffer
    }

    /// The cursor position in buffer coordinates: `(row, column)`.
    pub fn cursor_position(&self) -> (r: (usize, usize))
        ensures
            r.0 == self@.cursor_row,
            r.1 == self@.cursor_col,
    {
        (self.cursor_y, self.cursor_x)
    }

    /// The cursor position in screen coordinates: the row relative to the top
    /// of the viewport, and the column.
    pub fn cursor_screen_position(&self) -> (r: (usize, usize))
        requires
            self@.inv(),
        ensures
            r.0 == self@.cursor_row - self@.scroll_offset,
            r.1 == self@.cursor_col,
            r.0 < self@.screen_rows,
    {
        (self.cursor_y - self.scroll_offset, self.cursor_x)
    }

    /// The rows the viewport shows: the half-open range from the topmost
    /// visible row to one past the last, never past the end of the document.
    /// The cursor row always lies inside it.
    pub fn visible_range(&self) -> (r: (usize, usize))
        requires
            self@.inv(),
        ensures
            r.0 == self@.scroll_offset,
            r.1 == if self@.scroll_offset + self@.screen_rows <= self@.buffer.lines.len() {
                self@.scroll_offset + self@.screen_rows
            } else {
                self@.buffer.lines.len() as int
            },
            r.0 <= self@.cursor_row < r.1,
            r.1 <= self@.buffer.lines.len(),
    {
        let count = self.buffer.line_count();
        let end = if count - self.scroll_offset > self.screen_rows {
            self.scroll_offset + self.screen_rows
        } else {
            count
        };
        (self.scroll_offset, end)
    }

    /// The topmost visible row.
    pub fn scroll_offset(&self) -> (r: usize)
        ensures
            r == self@.scroll_offset,
    {
        self.scroll_offset
    }

    /// The number of content rows the viewport shows.
    pub fn screen_rows(&self) -> (r: usize)
        ensures
            r == self@.screen_rows,
    {
        self.screen_rows
    }

    /// The width of the viewport in columns.
    pub fn screen_cols(&self) -> (r: usize)
        ensures
            r == self@.screen_cols,
    {
        self.screen_cols
    }

    /// The current message-bar text.
    pub fn status(&self) -> (r: StatusMessage)
        ensures
            r == self@.status,
    {
        self.status
    }

    /// True iff the current message reverts to the help line on the next
    /// keystroke.
    pub fn message_is_temporary(&self) -> (r: bool)
        ensures
            r == self@.message_is_temporary,
    {
        self.message_is_temporary
    }

    /// How many saves have succeeded in this session.
    pub fn save_count(&self) -> (r: u64)
        ensures
            r == self@.save_count,
    {
        self.save_count
    }

    /// True once a quit request has been consumed.
    pub fn should_quit(&self) -> (r: bool)
        ensures
            r == self@.quit,
    {
        self.quit
    }
}

} // verus!
