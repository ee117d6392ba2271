//! The document: an ordered, never-empty sequence of text lines, the optional
//! save target, and a dirty flag.
//!
//! Lines hold single-byte characters (`Vec<u8>`), matching the storage format:
//! lines joined by a single `\n`, no trailing newline, no encoding conversion.
//! The two persist operations are split at the I/O edge: the buffer computes
//! the resolved target path and the serialized content as a [`SaveRequest`],
//! the caller performs the one external write and reports back.

use vstd::prelude::*;

verus! {

broadcast use crate::views::lemma_bytes_deep_view, crate::views::lemma_lines_deep_view_index;

/// The line separator of the storage format.
pub const NEWLINE: u8 = 10;

/// The path separator used when a bare name is resolved against the
/// fallback base directory.
pub const PATH_SEPARATOR: u8 = 47;

/// The error kinds of the editor core.
///
/// Only `NoTargetLocation` arises inside this crate (a save was requested with
/// no location resolved and no fallback).  The two storage kinds stand for a
/// failed external read or write; the caller that performs the I/O maps its
/// errors onto them.
#[derive(Clone, Copy, Debug, PartialEq, Eq, Structural)]
pub enum EditorError {
    NoTargetLocation,
    StorageReadFailure,
    StorageWriteFailure,
}

/// One pending external write: the resolved target path and the serialized
/// document content.  The caller attempts exactly one write of `content` to
/// `path` and reports the outcome back to the session.
pub struct SaveRequest {
    pub path: Vec<u8>,
    pub content: Vec<u8>,
}

/// Mathematical model of a [`Buffer`].
pub ghost struct BufferView {
    pub lines: Seq<Seq<u8>>,
    pub filename: Option<Seq<u8>>,
    pub save_directory: Option<Seq<u8>>,
    pub modified: bool,
}

impl BufferView {
    /// The document invariant: the line sequence is never empty.
    pub open spec fn inv(self) -> bool {
        self.lines.len() >= 1
    }
}

/// Serialization: all lines joined by a single `\n` separator, with no
/// trailing newline appended.
pub open spec fn join_lines_spec(lines: Seq<Seq<u8>>) -> Seq<u8>
    decreases lines.len(),
{
    if lines.len() == 0 {
        Seq::empty()
    } else if lines.len() == 1 {
        lines[0]
    } else {
        lines[0] + seq![NEWLINE] + join_lines_spec(lines.drop_first())
    }
}

/// Splits content at every `\n`, keeping empty segments; always yields at
/// least one segment (empty content yields one empty segment).
pub open spec fn split_raw_spec(content: Seq<u8>) -> Seq<Seq<u8>>
    decreases content.len(),
{
    if content.len() == 0 {
        seq![Seq::<u8>::empty()]
    } else if content[0] == NEWLINE {
        seq![Seq::<u8>::empty()] + split_raw_spec(content.drop_first())
    } else {
        let rest = split_raw_spec(content.drop_first());
        seq![seq![content[0]] + rest[0]] + rest.drop_first()
    }
}

/// Loading: how stored content becomes a line sequence.  Content is split at
/// every `\n`; one final empty segment produced by a trailing newline is
/// dropped, and empty content becomes the single empty line, so the result is
/// never empty.
pub open spec fn split_content_spec(content: Seq<u8>) -> Seq<Seq<u8>> {
    if content.len() == 0 {
        seq![Seq::<u8>::empty()]
    } else if content.last() == NEWLINE {
        split_raw_spec(content).drop_last()
    } else {
        split_raw_spec(content)
    }
}

/// The resolved save target: a bare name handed to a document that has a
/// fallback base directory but no location yet is resolved against that
/// directory; anything else is taken as given.
pub open spec fn resolve_target_spec(
    filename: Option<Seq<u8>>,
    save_directory: Option<Seq<u8>>,
    path: Seq<u8>,
) -> Seq<u8> {
    if filename is None && save_directory is Some {
        save_directory->0 + seq![PATH_SEPARATOR] + path
    } else {
        path
    }
}

/// The in-memory document.
pub struct Buffer {
    lines: Vec<Vec<u8>>,
    filename: Option<Vec<u8>>,
    save_directory: Option<Vec<u8>>,
    modified: bool,
}

impl View for Buffer {
    type V = BufferView;

    closed spec fn view(&self) -> BufferView {
        BufferView {
            lines: self.lines.deep_view(),
            filename: self.filename.deep_view(),
            save_directory: self.save_directory.deep_view(),
            modified: self.modified,
        }
    }
}

impl Buffer {
    /// A brand-new document: exactly one empty line, no save target, clean.
    pub fn new() -> (r: Buffer)
        ensures
            r@.lines == seq![Seq::<u8>::empty()],
            r@.filename is None,
            r@.save_directory is None,
            !r@.modified,
            r@.inv(),
    {
        let mut lines: Vec<Vec<u8>> = Vec::new();
        lines.push(Vec::new());
        let r = Buffer { lines, filename: None, save_directory: None, modified: false };
        proof {
            assert(r@.lines =~~= seq![Seq::<u8>::empty()]);
        }
        r
    }

    /// The number of lines; at least 1 for any buffer satisfying the invariant.
    pub fn line_count(&self) -> (r: usize)
        ensures
            r == self@.lines.len(),
    {
        self.lines.len()
    }

    /// A document loaded from stored content: the caller reads the bytes at
    /// `path` and hands them in; the buffer splits them into lines and takes
    /// `path` as its location.
    pub fn from_file(path: Vec<u8>, content: &Vec<u8>) -> (r: Buffer)
        ensures
            r@.lines == split_content_spec(content@),
            r@.filename == Some(path@),
            r@.save_directory is None,
            !r@.modified,
            r@.inv(),
    {
        let lines = split_content(content);
        Buffer { lines, filename: Some(path), save_directory: None, modified: false }
    }

    /// The line at `index`, if there is one.
    pub fn get_line(&self, index: usize) -> (r: Option<&Vec<u8>>)
        ensures
            index < self@.lines.len() ==> (r matches Some(l) && l@ == self@.lines[index as int]),
            index >= self@.lines.len() ==> r is None,
    {
        if index < self.lines.len() {
            Some(&self.lines[index])
        } else {
            None
        }
    }

    /// The length of the line at `row`, or 0 when `row` is out of range.
    pub fn line_len(&self, row: usize) -> (r: usize)
        ensures
            row < self@.lines.len() ==> r == self@.lines[row as int].len(),
            row >= self@.lines.len() ==> r == 0,
    {
        if row < self.lines.len() {
            self.lines[row].len()
        } else {
            0
        }
    }

    /// True iff the lines differ from the last persisted state.
    pub fn is_modified(&self) -> (r: bool)
        ensures
            r == self@.modified,
    {
        self.modified
    }

    /// The resolved storage location, if one has been set.
    pub fn filename(&self) -> (r: Option<&Vec<u8>>)
        ensures
            r is Some <==> self@.filename is Some,
            r matches Some(p) ==> p@ == self@.filename->0,
    {
        match &self.filename {
            Some(p) => Some(p),
            None => None,
        }
    }

    /// Sets the storage location, replacing any earlier one.
    pub fn set_filename(&mut self, path: Vec<u8>)
        ensures
            final(self)@ == (BufferView { filename: Some(path@), ..old(self)@ }),
    {
        self.filename = Some(path);
    }

    /// Sets the fallback base directory against which a bare name handed to
    /// [`Buffer::save_as`] is resolved while no location is set.
    pub fn set_save_directory(&mut self, directory: Vec<u8>)
        ensures
            final(self)@ == (BufferView { save_directory: Some(directory@), ..old(self)@ }),
    {
        self.save_directory = Some(directory);
    }

    /// Inserts `ch` at byte offset `col` of line `row` and marks the document
    /// dirty; a no-op when either index is out of range.
    pub fn insert_char(&mut self, row: usize, col: usize, ch: u8)
        ensures
            row < old(self)@.lines.len() && col <= old(self)@.lines[row as int].len()
                ==> final(self)@ == (BufferView {
                    lines: old(self)@.lines.update(
                        row as int,
                        old(self)@.lines[row as int].insert(col as int, ch),
                    ),
                    modified: true,
                    ..old(self)@
                }),
            !(row < old(self)@.lines.len() && col <= old(self)@.lines[row as int].len())
                ==> final(self)@ == old(self)@,
            old(self)@.inv() ==> final(self)@.inv(),
    {
        if row < self.lines.len() {
            if col <= self.lines[row].len() {
                self.lines[row].insert(col, ch);
                self.modified = true;
                proof {
                    assert(self@.lines =~~= old(self)@.lines.update(
                        row as int,
                        old(self)@.lines[row as int].insert(col as int, ch),
                    ));
                }
            }
        }
    }

    /// Removes the character at byte offset `col` of line `row` and marks the
    /// document dirty; a no-op when either index is out of range.
    pub fn delete_char(&mut self, row: usize, col: usize)
        ensures
            row < old(self)@.lines.len() && col < old(self)@.lines[row as int].len()
                ==> final(self)@ == (BufferView {
                    lines: old(self)@.lines.update(
                        row as int,
                        old(self)@.lines[row as int].remove(col as int),
                    ),
                    modified: true,
                    ..old(self)@
                }),
            !(row < old(self)@.lines.len() && col < old(self)@.lines[row as int].len())
                ==> final(self)@ == old(self)@,
            old(self)@.inv() ==> final(self)@.inv(),
    {
        if row < self.lines.len() && col < self.lines[row].len() {
            self.lines[row].remove(col);
            self.modified = true;
            proof {
                assert(self@.lines =~~= old(self)@.lines.update(
                    row as int,
                    old(self)@.lines[row as int].remove(col as int),
                ));
            }
        }
    }

    /// Splits line `row` at byte offset `col`: the line is truncated to `col`
    /// and a new line holding the remainder is inserted right after it.  Marks
    /// the document dirty; a no-op when either index is out of range.
    pub fn insert_newline(&mut self, row: usize, col: usize)
        ensures
            row < old(self)@.lines.len() && col <= old(self)@.lines[row as int].len()
                ==> final(self)@ == (BufferView {
                    lines: old(self)@.lines.update(
                        row as int,
                        old(self)@.lines[row as int].take(col as int),
                    ).insert(row + 1, old(self)@.lines[row as int].skip(col as int)),
                    modified: true,
                    ..old(self)@
                }),
            !(row < old(self)@.lines.len() && col <= old(self)@.lines[row as int].len())
                ==> final(self)@ == old(self)@,
            old(self)@.inv() ==> final(self)@.inv(),
    {
        if row < self.lines.len() {
            if col <= self.lines[row].len() {
                let remainder = self.lines[row].split_off(col);
                self.lines.insert(row + 1, remainder);
                self.modified = true;
                proof {
                    assert(self@.lines =~~= old(self)@.lines.update(
                        row as int,
                        old(self)@.lines[row as int].take(col as int),
                    ).insert(row + 1, old(self)@.lines[row as int].skip(col as int)));
                }
            }
        }
    }

    /// Joins line `row` onto the end of line `row - 1` and removes line `row`.
    /// Marks the document dirty; a no-op unless `0 < row < line count`.
    pub fn delete_newline(&mut self, row: usize)
        ensures
            0 < row < old(self)@.lines.len()
                ==> final(self)@ == (BufferView {
                    lines: old(self)@.lines.update(
                        row - 1,
                        old(self)@.lines[row - 1] + old(self)@.lines[row as int],
                    ).remove(row as int),
                    modified: true,
                    ..old(self)@
                }),
            !(0 < row < old(self)@.lines.len()) ==> final(self)@ == old(self)@,
            old(self)@.inv() ==> final(self)@.inv(),
    {
        if row > 0 && row < self.lines.len() {
            let mut removed = self.lines.remove(row);
            let mut joined = self.lines.remove(row - 1);
            joined.append(&mut removed);
            self.lines.insert(row - 1, joined);
            self.modified = true;
            proof {
                assert(self@.lines =~~= old(self)@.lines.update(
                    row - 1,
                    old(self)@.lines[row - 1] + old(self)@.lines[row as int],
                ).remove(row as int));
            }
        }
    }

    /// Marks the document as persisted: the in-memory lines now agree with the
    /// stored state.  The caller invokes this after a successful write.
    pub fn mark_saved(&mut self)
        ensures
            final(self)@ == (BufferView { modified: false, ..old(self)@ }),
    {
        self.modified = false;
    }

    /// The pending write for a plain save: fails with
    /// [`EditorError::NoTargetLocation`] iff no location is set; otherwise the
    /// request carries the location and all lines joined by a single `\n`.
    pub fn save(&self) -> (r: Result<SaveRequest, EditorError>)
        ensures
            r is Ok <==> self@.filename is Some,
            r matches Ok(req) ==> req.path@ == self@.filename->0
                && req.content@ == join_lines_spec(self@.lines),
            r matches Err(e) ==> e == EditorError::NoTargetLocation,
    {
        match &self.filename {
            Some(path) => {
                let mut path_copy: Vec<u8> = Vec::new();
                append_bytes(&mut path_copy, path);
                Ok(SaveRequest { path: path_copy, content: join_lines(&self.lines) })
            }
            None => Err(EditorError::NoTargetLocation),
        }
    }

    /// The pending write for a save under a (possibly new) name: `path` is
    /// resolved against the fallback base directory when no location is set
    /// yet, becomes the new location, and the request carries it together
    /// with the serialized lines.  The dirty flag is untouched until the
    /// caller reports the write's outcome.
    pub fn save_as(&mut self, path: Vec<u8>) -> (r: SaveRequest)
        ensures
            r.path@ == resolve_target_spec(
                old(self)@.filename,
                old(self)@.save_directory,
                path@,
            ),
            r.content@ == join_lines_spec(old(self)@.lines),
            final(self)@ == (BufferView { filename: Some(r.path@), ..old(self)@ }),
    {
        let full_path: Vec<u8> = if self.filename.is_none() && self.save_directory.is_some() {
            let mut joined: Vec<u8> = Vec::new();
            match &self.save_directory {
                Some(dir) => append_bytes(&mut joined, dir),
                None => {}
            }
            joined.push(PATH_SEPARATOR);
            append_bytes(&mut joined, &path);
            joined
        } else {
            path
        };
        let mut path_copy: Vec<u8> = Vec::new();
        append_bytes(&mut path_copy, &full_path);
        let content = join_lines(&self.lines);
        self.filename = Some(full_path);
        SaveRequest { path: path_copy, content }
    }
}

/// Appends a copy of `src` onto the end of `dst`.
fn append_bytes(dst: &mut Vec<u8>, src: &Vec<u8>)
    ensures
        final(dst)@ == old(dst)@ + src@,
{
    let mut j: usize = 0;
    proof {
        assert(dst@ + src@.take(0) =~= dst@);
    }
    while j < src.len()
        invariant
            j <= src@.len(),
            dst@ == old(dst)@ + src@.take(j as int),
        decreases src@.len() - j,
    {
        dst.push(src[j]);
        j = j + 1;
        proof {
            assert(old(dst)@ + src@.take(j as int)
                =~= (old(dst)@ + src@.take(j - 1)).push(src@[j - 1]));
        }
    }
    proof {
        assert(src@.take(src@.len() as int) =~= src@);
    }
}

/// Joining a non-empty line sequence and one further line places a single
/// separator between them.
proof fn lemma_join_push(lines: Seq<Seq<u8>>, l: Seq<u8>)
    requires
        lines.len() >= 1,
    ensures
        join_lines_spec(lines.push(l)) == join_lines_spec(lines) + seq![NEWLINE] + l,
    decreases lines.len(),
{
    if lines.len() == 1 {
        assert(lines.push(l).drop_first() =~= seq![l]);
        assert(lines.push(l)[0] == lines[0]);
        assert(join_lines_spec(seq![l]) == l);
        assert(join_lines_spec(lines) == lines[0]);
    } else {
        lemma_join_push(lines.drop_first(), l);
        assert(lines.push(l).drop_first() =~= lines.drop_first().push(l));
        assert(join_lines_spec(lines) + seq![NEWLINE] + l
            =~= lines[0] + seq![NEWLINE] + (join_lines_spec(lines.drop_first()) + seq![NEWLINE] + l));
    }
}

/// Serializes the lines: all of them joined by a single `\n`, no trailing
/// newline appended.
pub fn join_lines(lines: &Vec<Vec<u8>>) -> (content: Vec<u8>)
    ensures
        content@ == join_lines_spec(lines.deep_view()),
{
    let mut content: Vec<u8> = Vec::new();
    let mut i: usize = 0;
    while i < lines.len()
        invariant
            i <= lines@.len(),
            content@ == join_lines_spec(lines.deep_view().take(i as int)),
        decreases lines@.len() - i,
    {
        if i > 0 {
            content.push(NEWLINE);
        }
        append_bytes(&mut content, &lines[i]);
        i = i + 1;
        proof {
            let dv = lines.deep_view();
            let prev = join_lines_spec(dv.take(i - 1));
            if i == 1 {
                assert(prev + dv[0] =~= dv[0]);
                assert(dv.take(1)[0] == dv[0]);
                assert(join_lines_spec(dv.take(1)) == dv.take(1)[0]);
            } else {
                lemma_join_push(dv.take(i - 1), dv[i - 1]);
                assert(prev.push(NEWLINE) + dv[i - 1] =~= prev + seq![NEWLINE] + dv[i - 1]);
                assert(dv.take(i as int) =~= dv.take(i - 1).push(dv[i - 1]));
            }
        }
    }
    proof {
        assert(lines.deep_view().take(lines@.len() as int) =~= lines.deep_view());
    }
    content
}

/// Splitting at `\n` always yields at least one segment.
proof fn lemma_split_raw_len(content: Seq<u8>)
    ensures
        split_raw_spec(content).len() >= 1,
    decreases content.len(),
{
    if content.len() > 0 {
        lemma_split_raw_len(content.drop_first());
    }
}

/// How one further byte extends a raw split: a `\n` opens a new empty
/// segment, any other byte lengthens the last one.
proof fn lemma_split_raw_push(content: Seq<u8>, b: u8)
    ensures
        b == NEWLINE ==> split_raw_spec(content.push(b))
            == split_raw_spec(content).push(Seq::<u8>::empty()),
        b != NEWLINE ==> split_raw_spec(content.push(b)) == split_raw_spec(content).update(
            split_raw_spec(content).len() - 1,
            split_raw_spec(content).last().push(b),
        ),
    decreases content.len(),
{
    lemma_split_raw_len(content);
    if content.len() == 0 {
        assert(content.push(b)[0] == b);
        assert(content.push(b).drop_first() =~= content);
        if b == NEWLINE {
            assert(split_raw_spec(content.push(b))
                =~~= split_raw_spec(content).push(Seq::<u8>::empty()));
        } else {
            assert(split_raw_spec(content.push(b)) =~~= split_raw_spec(content).update(
                0,
                split_raw_spec(content).last().push(b),
            ));
        }
    } else {
        lemma_split_raw_push(content.drop_first(), b);
        lemma_split_raw_len(content.drop_first());
        assert(content.push(b).drop_first() =~= content.drop_first().push(b));
        assert(content.push(b)[0] == content[0]);
        if b == NEWLINE {
            assert(split_raw_spec(content.push(b))
                =~~= split_raw_spec(content).push(Seq::<u8>::empty()));
        } else {
            assert(split_raw_spec(content.push(b)) =~~= split_raw_spec(content).update(
                split_raw_spec(content).len() - 1,
                split_raw_spec(content).last().push(b),
            ));
        }
    }
}

/// The last raw segment is empty exactly when the content ends with `\n`.
proof fn lemma_split_raw_last(content: Seq<u8>)
    requires
        content.len() >= 1,
    ensures
        content.last() == NEWLINE ==> split_raw_spec(content).last() == Seq::<u8>::empty(),
        content.last() == NEWLINE ==> split_raw_spec(content).len() >= 2,
        content.last() != NEWLINE ==> split_raw_spec(content).last().len() >= 1,
{
    lemma_split_raw_len(content.drop_last());
    lemma_split_raw_push(content.drop_last(), content.last());
    assert(content.drop_last().push(content.last()) =~= content);
}

/// Splits stored content into lines, as [`split_content_spec`] describes.
pub fn split_content(content: &Vec<u8>) -> (lines: Vec<Vec<u8>>)
    ensures
        lines.deep_view() == split_content_spec(content@),
        lines@.len() >= 1,
{
    let mut lines: Vec<Vec<u8>> = Vec::new();
    let mut cur: Vec<u8> = Vec::new();
    let mut i: usize = 0;
    proof {
        assert(lines.deep_view().push(cur@) =~~= split_raw_spec(content@.take(0)));
    }
    while i < content.len()
        invariant
            i <= content@.len(),
            lines.deep_view().push(cur@) == split_raw_spec(content@.take(i as int)),
        decreases content@.len() - i,
    {
        let b = content[i];
        proof {
            lemma_split_raw_push(content@.take(i as int), b);
            assert(content@.take(i + 1) =~= content@.take(i as int).push(b));
        }
        if b == NEWLINE {
            let ghost prev_lines = lines.deep_view();
            lines.push(cur);
            cur = Vec::new();
            proof {
                assert(lines.deep_view() =~~= prev_lines.push(split_raw_spec(
                    content@.take(i as int),
                ).last()));
                assert(lines.deep_view().push(cur@)
                    =~~= split_raw_spec(content@.take(i + 1)));
            }
        } else {
            cur.push(b);
            proof {
                assert(lines.deep_view().push(cur@)
                    =~~= split_raw_spec(content@.take(i + 1)));
            }
        }
        i = i + 1;
    }
    proof {
        assert(content@.take(content@.len() as int) =~= content@);
    }
    if cur.len() > 0 || lines.len() == 0 {
        let ghost prev_lines = lines.deep_view();
        lines.push(cur);
        proof {
            assert(cur@ == split_raw_spec(content@).last());
            assert(lines.deep_view() =~~= prev_lines.push(split_raw_spec(content@).last()));
            if content@.len() == 0 {
                assert(lines.deep_view() =~~= seq![Seq::<u8>::empty()]);
            } else {
                lemma_split_raw_last(content@);
                if content@.last() == NEWLINE {
                    assert(cur@.len() == 0);
                    assert(prev_lines.len() == 0);
                    assert(split_raw_spec(content@).len() == 1);
                }
                assert(content@.last() != NEWLINE);
                assert(lines.deep_view() =~~= split_raw_spec(content@));
            }
        }
    } else {
        proof {
            lemma_split_raw_len(content@);
            assert(cur@ == split_raw_spec(content@).last());
            assert(content@.len() > 0);
            lemma_split_raw_last(content@);
            assert(content@.last() == NEWLINE);
            assert(lines.deep_view() =~~= split_raw_spec(content@).drop_last());
        }
    }
    lines
}

/// True iff the line contains no `\n` separator byte.
pub open spec fn newline_free(line: Seq<u8>) -> bool {
    forall|j: int| 0 <= j < line.len() ==> line[j] != NEWLINE
}

/// A newline-free content splits into a single segment: itself.
proof fn lemma_split_raw_no_newline(s: Seq<u8>)
    requires
        newline_free(s),
    ensures
        split_raw_spec(s) == seq![s],
    decreases s.len(),
{
    if s.len() == 0 {
        assert(split_raw_spec(s) =~~= seq![s]);
    } else {
        assert forall|j: int| 0 <= j < s.drop_first().len() implies s.drop_first()[j]
            != NEWLINE by {
            assert(s.drop_first()[j] == s[j + 1]);
        }
        lemma_split_raw_no_newline(s.drop_first());
        assert(split_raw_spec(s) =~~= seq![s]);
    }
}

/// Splitting `a + "\n" + b` splits off `a` whole when `a` is newline-free.
proof fn lemma_split_raw_concat(a: Seq<u8>, b: Seq<u8>)
    requires
        newline_free(a),
    ensures
        split_raw_spec(a + seq![NEWLINE] + b) == seq![a] + split_raw_spec(b),
    decreases a.len(),
{
    let s = a + seq![NEWLINE] + b;
    lemma_split_raw_len(b);
    if a.len() == 0 {
        assert(s[0] == NEWLINE);
        assert(s.drop_first() =~= b);
        assert(split_raw_spec(s) =~~= seq![a] + split_raw_spec(b));
    } else {
        assert(s[0] == a[0] && a[0] != NEWLINE);
        assert(s.drop_first() =~= a.drop_first() + seq![NEWLINE] + b);
        assert forall|j: int| 0 <= j < a.drop_first().len() implies a.drop_first()[j]
            != NEWLINE by {
            assert(a.drop_first()[j] == a[j + 1]);
        }
        lemma_split_raw_concat(a.drop_first(), b);
        let rest = split_raw_spec(s.drop_first());
        assert(rest == seq![a.drop_first()] + split_raw_spec(b));
        assert(rest[0] == a.drop_first());
        assert(rest.drop_first() =~~= split_raw_spec(b));
        assert(seq![s[0]] + rest[0] =~= a);
        assert(split_raw_spec(s) =~~= seq![a] + split_raw_spec(b));
    }
}

/// Splitting at every `\n` undoes joining, for newline-free lines.
proof fn lemma_split_raw_join(lines: Seq<Seq<u8>>)
    requires
        lines.len() >= 1,
        forall|i: int| 0 <= i < lines.len() ==> newline_free(#[trigger] lines[i]),
    ensures
        split_raw_spec(join_lines_spec(lines)) == lines,
    decreases lines.len(),
{
    if lines.len() == 1 {
        lemma_split_raw_no_newline(lines[0]);
        assert(seq![lines[0]] =~~= lines);
    } else {
        assert forall|i: int| 0 <= i < lines.drop_first().len() implies newline_free(
            #[trigger] lines.drop_first()[i],
        ) by {
            assert(lines.drop_first()[i] == lines[i + 1]);
        }
        lemma_split_raw_join(lines.drop_first());
        lemma_split_raw_concat(lines[0], join_lines_spec(lines.drop_first()));
        assert(seq![lines[0]] + lines.drop_first() =~~= lines);
    }
}

/// A join whose last line is non-empty ends with that line's last byte.
proof fn lemma_join_last(lines: Seq<Seq<u8>>)
    requires
        lines.len() >= 1,
        lines.last().len() >= 1,
    ensures
        join_lines_spec(lines).len() >= 1,
        join_lines_spec(lines).last() == lines.last().last(),
    decreases lines.len(),
{
    if lines.len() == 1 {
        assert(join_lines_spec(lines) == lines[0]);
    } else {
        assert(lines.drop_first().last() == lines.last());
        lemma_join_last(lines.drop_first());
        let tail = join_lines_spec(lines.drop_first());
        assert((lines[0] + seq![NEWLINE] + tail).last() == tail.last());
    }
}

/// Law: persisting a document and loading the stored content back yields the
/// identical line sequence, provided no line contains the separator byte and
/// the trailing-empty-line ambiguity is excluded (the last line is non-empty,
/// or the document is exactly one line).
pub proof fn lemma_save_load_round_trip(lines: Seq<Seq<u8>>)
    requires
        lines.len() >= 1,
        forall|i: int| 0 <= i < lines.len() ==> newline_free(#[trigger] lines[i]),
        lines.last().len() >= 1 || lines.len() == 1,
    ensures
        split_content_spec(join_lines_spec(lines)) == lines,
{
    let j = join_lines_spec(lines);
    lemma_split_raw_join(lines);
    if lines.len() == 1 {
        assert(j == lines[0]);
        if lines[0].len() == 0 {
            assert(split_content_spec(j) =~~= lines);
        } else {
            assert(j.last() == lines[0][lines[0].len() - 1]);
            assert(j.last() != NEWLINE);
            assert(split_content_spec(j) == split_raw_spec(j));
        }
    } else {
        lemma_join_last(lines);
        assert(j.last() == lines.last().last());
        assert(lines.last().last() != NEWLINE);
        assert(split_content_spec(j) == split_raw_spec(j));
    }
}

} // verus!
