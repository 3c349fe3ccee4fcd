//! The text storage engine, as far as the editor's rules speak of it.
//!
//! Buffers and workspaces are scribe's. Nothing here is proved: every
//! function below states, over `BufferState`, what the named scribe function
//! does, and the rest of the library is proved on top of those statements.
use vstd::prelude::*;
use crate::buffer::position::Position;
use crate::buffer::range::Range;
use crate::text::newline_count;

verus! {

/// scribe's buffer: a text with its cursor and its edit history. Proofs see
/// nothing inside it; what they know of it they know through
/// `buffer_state`.
#[verifier::external_type_specification]
#[verifier::external_body]
pub struct ExBuffer(scribe::Buffer);

/// scribe's workspace: the open buffers, one of them selected. Proofs see
/// nothing inside it but the state of the selected buffer, through
/// `current_state`.
#[verifier::external_type_specification]
#[verifier::external_body]
pub struct ExWorkspace(scribe::Workspace);

/// What a buffer holds: its text, the place of the gap in its storage, its
/// cursor, the offset that vertical motions try to return to, its identity
/// within the workspace, its path, and whether edits are being collected
/// into one undoable group.
///
/// The storage keeps the text in two parts around a gap, and looks for
/// positions in each part on its own; so which positions a text has
/// depends on where the gap is, and `gap` says how much of the text lies
/// before it.
pub struct BufferState {
    pub text: Seq<char>,
    pub gap: nat,
    pub cursor: Position,
    pub sticky_offset: usize,
    pub id: Option<usize>,
    pub path: Option<Seq<char>>,
    pub grouping: bool,
}

impl BufferState {
    /// Everything but the cursor and its sticky offset is as in `other`.
    pub open spec fn same_content(self, other: BufferState) -> bool {
        &&& self.text == other.text
        &&& self.gap == other.gap
        &&& self.id == other.id
        &&& self.path == other.path
        &&& self.grouping == other.grouping
    }

    /// Whether the text, with the gap where it is, has a position.
    pub open spec fn has(self, position: Position) -> bool {
        in_bounds(self.text, self.gap, position.line as nat, position.offset as nat)
    }

    /// Whether the cursor is at a position that the text has.
    pub open spec fn cursor_in_bounds(self) -> bool {
        self.has(self.cursor)
    }

    /// The state after a bounds-checked jump to `position`: the cursor and
    /// the sticky offset follow where the position exists in the text, and
    /// nothing changes where it does not.
    pub open spec fn moved_to(self, position: Position) -> BufferState {
        if self.has(position) {
            BufferState { cursor: position, sticky_offset: position.offset, ..self }
        } else {
            self
        }
    }
}

/// The state of a buffer.
pub uninterp spec fn buffer_state(buffer: scribe::Buffer) -> BufferState;

/// Whether a buffer has changed since it was read from or written to its
/// file, as its edit history tells.
pub uninterp spec fn is_modified(buffer: scribe::Buffer) -> bool;

/// The state of the buffer that a workspace has selected, if it has one.
pub uninterp spec fn current_state(workspace: scribe::Workspace) -> Option<BufferState>;

/// Whether a text has a position: what `GapBuffer::in_bounds` answers for a
/// gap buffer that holds the text with `gap` of it before the gap.
pub uninterp spec fn in_bounds(text: Seq<char>, gap: nat, line: nat, offset: nat) -> bool;

/// The state that `Cursor::move_up` leaves.
pub uninterp spec fn after_move_up(state: BufferState) -> BufferState;

/// The state that `Cursor::move_down` leaves.
pub uninterp spec fn after_move_down(state: BufferState) -> BufferState;

/// The state that `Cursor::move_to_end_of_line` leaves.
pub uninterp spec fn after_move_to_end_of_line(state: BufferState) -> BufferState;

/// The state that `Cursor::move_to_first_line` leaves.
pub uninterp spec fn after_move_to_first_line(state: BufferState) -> BufferState;

/// The state that `Cursor::move_to_last_line` leaves.
pub uninterp spec fn after_move_to_last_line(state: BufferState) -> BufferState;

/// The state that `Buffer::insert` leaves. Where the data finds no room in
/// the gap, the storage grows and the gap goes to the end of the text
/// before the cursor's position is looked up; `at_end` tells whether it
/// did.
pub uninterp spec fn after_insert(
    state: BufferState,
    data: Seq<char>,
    at_end: bool,
) -> BufferState;

/// The state that `Buffer::delete_range` leaves when it takes out the span
/// between two positions.
pub uninterp spec fn after_delete(state: BufferState, start: Position, end: Position) -> BufferState;

/// The text between two positions, where the text has both: what
/// `Buffer::read` yields for a text with `gap` of it before the gap.
pub uninterp spec fn text_between(
    text: Seq<char>,
    gap: nat,
    start: Position,
    end: Position,
) -> Option<Seq<char>>;

/// Reads `Workspace::current_buffer`: the selected buffer, borrowed for
/// changes. What the caller does to the buffer is what happens to the
/// workspace's selected buffer.
#[verifier::external_body]
pub(crate) fn current_buffer(workspace: &mut scribe::Workspace) -> (r: Option<&mut scribe::Buffer>)
    ensures
        match r {
            Some(buffer) => current_state(*old(workspace)) == Some(buffer_state(*buffer))
                && current_state(*final(workspace)) == Some(buffer_state(*final(buffer))),
            None => current_state(*old(workspace)) is None && *final(workspace) == *old(
                workspace,
            ),
        },
{
    workspace.current_buffer.as_mut()
}

/// Reads `Workspace::current_buffer`: the selected buffer, borrowed for
/// reading.
#[verifier::external_body]
pub(crate) fn current_buffer_ref(workspace: &scribe::Workspace) -> (r: Option<&scribe::Buffer>)
    ensures
        match r {
            Some(buffer) => current_state(*workspace) == Some(buffer_state(*buffer)),
            None => current_state(*workspace) is None,
        },
{
    workspace.current_buffer.as_ref()
}

/// `Buffer::data`: the text of the buffer.
#[verifier::external_body]
pub(crate) fn buffer_data(buffer: &scribe::Buffer) -> (r: String)
    ensures
        r@ == buffer_state(*buffer).text,
{
    buffer.data()
}

/// Reads the position of `Buffer::cursor`.
#[verifier::external_body]
pub(crate) fn cursor_position(buffer: &scribe::Buffer) -> (r: Position)
    ensures
        r == buffer_state(*buffer).cursor,
{
    Position { line: buffer.cursor.position.line, offset: buffer.cursor.position.offset }
}

/// Reads `Buffer::id`, which a workspace sets when the buffer is added to it.
#[verifier::external_body]
pub(crate) fn buffer_identity(buffer: &scribe::Buffer) -> (r: Option<usize>)
    ensures
        r == buffer_state(*buffer).id,
{
    buffer.id
}

/// Reads `Buffer::path`, as text.
#[verifier::external_body]
pub(crate) fn buffer_path(buffer: &scribe::Buffer) -> (r: Option<String>)
    ensures
        match r {
            Some(path) => buffer_state(*buffer).path == Some(path@),
            None => buffer_state(*buffer).path is None,
        },
{
    buffer.path.as_ref().map(|p| p.to_string_lossy().into_owned())
}

/// `Buffer::modified`: whether the buffer has changed since it was read
/// from or written to its file.
#[verifier::external_body]
pub(crate) fn buffer_modified(buffer: &scribe::Buffer) -> (r: bool)
    ensures
        r == is_modified(*buffer),
{
    buffer.modified()
}

/// `Cursor::move_to`: a bounds-checked jump. It answers whether the text has
/// the position, and moves the cursor only then. A position that the text
/// has is on one of its lines, and every text has the position at its very
/// start.
#[verifier::external_body]
pub(crate) fn cursor_move_to(buffer: &mut scribe::Buffer, position: Position) -> (r: bool)
    ensures
        r == in_bounds(
            buffer_state(*old(buffer)).text,
            buffer_state(*old(buffer)).gap,
            position.line as nat,
            position.offset as nat,
        ),
        r ==> position.line <= newline_count(buffer_state(*old(buffer)).text),
        position.line == 0 && position.offset == 0 ==> r,
        buffer_state(*final(buffer)) == buffer_state(*old(buffer)).moved_to(position),
{
    buffer.cursor.move_to(scribe::buffer::Position { line: position.line, offset: position.offset })
}

/// `Cursor::move_up`: one line up, to the sticky offset or else to the end
/// of that line. On line 0 nothing changes. Like every motion of the
/// cursor it leaves the text and the gap alone and goes through the
/// bounds-checked jump, so that a cursor within the text stays within the
/// text.
#[verifier::external_body]
pub(crate) fn cursor_move_up(buffer: &mut scribe::Buffer)
    ensures
        buffer_state(*final(buffer)) == after_move_up(buffer_state(*old(buffer))),
        buffer_state(*final(buffer)).same_content(buffer_state(*old(buffer))),
        buffer_state(*final(buffer)).sticky_offset == buffer_state(*old(buffer)).sticky_offset,
        buffer_state(*old(buffer)).cursor.line == 0 ==> buffer_state(*final(buffer)).cursor
            == buffer_state(*old(buffer)).cursor,
        buffer_state(*final(buffer)).cursor == buffer_state(*old(buffer)).cursor
            || buffer_state(*final(buffer)).cursor.line + 1 == buffer_state(
            *old(buffer),
        ).cursor.line,
        buffer_state(*old(buffer)).cursor_in_bounds() ==> buffer_state(
            *final(buffer),
        ).cursor_in_bounds(),
{
    buffer.cursor.move_up()
}

/// `Cursor::move_down`: one line down, to the sticky offset or else to the
/// end of that line. On the last line nothing changes.
#[verifier::external_body]
pub(crate) fn cursor_move_down(buffer: &mut scribe::Buffer)
    requires
        buffer_state(*old(buffer)).cursor.line < usize::MAX,
    ensures
        buffer_state(*final(buffer)) == after_move_down(buffer_state(*old(buffer))),
        buffer_state(*final(buffer)).same_content(buffer_state(*old(buffer))),
        buffer_state(*final(buffer)).sticky_offset == buffer_state(*old(buffer)).sticky_offset,
        buffer_state(*old(buffer)).cursor.line >= newline_count(buffer_state(*old(buffer)).text)
            ==> buffer_state(*final(buffer)).cursor == buffer_state(*old(buffer)).cursor,
        buffer_state(*final(buffer)).cursor == buffer_state(*old(buffer)).cursor
            || buffer_state(*final(buffer)).cursor.line == buffer_state(*old(buffer)).cursor.line
            + 1,
        buffer_state(*old(buffer)).cursor_in_bounds() ==> buffer_state(
            *final(buffer),
        ).cursor_in_bounds(),
{
    buffer.cursor.move_down()
}

/// `Cursor::move_left`: a bounds-checked jump one offset to the left. At
/// offset 0 nothing changes.
#[verifier::external_body]
pub(crate) fn cursor_move_left(buffer: &mut scribe::Buffer)
    ensures
        buffer_state(*final(buffer)) == if buffer_state(*old(buffer)).cursor.offset == 0 {
            buffer_state(*old(buffer))
        } else {
            buffer_state(*old(buffer)).moved_to(
                Position {
                    line: buffer_state(*old(buffer)).cursor.line,
                    offset: (buffer_state(*old(buffer)).cursor.offset - 1) as usize,
                },
            )
        },
{
    buffer.cursor.move_left()
}

/// `Cursor::move_right`: a bounds-checked jump one offset to the right.
#[verifier::external_body]
pub(crate) fn cursor_move_right(buffer: &mut scribe::Buffer)
    requires
        buffer_state(*old(buffer)).cursor.offset < usize::MAX,
    ensures
        buffer_state(*final(buffer)) == buffer_state(*old(buffer)).moved_to(
            Position {
                line: buffer_state(*old(buffer)).cursor.line,
                offset: (buffer_state(*old(buffer)).cursor.offset + 1) as usize,
            },
        ),
{
    buffer.cursor.move_right()
}

/// `Cursor::move_to_start_of_line`: a bounds-checked jump to offset 0 of the
/// cursor's line.
#[verifier::external_body]
pub(crate) fn cursor_move_to_start_of_line(buffer: &mut scribe::Buffer)
    ensures
        buffer_state(*final(buffer)) == buffer_state(*old(buffer)).moved_to(
            Position { line: buffer_state(*old(buffer)).cursor.line, offset: 0 },
        ),
{
    buffer.cursor.move_to_start_of_line()
}

/// `Cursor::move_to_end_of_line`: to the end of the cursor's line; the line
/// does not change.
#[verifier::external_body]
pub(crate) fn cursor_move_to_end_of_line(buffer: &mut scribe::Buffer)
    ensures
        buffer_state(*final(buffer)) == after_move_to_end_of_line(buffer_state(*old(buffer))),
        buffer_state(*final(buffer)).same_content(buffer_state(*old(buffer))),
        buffer_state(*final(buffer)).cursor.line == buffer_state(*old(buffer)).cursor.line,
        buffer_state(*old(buffer)).cursor_in_bounds() ==> buffer_state(
            *final(buffer),
        ).cursor_in_bounds(),
{
    buffer.cursor.move_to_end_of_line()
}

/// `Cursor::move_to_first_line`: to line 0, at the sticky offset or else at
/// the end of that line; where that jump fails nothing changes.
#[verifier::external_body]
pub(crate) fn cursor_move_to_first_line(buffer: &mut scribe::Buffer)
    ensures
        buffer_state(*final(buffer)) == after_move_to_first_line(buffer_state(*old(buffer))),
        buffer_state(*final(buffer)).same_content(buffer_state(*old(buffer))),
        buffer_state(*final(buffer)).cursor.line == 0 || buffer_state(*final(buffer))
            == buffer_state(*old(buffer)),
        buffer_state(*old(buffer)).cursor_in_bounds() ==> buffer_state(
            *final(buffer),
        ).cursor_in_bounds(),
{
    buffer.cursor.move_to_first_line()
}

/// `Cursor::move_to_last_line`: to the line after the last line break, at
/// the sticky offset or else at the end of that line; where that jump fails
/// nothing changes.
#[verifier::external_body]
pub(crate) fn cursor_move_to_last_line(buffer: &mut scribe::Buffer)
    ensures
        buffer_state(*final(buffer)) == after_move_to_last_line(buffer_state(*old(buffer))),
        buffer_state(*final(buffer)).same_content(buffer_state(*old(buffer))),
        buffer_state(*final(buffer)).cursor.line <= newline_count(
            buffer_state(*old(buffer)).text,
        ) || buffer_state(*final(buffer)) == buffer_state(*old(buffer)),
        buffer_state(*old(buffer)).cursor_in_bounds() ==> buffer_state(
            *final(buffer),
        ).cursor_in_bounds(),
{
    buffer.cursor.move_to_last_line()
}

/// `Buffer::insert`: puts the data into the text at the cursor. The cursor
/// stays where it is. What comes of it depends on whether the storage had
/// to grow, which moves the gap before the position is looked up.
#[verifier::external_body]
pub(crate) fn buffer_insert(buffer: &mut scribe::Buffer, data: &str)
    ensures
        buffer_state(*final(buffer)) == after_insert(buffer_state(*old(buffer)), data@, false)
            || buffer_state(*final(buffer)) == after_insert(
            buffer_state(*old(buffer)),
            data@,
            true,
        ),
        buffer_state(*final(buffer)).cursor == buffer_state(*old(buffer)).cursor,
        buffer_state(*final(buffer)).sticky_offset == buffer_state(*old(buffer)).sticky_offset,
        buffer_state(*final(buffer)).id == buffer_state(*old(buffer)).id,
        buffer_state(*final(buffer)).path == buffer_state(*old(buffer)).path,
        buffer_state(*final(buffer)).grouping == buffer_state(*old(buffer)).grouping,
{
    buffer.insert(data)
}

/// `Buffer::delete_range`: takes the span between two positions out of the
/// text. The cursor stays where it is.
#[verifier::external_body]
pub(crate) fn buffer_delete_range(buffer: &mut scribe::Buffer, range: &Range)
    requires
        range.end().line < usize::MAX,
    ensures
        buffer_state(*final(buffer)) == after_delete(
            buffer_state(*old(buffer)),
            range.start(),
            range.end(),
        ),
        buffer_state(*final(buffer)).cursor == buffer_state(*old(buffer)).cursor,
        buffer_state(*final(buffer)).sticky_offset == buffer_state(*old(buffer)).sticky_offset,
        buffer_state(*final(buffer)).id == buffer_state(*old(buffer)).id,
        buffer_state(*final(buffer)).path == buffer_state(*old(buffer)).path,
        buffer_state(*final(buffer)).grouping == buffer_state(*old(buffer)).grouping,
{
    buffer.delete_range(
        scribe::buffer::Range::new(
            scribe::buffer::Position { line: range.start().line, offset: range.start().offset },
            scribe::buffer::Position { line: range.end().line, offset: range.end().offset },
        ),
    )
}

/// `Buffer::read`: the text between two positions, or none where the text
/// lacks one of them.
#[verifier::external_body]
pub(crate) fn buffer_read(buffer: &scribe::Buffer, range: &Range) -> (r: Option<String>)
    ensures
        match r {
            Some(content) => text_between(
                buffer_state(*buffer).text,
                buffer_state(*buffer).gap,
                range.start(),
                range.end(),
            ) == Some(content@),
            None => text_between(
                buffer_state(*buffer).text,
                buffer_state(*buffer).gap,
                range.start(),
                range.end(),
            ) is None,
        },
{
    buffer.read(
        &scribe::buffer::Range::new(
            scribe::buffer::Position { line: range.start().line, offset: range.start().offset },
            scribe::buffer::Position { line: range.end().line, offset: range.end().offset },
        ),
    )
}

/// `Buffer::start_operation_group`: from here on, edits are collected into
/// one undoable unit.
#[verifier::external_body]
pub(crate) fn start_operation_group(buffer: &mut scribe::Buffer)
    ensures
        buffer_state(*final(buffer)) == (BufferState {
            grouping: true,
            ..buffer_state(*old(buffer))
        }),
{
    buffer.start_operation_group()
}

/// `Buffer::end_operation_group`: closes the unit that edits were collected
/// into.
#[verifier::external_body]
pub(crate) fn end_operation_group(buffer: &mut scribe::Buffer)
    ensures
        buffer_state(*final(buffer)) == (BufferState {
            grouping: false,
            ..buffer_state(*old(buffer))
        }),
{
    buffer.end_operation_group()
}

} // verus!
