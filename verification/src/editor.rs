//! The editing session: the view, the cursor with its sticky column, the
//! current mode, and the state machine that turns one input event into the
//! corresponding edits and cursor moves. The machine is specified by `step`:
//! a function from the session's model and an event to the next model, with
//! `step_action` naming the one side effect (saving, clearing the status
//! message) the caller must carry out afterwards.

use vstd::prelude::*;
use vstd::view::View as _;

use crate::buffer::{
    backspace_moves, backspace_req, backspace_rows, enter_rows, new_line_rows, write_req,
    write_rows, Backspace, Buffer,
};
use crate::cursor::Cursor;
use crate::rows::copy_lines;
use crate::history::{hist_in_past, hist_record, hist_undo, hist_redo, hist_wf, HistoryModel};
use crate::position::{pos_down, pos_right, Position};
use crate::rows::line_len_at;
use crate::view::{Size, View};

verus! {

#[derive(Clone, Copy, Debug, PartialEq, Eq, Structural)]
pub enum Mode {
    Insert,
    Normal,
}

/// One input event, reduced to plain values: a character key with whether
/// Control was held, the special keys the editor reacts to, a terminal
/// resize, or anything else.
#[derive(Clone, Copy, Debug, PartialEq, Eq, Structural)]
pub enum Input {
    Key(char, bool),
    Esc,
    Enter,
    Backspace,
    Tab,
    Resize(u16, u16),
    Other,
}

/// What the caller must do after an event is handled: nothing, save the
/// document, or clear the status message line.
#[derive(Clone, Copy, Debug, PartialEq, Eq, Structural)]
pub enum Action {
    Idle,
    Save,
    ClearMessage,
}

pub struct Editor {
    pub view: View,
    pub cursor: Cursor,
    pub mode: Mode,
    pub quit: bool,
}

/// The session as plain mathematics: the document, the history, the file
/// path, and the interaction state.
#[verifier::ext_equal]
pub struct EditorModel {
    pub rows: Seq<Seq<char>>,
    pub hist: HistoryModel,
    pub file: Seq<char>,
    pub cursor: Cursor,
    pub mode: Mode,
    pub quit: bool,
    pub size: Size,
    pub redraw: bool,
}

/// Whether row `y` is short enough for its length to serve as a `u16` column.
pub open spec fn line_fits(rows: Seq<Seq<char>>, y: int) -> bool {
    line_len_at(rows, y) <= u16::MAX
}

/// One column left, remembering the new column as the sticky column.
pub open spec fn cursor_left(c: Cursor) -> Cursor {
    let nx = if c.position.x == 0 {
        0u16
    } else {
        (c.position.x - 1) as u16
    };
    Cursor { position: Position { x: nx, y: c.position.y }, previous_x: nx }
}

/// One column right when not at the row's end, remembering the new column.
pub open spec fn cursor_right(c: Cursor, rows: Seq<Seq<char>>, width: u16) -> Cursor {
    if c.position.x < line_len_at(rows, c.position.y as int) {
        let p = pos_right(c.position, width);
        Cursor { position: p, previous_x: p.x }
    } else {
        c
    }
}

/// The cursor snapped to the end of its current row.
pub open spec fn cursor_corrected(c: Cursor, rows: Seq<Seq<char>>) -> Cursor {
    Cursor {
        position: Position {
            x: line_len_at(rows, c.position.y as int) as u16,
            y: c.position.y,
        },
        previous_x: c.previous_x,
    }
}

/// The sticky-column rule: steer back out to the remembered column, but never
/// past the end of the current row.
pub open spec fn cursor_recall(c: Cursor, rows: Seq<Seq<char>>) -> Cursor {
    let len = line_len_at(rows, c.position.y as int);
    let x1 = if c.position.x < c.previous_x {
        c.previous_x
    } else {
        c.position.x
    };
    let x2 = if len < c.previous_x {
        len as u16
    } else {
        x1
    };
    Cursor { position: Position { x: x2, y: c.position.y }, previous_x: c.previous_x }
}

/// Land on row `ny`: clamp the column to the row's length, then apply the
/// sticky-column rule.
pub open spec fn vertical_settle(c: Cursor, rows: Seq<Seq<char>>, ny: u16) -> Cursor {
    let moved = Cursor { position: Position { x: c.position.x, y: ny }, previous_x: c.previous_x };
    let clamped = if moved.position.x > line_len_at(rows, ny as int) {
        cursor_corrected(moved, rows)
    } else {
        moved
    };
    cursor_recall(clamped, rows)
}

/// The row one step up, stopping at the first row.
pub open spec fn up_target(p: Position) -> u16 {
    if p.y == 0 {
        0u16
    } else {
        (p.y - 1) as u16
    }
}

pub open spec fn cursor_up(c: Cursor, rows: Seq<Seq<char>>) -> Cursor {
    vertical_settle(c, rows, up_target(c.position))
}

pub open spec fn cursor_down(c: Cursor, rows: Seq<Seq<char>>, height: u16) -> Cursor {
    vertical_settle(c, rows, pos_down(c.position, height).y)
}

pub open spec fn up_req(c: Cursor, rows: Seq<Seq<char>>) -> bool {
    line_fits(rows, up_target(c.position) as int)
}

pub open spec fn down_req(c: Cursor, rows: Seq<Seq<char>>, height: u16) -> bool {
    &&& height >= 2
    &&& (c.position.y != height - 2 ==> c.position.y < u16::MAX)
    &&& line_fits(rows, pos_down(c.position, height).y as int)
}

pub open spec fn right_req(c: Cursor, rows: Seq<Seq<char>>) -> bool {
    line_fits(rows, c.position.y as int)
}

/// Undoing restores a snapshot and then snaps the cursor to the end of the
/// restored row; that row's length must fit the `u16` column range.
pub open spec fn undo_req(m: EditorModel) -> bool {
    &&& hist_wf(m.hist)
    &&& (m.hist.index > 0 ==> line_fits(
        m.hist.snaps[m.hist.index - 1],
        m.hist.curs[m.hist.index - 1].y as int,
    ))
}

pub open spec fn redo_req(m: EditorModel) -> bool {
    &&& hist_wf(m.hist)
    &&& (hist_in_past(m.hist) ==> line_fits(
        m.hist.snaps[m.hist.index + 1],
        m.hist.curs[m.hist.index + 1].y as int,
    ))
}

/// The rows and position after `n` writes of a space, each followed by one
/// step right — the effect of the tab key.
pub open spec fn tab_state(rows: Seq<Seq<char>>, p: Position, width: u16, n: nat) -> (
    Seq<Seq<char>>,
    Position,
)
    decreases n,
{
    if n == 0 {
        (rows, p)
    } else {
        tab_state(write_rows(rows, p, ' '), pos_right(p, width), width, (n - 1) as nat)
    }
}

/// Every one of the `n` writes lands within its row and every step right
/// stays within the `u16` column range.
pub open spec fn tab_ok(rows: Seq<Seq<char>>, p: Position, width: u16, n: nat) -> bool
    decreases n,
{
    n > 0 ==> {
        &&& write_req(rows, p)
        &&& (p.x != width ==> p.x < u16::MAX)
        &&& tab_ok(write_rows(rows, p, ' '), pos_right(p, width), width, (n - 1) as nat)
    }
}

/// What a character key does, following the same guard order the key is
/// dispatched with: Control chords first, then normal-mode commands, then —
/// in insert mode — writing the character itself.
pub open spec fn step_key(m: EditorModel, c: char, ctrl: bool) -> EditorModel {
    if ctrl && c == 'q' {
        EditorModel { quit: true, ..m }
    } else if ctrl && c == 's' {
        m
    } else if c == 'h' && m.mode != Mode::Insert {
        EditorModel { cursor: cursor_left(m.cursor), ..m }
    } else if c == 'j' && m.mode != Mode::Insert {
        EditorModel { cursor: cursor_down(m.cursor, m.rows, m.size.height), ..m }
    } else if c == 'k' && m.mode != Mode::Insert {
        EditorModel { cursor: cursor_up(m.cursor, m.rows), ..m }
    } else if c == 'u' && m.mode != Mode::Insert {
        step_undo(m)
    } else if c == 'U' && m.mode != Mode::Insert {
        step_redo(m)
    } else if c == 'l' && m.mode != Mode::Insert {
        EditorModel { cursor: cursor_right(m.cursor, m.rows, m.size.width), ..m }
    } else if c == 'i' && m.mode == Mode::Normal {
        EditorModel { mode: Mode::Insert, ..m }
    } else if c == 'a' && m.mode == Mode::Normal {
        EditorModel {
            mode: Mode::Insert,
            cursor: cursor_right(m.cursor, m.rows, m.size.width),
            ..m
        }
    } else if c == 'I' && m.mode == Mode::Normal {
        EditorModel {
            mode: Mode::Insert,
            cursor: Cursor {
                position: Position { x: 0, y: m.cursor.position.y },
                previous_x: m.cursor.previous_x,
            },
            ..m
        }
    } else if c == 'A' && m.mode == Mode::Normal {
        EditorModel { mode: Mode::Insert, cursor: cursor_corrected(m.cursor, m.rows), ..m }
    } else if c == 'o' && m.mode == Mode::Normal {
        let moved = cursor_down(m.cursor, m.rows, m.size.height);
        let rows2 = new_line_rows(m.rows, moved.position);
        EditorModel {
            mode: Mode::Insert,
            rows: rows2,
            cursor: cursor_corrected(moved, rows2),
            redraw: true,
            ..m
        }
    } else if m.mode == Mode::Insert {
        EditorModel {
            rows: write_rows(m.rows, m.cursor.position, c),
            cursor: Cursor {
                position: pos_right(m.cursor.position, m.size.width),
                previous_x: m.cursor.previous_x,
            },
            redraw: true,
            ..m
        }
    } else {
        m
    }
}

/// Undo: step the history back, install that snapshot, put the cursor on its
/// recorded row snapped to the row's end. At the oldest entry, only the
/// redraw flag changes.
pub open spec fn step_undo(m: EditorModel) -> EditorModel {
    if m.hist.index > 0 {
        let rows2 = m.hist.snaps[m.hist.index - 1];
        let cur = m.hist.curs[m.hist.index - 1];
        EditorModel {
            rows: rows2,
            hist: hist_undo(m.hist),
            cursor: Cursor {
                position: Position { x: line_len_at(rows2, cur.y as int) as u16, y: cur.y },
                previous_x: m.cursor.previous_x,
            },
            redraw: true,
            ..m
        }
    } else {
        EditorModel { redraw: true, ..m }
    }
}

/// Redo, the mirror image of `step_undo`.
pub open spec fn step_redo(m: EditorModel) -> EditorModel {
    if hist_in_past(m.hist) {
        let rows2 = m.hist.snaps[m.hist.index + 1];
        let cur = m.hist.curs[m.hist.index + 1];
        EditorModel {
            rows: rows2,
            hist: hist_redo(m.hist),
            cursor: Cursor {
                position: Position { x: line_len_at(rows2, cur.y as int) as u16, y: cur.y },
                previous_x: m.cursor.previous_x,
            },
            redraw: true,
            ..m
        }
    } else {
        EditorModel { redraw: true, ..m }
    }
}

/// The session after one input event.
pub open spec fn step(m: EditorModel, input: Input) -> EditorModel {
    match input {
        Input::Key(c, ctrl) => step_key(m, c, ctrl),
        Input::Esc => EditorModel {
            mode: Mode::Normal,
            hist: hist_record(m.hist, m.rows, m.cursor.position),
            redraw: true,
            ..m
        },
        Input::Enter => if m.mode == Mode::Insert {
            let rows2 = enter_rows(m.rows, m.cursor.position);
            let moved = cursor_down(m.cursor, rows2, m.size.height);
            EditorModel {
                rows: rows2,
                cursor: Cursor {
                    position: Position { x: 0, y: moved.position.y },
                    previous_x: moved.previous_x,
                },
                redraw: true,
                ..m
            }
        } else {
            m
        },
        Input::Backspace => if m.mode == Mode::Insert {
            let c2 = match backspace_moves(m.rows, m.cursor.position) {
                Backspace::WrapLines(p) => Cursor { position: p, previous_x: m.cursor.previous_x },
                Backspace::SameLine => cursor_left(m.cursor),
            };
            EditorModel {
                rows: backspace_rows(m.rows, m.cursor.position),
                cursor: c2,
                redraw: true,
                ..m
            }
        } else {
            m
        },
        Input::Tab => {
            let st = tab_state(m.rows, m.cursor.position, m.size.width, 4);
            EditorModel {
                rows: st.0,
                cursor: Cursor { position: st.1, previous_x: m.cursor.previous_x },
                redraw: true,
                ..m
            }
        },
        Input::Resize(w, h) => EditorModel {
            size: Size { width: w, height: h },
            redraw: true,
            ..m
        },
        Input::Other => m,
    }
}

/// The side effect the caller owes after the event.
pub open spec fn step_action(m: EditorModel, input: Input) -> Action {
    match input {
        Input::Key(c, ctrl) => if ctrl && c == 's' {
            Action::Save
        } else if !(ctrl && c == 'q') && !(c == 'h' && m.mode != Mode::Insert) && !(c == 'j'
            && m.mode != Mode::Insert) && !(c == 'k' && m.mode != Mode::Insert) && !(c == 'u'
            && m.mode != Mode::Insert) && !(c == 'U' && m.mode != Mode::Insert) && !(c == 'l'
            && m.mode != Mode::Insert) && !(c == 'i' && m.mode == Mode::Normal) && !(c == 'a'
            && m.mode == Mode::Normal) && !(c == 'I' && m.mode == Mode::Normal) && !(c == 'A'
            && m.mode == Mode::Normal) && !(c == 'o' && m.mode == Mode::Normal) && m.mode
            == Mode::Insert {
            Action::ClearMessage
        } else {
            Action::Idle
        },
        _ => Action::Idle,
    }
}

/// What must hold of the session for the event to be handled without
/// panicking, branch by branch.
pub open spec fn step_key_req(m: EditorModel, c: char, ctrl: bool) -> bool {
    if ctrl && (c == 'q' || c == 's') {
        true
    } else if c == 'h' && m.mode != Mode::Insert {
        true
    } else if c == 'j' && m.mode != Mode::Insert {
        down_req(m.cursor, m.rows, m.size.height)
    } else if c == 'k' && m.mode != Mode::Insert {
        up_req(m.cursor, m.rows)
    } else if c == 'u' && m.mode != Mode::Insert {
        undo_req(m)
    } else if c == 'U' && m.mode != Mode::Insert {
        redo_req(m)
    } else if c == 'l' && m.mode != Mode::Insert {
        right_req(m.cursor, m.rows)
    } else if (c == 'i' || c == 'I') && m.mode == Mode::Normal {
        true
    } else if c == 'a' && m.mode == Mode::Normal {
        right_req(m.cursor, m.rows)
    } else if c == 'A' && m.mode == Mode::Normal {
        line_fits(m.rows, m.cursor.position.y as int)
    } else if c == 'o' && m.mode == Mode::Normal {
        down_req(m.cursor, m.rows, m.size.height)
    } else if m.mode == Mode::Insert {
        &&& write_req(m.rows, m.cursor.position)
        &&& (m.cursor.position.x != m.size.width ==> m.cursor.position.x < u16::MAX)
    } else {
        true
    }
}

pub open spec fn step_req(m: EditorModel, input: Input) -> bool {
    match input {
        Input::Key(c, ctrl) => step_key_req(m, c, ctrl),
        Input::Esc => hist_wf(m.hist),
        Input::Enter => m.mode == Mode::Insert ==> down_req(
            m.cursor,
            enter_rows(m.rows, m.cursor.position),
            m.size.height,
        ),
        Input::Backspace => m.mode == Mode::Insert ==> backspace_req(m.rows, m.cursor.position),
        Input::Tab => tab_ok(m.rows, m.cursor.position, m.size.width, 4),
        Input::Resize(_, _) => true,
        Input::Other => true,
    }
}

impl Editor {
    pub open spec fn model(self) -> EditorModel {
        EditorModel {
            rows: self.view.buffer.rows(),
            hist: self.view.buffer.history.model(),
            file: self.view.buffer.file@,
            cursor: self.cursor,
            mode: self.mode,
            quit: self.quit,
            size: self.view.size,
            redraw: self.view.redraw,
        }
    }

    pub open spec fn wf(self) -> bool {
        self.view.wf()
    }

    /// A session over the given document, in normal mode, with the cursor at
    /// the origin.
    pub fn new(lines: Vec<Vec<char>>, file: String, size: Size) -> (e: Self)
        ensures
            e.model() == (EditorModel {
                rows: crate::rows::view_lines(lines@),
                hist: HistoryModel {
                    snaps: seq![crate::rows::view_lines(lines@)],
                    curs: seq![Position { x: 0u16, y: 0u16 }],
                    index: 0,
                },
                file: file@,
                cursor: Cursor { position: Position { x: 0u16, y: 0u16 }, previous_x: 1u16 },
                mode: Mode::Normal,
                quit: false,
                size,
                redraw: true,
            }),
            e.wf(),
    {
        let e = Self {
            view: View::new(lines, file, size),
            cursor: Cursor::new(Position::new(0, 0)),
            mode: Mode::Normal,
            quit: false,
        };
        proof {
            assert(e.model() =~~= (EditorModel {
                rows: e.view.rows(),
                hist: e.view.buffer.history.model(),
                file: e.view.buffer.file@,
                cursor: e.cursor,
                mode: Mode::Normal,
                quit: false,
                size,
                redraw: true,
            }));
        }
        e
    }

    /// Switch modes. The caller owns the matching cursor-style change.
    pub fn mode(&mut self, mode: Mode)
        ensures
            final(self).mode == mode,
            final(self).view == old(self).view,
            final(self).cursor == old(self).cursor,
            final(self).quit == old(self).quit,
    {
        self.mode = mode;
    }

    /// The length of the cursor's row.
    pub fn current_line_len(&self) -> (r: u16)
        requires
            line_fits(self.view.buffer.rows(), self.cursor.position.y as int),
        ensures
            r == line_len_at(self.view.buffer.rows(), self.cursor.position.y as int),
    {
        self.view.nth_line_len(self.cursor.position.y as usize)
    }

    pub fn left(&mut self)
        ensures
            final(self).cursor == cursor_left(old(self).cursor),
            final(self).view == old(self).view,
            final(self).mode == old(self).mode,
            final(self).quit == old(self).quit,
    {
        self.cursor.position.left();
        self.cursor.update();
    }

    pub fn right(&mut self)
        requires
            right_req(old(self).cursor, old(self).view.buffer.rows()),
        ensures
            final(self).cursor == cursor_right(
                old(self).cursor,
                old(self).view.buffer.rows(),
                old(self).view.size.width,
            ),
            final(self).view == old(self).view,
            final(self).mode == old(self).mode,
            final(self).quit == old(self).quit,
    {
        let len = self.current_line_len();
        if self.cursor.position.x < len {
            let width = self.view.size.width;
            self.cursor.position.right(width);
            self.cursor.update();
        }
    }

    pub fn up(&mut self)
        requires
            up_req(old(self).cursor, old(self).view.buffer.rows()),
        ensures
            final(self).cursor == cursor_up(old(self).cursor, old(self).view.buffer.rows()),
            final(self).view == old(self).view,
            final(self).mode == old(self).mode,
            final(self).quit == old(self).quit,
    {
        self.cursor.position.up();
        let len = self.current_line_len();
        if self.cursor.position.x > len {
            self.correct_cursor();
        }
        self.recall_cursor();
    }

    pub fn down(&mut self)
        requires
            down_req(
                old(self).cursor,
                old(self).view.buffer.rows(),
                old(self).view.size.height,
            ),
        ensures
            final(self).cursor == cursor_down(
                old(self).cursor,
                old(self).view.buffer.rows(),
                old(self).view.size.height,
            ),
            final(self).view == old(self).view,
            final(self).mode == old(self).mode,
            final(self).quit == old(self).quit,
    {
        let height = self.view.size.height;
        self.cursor.position.down(height);
        let len = self.current_line_len();
        if self.cursor.position.x > len {
            self.correct_cursor();
        }
        self.recall_cursor();
    }

    /// Snap the cursor to the end of its row.
    pub fn correct_cursor(&mut self)
        requires
            line_fits(old(self).view.buffer.rows(), old(self).cursor.position.y as int),
        ensures
            final(self).cursor == cursor_corrected(old(self).cursor, old(self).view.buffer.rows()),
            final(self).view == old(self).view,
            final(self).mode == old(self).mode,
            final(self).quit == old(self).quit,
    {
        self.cursor.position.x = self.current_line_len();
    }

    /// Apply the sticky-column rule on the current row.
    pub fn recall_cursor(&mut self)
        requires
            line_fits(old(self).view.buffer.rows(), old(self).cursor.position.y as int),
        ensures
            final(self).cursor == cursor_recall(old(self).cursor, old(self).view.buffer.rows()),
            final(self).view == old(self).view,
            final(self).mode == old(self).mode,
            final(self).quit == old(self).quit,
    {
        let current_len = self.current_line_len();
        if self.cursor.position.x < self.cursor.previous_x {
            self.cursor.position.x = self.cursor.previous_x;
        }
        if current_len < self.cursor.previous_x {
            self.correct_cursor();
        }
    }

    /// Whether the history's bookkeeping invariant holds, decided directly.
    fn hist_ok(&self) -> (r: bool)
        ensures
            r == hist_wf(self.model().hist),
    {
        let h = &self.view.buffer.history;
        h.cursors.len() == h.states.len() && h.states.len() >= 1 && h.index < h.states.len()
    }

    /// Whether row `y` is short enough for its length to serve as a column.
    fn row_fits(&self, y: u16) -> (r: bool)
        ensures
            r == line_fits(self.view.buffer.rows(), y as int),
    {
        let yy = y as usize;
        if yy < self.view.buffer.lines.len() {
            self.view.buffer.lines[yy].len() <= u16::MAX as usize
        } else {
            true
        }
    }

    fn down_ok(&self) -> (r: bool)
        ensures
            r == down_req(self.cursor, self.view.buffer.rows(), self.view.size.height),
    {
        let height = self.view.size.height;
        let y = self.cursor.position.y;
        if height < 2 {
            return false;
        }
        if y != height - 2 && y == u16::MAX {
            return false;
        }
        let ny = if y == height - 2 {
            y
        } else {
            y + 1
        };
        self.row_fits(ny)
    }

    fn up_ok(&self) -> (r: bool)
        ensures
            r == up_req(self.cursor, self.view.buffer.rows()),
    {
        let y = self.cursor.position.y;
        let ny = if y == 0 {
            0
        } else {
            y - 1
        };
        self.row_fits(ny)
    }

    fn undo_ok(&self) -> (r: bool)
        ensures
            r == undo_req(self.model()),
    {
        if !self.hist_ok() {
            return false;
        }
        let h = &self.view.buffer.history;
        if h.index == 0 {
            return true;
        }
        let idx = h.index - 1;
        let cy = h.cursors[idx].y as usize;
        if cy < h.states[idx].len() {
            h.states[idx][cy].len() <= u16::MAX as usize
        } else {
            true
        }
    }

    fn redo_ok(&self) -> (r: bool)
        ensures
            r == redo_req(self.model()),
    {
        if !self.hist_ok() {
            return false;
        }
        let h = &self.view.buffer.history;
        if h.index >= h.states.len() - 1 {
            return true;
        }
        let idx = h.index + 1;
        let cy = h.cursors[idx].y as usize;
        if cy < h.states[idx].len() {
            h.states[idx][cy].len() <= u16::MAX as usize
        } else {
            true
        }
    }

    fn write_ok(&self) -> (r: bool)
        ensures
            r == ({
                &&& write_req(self.view.buffer.rows(), self.cursor.position)
                &&& (self.cursor.position.x != self.view.size.width ==> self.cursor.position.x
                    < u16::MAX)
            }),
    {
        let pos = self.cursor.position;
        let within = if (pos.y as usize) < self.view.buffer.lines.len() {
            pos.x as usize <= self.view.buffer.lines[pos.y as usize].len()
        } else {
            true
        };
        within && (pos.x == self.view.size.width || pos.x < u16::MAX)
    }

    fn enter_ok(&self) -> (r: bool)
        ensures
            r == down_req(
                self.cursor,
                enter_rows(self.view.buffer.rows(), self.cursor.position),
                self.view.size.height,
            ),
    {
        let height = self.view.size.height;
        let y = self.cursor.position.y;
        if height < 2 {
            return false;
        }
        if y != height - 2 && y == u16::MAX {
            return false;
        }
        let ny = if y == height - 2 {
            y
        } else {
            y + 1
        };
        let mut scratch = Buffer::new(copy_lines(&self.view.buffer.lines), String::new());
        let pos = self.cursor.position;
        scratch.enter(&pos);
        if (ny as usize) < scratch.lines.len() {
            scratch.lines[ny as usize].len() <= u16::MAX as usize
        } else {
            true
        }
    }

    fn backspace_ok(&self) -> (r: bool)
        ensures
            r == backspace_req(self.view.buffer.rows(), self.cursor.position),
    {
        let pos = self.cursor.position;
        let y = pos.y as usize;
        let lines = &self.view.buffer.lines;
        if y >= lines.len() {
            return true;
        }
        if pos.x > 0 {
            return pos.x as usize <= lines[y].len();
        }
        if pos.y == 0 {
            return true;
        }
        let above = lines[y - 1].len();
        if above > u16::MAX as usize {
            return false;
        }
        lines[y].len() <= u16::MAX as usize - above
    }

    fn tab_check(&self) -> (r: bool)
        ensures
            r == tab_ok(
                self.view.buffer.rows(),
                self.cursor.position,
                self.view.size.width,
                4,
            ),
    {
        let width = self.view.size.width;
        let ghost rows0 = self.view.buffer.rows();
        let ghost p0 = self.cursor.position;
        let mut scratch = Buffer::new(copy_lines(&self.view.buffer.lines), String::new());
        let mut p = self.cursor.position;
        let mut i: usize = 0;
        while i < 4
            invariant
                i <= 4,
                rows0 == self.view.buffer.rows(),
                p0 == self.cursor.position,
                width == self.view.size.width,
                tab_ok(rows0, p0, width, 4) == tab_ok(
                    scratch.rows(),
                    p,
                    width,
                    (4 - i) as nat,
                ),
            decreases 4 - i,
        {
            let ok_write = if (p.y as usize) < scratch.lines.len() {
                p.x as usize <= scratch.lines[p.y as usize].len()
            } else {
                true
            };
            let ok_x = p.x == width || p.x < u16::MAX;
            if !(ok_write && ok_x) {
                proof {
                    assert(!tab_ok(scratch.rows(), p, width, (4 - i) as nat));
                }
                return false;
            }
            scratch.write(&p, ' ');
            p.right(width);
            i = i + 1;
        }
        true
    }

    /// Whether the event can be handled from the current session state: the
    /// exact precondition of `evaluate_event`, decided executably so that an
    /// unverified caller can test it before calling.
    pub fn can_handle(&self, input: &Input) -> (r: bool)
        ensures
            r == step_req(self.model(), *input),
    {
        match input {
            Input::Key(c, ctrl) => {
                if *ctrl && (*c == 'q' || *c == 's') {
                    true
                } else if *c == 'h' && self.mode != Mode::Insert {
                    true
                } else if *c == 'j' && self.mode != Mode::Insert {
                    self.down_ok()
                } else if *c == 'k' && self.mode != Mode::Insert {
                    self.up_ok()
                } else if *c == 'u' && self.mode != Mode::Insert {
                    self.undo_ok()
                } else if *c == 'U' && self.mode != Mode::Insert {
                    self.redo_ok()
                } else if *c == 'l' && self.mode != Mode::Insert {
                    self.row_fits(self.cursor.position.y)
                } else if (*c == 'i' || *c == 'I') && self.mode == Mode::Normal {
                    true
                } else if *c == 'a' && self.mode == Mode::Normal {
                    self.row_fits(self.cursor.position.y)
                } else if *c == 'A' && self.mode == Mode::Normal {
                    self.row_fits(self.cursor.position.y)
                } else if *c == 'o' && self.mode == Mode::Normal {
                    self.down_ok()
                } else if self.mode == Mode::Insert {
                    self.write_ok()
                } else {
                    true
                }
            },
            Input::Esc => self.hist_ok(),
            Input::Enter => if self.mode == Mode::Insert {
                self.enter_ok()
            } else {
                true
            },
            Input::Backspace => if self.mode == Mode::Insert {
                self.backspace_ok()
            } else {
                true
            },
            Input::Tab => self.tab_check(),
            Input::Resize(_, _) => true,
            Input::Other => true,
        }
    }

    /// Handle one input event: the session steps to `step(model, input)` and
    /// the returned action is what remains for the caller to do.
    pub fn evaluate_event(&mut self, input: &Input) -> (act: Action)
        requires
            step_req(old(self).model(), *input),
        ensures
            final(self).model() == step(old(self).model(), *input),
            act == step_action(old(self).model(), *input),
    {
        let ghost m0 = self.model();
        match input {
            Input::Key(c, ctrl) => {
                if *ctrl && *c == 'q' {
                    self.quit = true;
                    proof {
                        assert(self.model() =~~= step(m0, *input));
                    }
                    Action::Idle
                } else if *ctrl && *c == 's' {
                    proof {
                        assert(self.model() =~~= step(m0, *input));
                    }
                    Action::Save
                } else if *c == 'h' && self.mode != Mode::Insert {
                    self.left();
                    proof {
                        assert(self.model() =~~= step(m0, *input));
                    }
                    Action::Idle
                } else if *c == 'j' && self.mode != Mode::Insert {
                    self.down();
                    proof {
                        assert(self.model() =~~= step(m0, *input));
                    }
                    Action::Idle
                } else if *c == 'k' && self.mode != Mode::Insert {
                    self.up();
                    proof {
                        assert(self.model() =~~= step(m0, *input));
                    }
                    Action::Idle
                } else if *c == 'u' && self.mode != Mode::Insert {
                    match self.view.undo() {
                        Some(pos) => {
                            self.cursor.position = pos;
                            self.correct_cursor();
                        },
                        None => {},
                    }
                    proof {
                        assert(self.model() =~~= step(m0, *input));
                    }
                    Action::Idle
                } else if *c == 'U' && self.mode != Mode::Insert {
                    match self.view.redo() {
                        Some(pos) => {
                            self.cursor.position = pos;
                            self.correct_cursor();
                        },
                        None => {},
                    }
                    proof {
                        assert(self.model() =~~= step(m0, *input));
                    }
                    Action::Idle
                } else if *c == 'l' && self.mode != Mode::Insert {
                    self.right();
                    proof {
                        assert(self.model() =~~= step(m0, *input));
                    }
                    Action::Idle
                } else if *c == 'i' && self.mode == Mode::Normal {
                    self.mode(Mode::Insert);
                    proof {
                        assert(self.model() =~~= step(m0, *input));
                    }
                    Action::Idle
                } else if *c == 'a' && self.mode == Mode::Normal {
                    self.mode(Mode::Insert);
                    self.right();
                    proof {
                        assert(self.model() =~~= step(m0, *input));
                    }
                    Action::Idle
                } else if *c == 'I' && self.mode == Mode::Normal {
                    self.cursor.position.x = 0;
                    self.mode(Mode::Insert);
                    proof {
                        assert(self.model() =~~= step(m0, *input));
                    }
                    Action::Idle
                } else if *c == 'A' && self.mode == Mode::Normal {
                    self.correct_cursor();
                    self.mode(Mode::Insert);
                    proof {
                        assert(self.model() =~~= step(m0, *input));
                    }
                    Action::Idle
                } else if *c == 'o' && self.mode == Mode::Normal {
                    self.mode(Mode::Insert);
                    self.down();
                    let pos = self.cursor.position;
                    self.view.new_line(&pos);
                    proof {
                        assert(line_len_at(self.view.buffer.rows(), pos.y as int) == 0);
                    }
                    self.correct_cursor();
                    proof {
                        assert(self.model() =~~= step(m0, *input));
                    }
                    Action::Idle
                } else if self.mode == Mode::Insert {
                    let pos = self.cursor.position;
                    self.view.write(&pos, *c);
                    let width = self.view.size.width;
                    self.cursor.position.right(width);
                    proof {
                        assert(self.model() =~~= step(m0, *input));
                    }
                    Action::ClearMessage
                } else {
                    proof {
                        assert(self.model() =~~= step(m0, *input));
                    }
                    Action::Idle
                }
            },
            Input::Esc => {
                self.mode(Mode::Normal);
                let pos = self.cursor.position;
                self.view.update_history(pos);
                proof {
                    assert(self.model() =~~= step(m0, *input));
                }
                Action::Idle
            },
            Input::Enter => {
                if self.mode == Mode::Insert {
                    let pos = self.cursor.position;
                    self.view.enter(&pos);
                    self.down();
                    self.cursor.position.x = 0;
                    proof {
                        assert(self.model() =~~= step(m0, *input));
                    }
                }
                Action::Idle
            },
            Input::Backspace => {
                if self.mode == Mode::Insert {
                    let pos = self.cursor.position;
                    match self.view.backspace(&pos) {
                        Backspace::WrapLines(p) => {
                            self.cursor.position = p;
                        },
                        Backspace::SameLine => {
                            self.left();
                        },
                    }
                    proof {
                        assert(self.model() =~~= step(m0, *input));
                    }
                }
                Action::Idle
            },
            Input::Tab => {
                let width = self.view.size.width;
                let mut i: usize = 0;
                while i < 4
                    invariant
                        i <= 4,
                        width == m0.size.width,
                        tab_ok(self.view.buffer.rows(), self.cursor.position, width, (4 - i) as nat),
                        tab_state(
                            self.view.buffer.rows(),
                            self.cursor.position,
                            width,
                            (4 - i) as nat,
                        ) == tab_state(m0.rows, m0.cursor.position, width, 4),
                        self.cursor.previous_x == m0.cursor.previous_x,
                        self.view.buffer.history == old(self).view.buffer.history,
                        self.view.buffer.file == old(self).view.buffer.file,
                        self.view.size == old(self).view.size,
                        self.mode == old(self).mode,
                        self.quit == old(self).quit,
                        i == 0 ==> self.view.redraw == old(self).view.redraw,
                        i > 0 ==> self.view.redraw == true,
                    decreases 4 - i,
                {
                    let pos = self.cursor.position;
                    self.view.write(&pos, ' ');
                    self.cursor.position.right(width);
                    i = i + 1;
                }
                proof {
                    assert(self.model() =~~= step(m0, *input));
                }
                Action::Idle
            },
            Input::Resize(w, h) => {
                self.view.resize(Size { width: *w, height: *h });
                proof {
                    assert(self.model() =~~= step(m0, *input));
                }
                Action::Idle
            },
            Input::Other => {
                Action::Idle
            },
        }
    }
}

} // verus!
