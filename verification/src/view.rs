//! The view: the buffer being edited, the terminal dimensions the session
//! currently has, and the flag telling the renderer that something changed.
//! Every edit passes through here so that the flag is never forgotten.

use vstd::prelude::*;
use vstd::view::View as _;

use crate::buffer::{
    backspace_moves, backspace_req, backspace_rows, enter_rows, new_line_rows, write_req,
    write_rows, Backspace, Buffer,
};
use crate::history::{hist_in_past, hist_record, hist_redo, hist_undo, HistoryModel};
use crate::position::Position;
use crate::rows::{line_len_at, view_lines};

verus! {

/// Terminal dimensions, in character cells.
#[derive(Clone, Copy, Debug, PartialEq, Eq, Structural)]
pub struct Size {
    pub width: u16,
    pub height: u16,
}

pub struct View {
    pub buffer: Buffer,
    pub size: Size,
    /// Whether the screen must be repainted before the next input is read.
    pub redraw: bool,
}

impl View {
    /// The rows of the document being viewed.
    pub open spec fn rows(self) -> Seq<Seq<char>> {
        self.buffer.rows()
    }

    pub open spec fn wf(self) -> bool {
        self.buffer.wf()
    }

    /// A view over the given rows, needing an initial paint.
    pub fn new(lines: Vec<Vec<char>>, file: String, size: Size) -> (v: Self)
        ensures
            v.rows() == view_lines(lines@),
            v.buffer.file == file,
            v.buffer.history.model() == (HistoryModel {
                snaps: seq![view_lines(lines@)],
                curs: seq![Position { x: 0u16, y: 0u16 }],
                index: 0,
            }),
            v.wf(),
            v.size == size,
            v.redraw == true,
    {
        Self { buffer: Buffer::new(lines, file), size, redraw: true }
    }

    pub fn resize(&mut self, into: Size)
        ensures
            final(self).size == into,
            final(self).redraw == true,
            final(self).buffer == old(self).buffer,
    {
        self.size = into;
        self.redraw = true;
    }

    pub fn write(&mut self, pos: &Position, c: char)
        requires
            write_req(old(self).rows(), *pos),
        ensures
            final(self).rows() == write_rows(old(self).rows(), *pos, c),
            final(self).buffer.history == old(self).buffer.history,
            final(self).buffer.file == old(self).buffer.file,
            final(self).size == old(self).size,
            final(self).redraw == true,
    {
        self.buffer.write(pos, c);
        self.redraw = true;
    }

    pub fn backspace(&mut self, pos: &Position) -> (r: Backspace)
        requires
            backspace_req(old(self).rows(), *pos),
        ensures
            final(self).rows() == backspace_rows(old(self).rows(), *pos),
            r == backspace_moves(old(self).rows(), *pos),
            final(self).buffer.history == old(self).buffer.history,
            final(self).buffer.file == old(self).buffer.file,
            final(self).size == old(self).size,
            final(self).redraw == true,
    {
        self.redraw = true;
        self.buffer.backspace(pos)
    }

    pub fn new_line(&mut self, pos: &Position)
        ensures
            final(self).rows() == new_line_rows(old(self).rows(), *pos),
            final(self).buffer.history == old(self).buffer.history,
            final(self).buffer.file == old(self).buffer.file,
            final(self).size == old(self).size,
            final(self).redraw == true,
    {
        self.redraw = true;
        self.buffer.new_line(pos);
    }

    pub fn enter(&mut self, pos: &Position)
        ensures
            final(self).rows() == enter_rows(old(self).rows(), *pos),
            final(self).buffer.history == old(self).buffer.history,
            final(self).buffer.file == old(self).buffer.file,
            final(self).size == old(self).size,
            final(self).redraw == true,
    {
        self.redraw = true;
        self.buffer.enter(pos);
    }

    pub fn update_history(&mut self, pos: Position)
        requires
            old(self).wf(),
        ensures
            final(self).buffer.history.model() == hist_record(
                old(self).buffer.history.model(),
                old(self).rows(),
                pos,
            ),
            final(self).rows() == old(self).rows(),
            final(self).buffer.file == old(self).buffer.file,
            final(self).size == old(self).size,
            final(self).redraw == true,
            final(self).wf(),
    {
        self.redraw = true;
        self.buffer.update_history(pos);
    }

    pub fn undo(&mut self) -> (r: Option<Position>)
        requires
            old(self).wf(),
        ensures
            old(self).buffer.history.index == 0 ==> r == None::<Position> && final(self).buffer
                == old(self).buffer,
            old(self).buffer.history.index > 0 ==> final(self).buffer.history.model() == hist_undo(
                old(self).buffer.history.model(),
            ),
            old(self).buffer.history.index > 0 ==> final(self).rows() == old(
                self,
            ).buffer.history.model().snaps[old(self).buffer.history.index - 1],
            old(self).buffer.history.index > 0 ==> r == Some(
                old(self).buffer.history.model().curs[old(self).buffer.history.index - 1],
            ),
            final(self).buffer.file == old(self).buffer.file,
            final(self).size == old(self).size,
            final(self).redraw == true,
            final(self).wf(),
    {
        self.redraw = true;
        self.buffer.undo()
    }

    pub fn redo(&mut self) -> (r: Option<Position>)
        requires
            old(self).wf(),
        ensures
            !hist_in_past(old(self).buffer.history.model()) ==> r == None::<Position>
                && final(self).buffer == old(self).buffer,
            hist_in_past(old(self).buffer.history.model()) ==> final(self).buffer.history.model()
                == hist_redo(old(self).buffer.history.model()),
            hist_in_past(old(self).buffer.history.model()) ==> final(self).rows() == old(
                self,
            ).buffer.history.model().snaps[old(self).buffer.history.index + 1],
            hist_in_past(old(self).buffer.history.model()) ==> r == Some(
                old(self).buffer.history.model().curs[old(self).buffer.history.index + 1],
            ),
            final(self).buffer.file == old(self).buffer.file,
            final(self).size == old(self).size,
            final(self).redraw == true,
            final(self).wf(),
    {
        self.redraw = true;
        self.buffer.redo()
    }

    /// The length of row `n`, or 0 where no such row exists.
    pub fn nth_line_len(&self, n: usize) -> (r: u16)
        requires
            line_len_at(self.rows(), n as int) <= u16::MAX,
        ensures
            r == line_len_at(self.rows(), n as int),
    {
        self.buffer.nth_line_len(n)
    }
}

} // verus!
