//! The terminal surface that the runtime hands to the UI, and the
//! coordinate arithmetic on it: which buffer rows are visible, how a buffer
//! selection projects into the viewport, which text a selection covers, and
//! how a click inside a wide character snaps to its cell.
//!
//! A session is identified by the 128 bits of its UUID.

use vstd::prelude::*;
use crate::seqs::{first_where, lemma_first_where_is};
use crate::text::{eq_pred, trim_end_by, trim_end_char};

verus! {

#[derive(Debug, Clone, Copy, PartialEq, Eq, Structural)]
pub struct TerminalShellIntegrationState {
    pub has_markers: bool,
    pub input_active: bool,
    pub command_running: bool,
    pub last_command_exit_code: Option<i32>,
}

impl TerminalShellIntegrationState {
    /// The state of a session whose shell has reported nothing yet.
    pub fn initial() -> (r: Self)
        ensures
            r == (TerminalShellIntegrationState {
                has_markers: false,
                input_active: false,
                command_running: false,
                last_command_exit_code: None,
            }),
    {
        TerminalShellIntegrationState {
            has_markers: false,
            input_active: false,
            command_running: false,
            last_command_exit_code: None,
        }
    }
}

#[derive(Debug, Clone, PartialEq, Eq)]
pub struct TerminalRowState {
    pub index: u32,
    pub text: String,
    pub wrapped: bool,
}

#[derive(Debug, Clone, PartialEq, Eq)]
pub struct TerminalCellState {
    pub row: u32,
    pub col: u32,
    pub width: u32,
    pub text: String,
    pub bold: bool,
    pub underline: bool,
    pub fg_rgba: u32,
    pub bg_rgba: u32,
}

#[derive(Debug, Clone, Copy, PartialEq, Eq)]
pub enum TerminalCursorShape {
    Block,
    Underline,
    Bar,
}

#[derive(Debug, Clone, Copy, PartialEq, Eq)]
pub struct TerminalCursorState {
    pub row: u32,
    pub col: u32,
    pub visible: bool,
    pub blinking: bool,
    pub shape: TerminalCursorShape,
    pub fg_rgba: u32,
    pub bg_rgba: u32,
}

#[derive(Debug, Clone, Copy, PartialEq, Eq)]
pub enum TerminalMouseEventKind {
    Down,
    Up,
    Move,
    Scroll,
}

#[derive(Debug, Clone, Copy, PartialEq, Eq)]
pub enum TerminalMouseButton {
    Left,
    Middle,
    Right,
    WheelUp,
    WheelDown,
    NoButton,
}

#[derive(Debug, Clone, Copy, PartialEq, Eq)]
pub struct TerminalMouseInput {
    pub kind: TerminalMouseEventKind,
    pub button: TerminalMouseButton,
    pub row: u32,
    pub col: u32,
    pub shift: bool,
    pub ctrl: bool,
    pub alt: bool,
}

#[derive(Debug, Clone, Copy, PartialEq, Eq)]
pub struct TerminalViewportSelectionRange {
    pub start_row: u32,
    pub start_col: u32,
    pub end_row: u32,
    pub end_col: u32,
}

#[derive(Debug, Clone, Copy, PartialEq, Eq)]
pub enum TerminalKeyKind {
    Named(&'static str),
    Function(u8),
    Char(char),
}

#[derive(Debug, Clone, Copy, PartialEq, Eq)]
pub struct TerminalKeyEvent {
    pub key: TerminalKeyKind,
    pub alt: bool,
    pub ctrl: bool,
    pub shift: bool,
}

impl TerminalKeyEvent {
    pub fn named(key_name: &'static str, alt: bool, ctrl: bool, shift: bool) -> (r: Self)
        ensures
            r == (TerminalKeyEvent { key: TerminalKeyKind::Named(key_name), alt, ctrl, shift }),
    {
        TerminalKeyEvent { key: TerminalKeyKind::Named(key_name), alt, ctrl, shift }
    }

    pub fn function(number: u8, alt: bool, ctrl: bool, shift: bool) -> (r: Self)
        ensures
            r == (TerminalKeyEvent { key: TerminalKeyKind::Function(number), alt, ctrl, shift }),
    {
        TerminalKeyEvent { key: TerminalKeyKind::Function(number), alt, ctrl, shift }
    }

    pub fn character(ch: char, alt: bool, ctrl: bool, shift: bool) -> (r: Self)
        ensures
            r == (TerminalKeyEvent { key: TerminalKeyKind::Char(ch), alt, ctrl, shift }),
    {
        TerminalKeyEvent { key: TerminalKeyKind::Char(ch), alt, ctrl, shift }
    }
}

#[derive(Debug, Clone, PartialEq, Eq)]
pub struct TerminalSurfaceState {
    pub session_id: u128,
    pub seqno: usize,
    pub rows: u32,
    pub cols: u32,
    pub default_fg_rgba: u32,
    pub default_bg_rgba: u32,
    pub row_bg_even_rgba: u32,
    pub row_bg_odd_rgba: u32,
    pub viewport_offset_lines: u32,
    pub viewport_max_offset_lines: u32,
    pub viewport_at_bottom: bool,
    pub visible_rows: Vec<TerminalRowState>,
    pub visible_lines: Vec<String>,
    pub cells: Vec<TerminalCellState>,
    pub cursor: TerminalCursorState,
    pub alternate_screen_active: bool,
    pub mouse_grabbed: bool,
    pub application_cursor_keys: bool,
    pub bracketed_paste_enabled: bool,
    pub shell_integration: TerminalShellIntegrationState,
}

#[derive(Debug, Clone, Copy, PartialEq, Eq)]
pub struct TerminalSurfaceSignature {
    pub session_id: u128,
    pub seqno: usize,
    pub rows: u32,
    pub cols: u32,
    pub default_fg_rgba: u32,
    pub default_bg_rgba: u32,
    pub row_bg_even_rgba: u32,
    pub row_bg_odd_rgba: u32,
    pub viewport_offset_lines: u32,
    pub viewport_max_offset_lines: u32,
    pub viewport_at_bottom: bool,
    pub cursor_row: u32,
    pub cursor_col: u32,
    pub cursor_visible: bool,
    pub cursor_blinking: bool,
    pub cursor_shape: TerminalCursorShape,
    pub cursor_fg_rgba: u32,
    pub cursor_bg_rgba: u32,
    pub alternate_screen_active: bool,
    pub mouse_grabbed: bool,
    pub application_cursor_keys: bool,
    pub bracketed_paste_enabled: bool,
}

/// `a + b`, saturated at `u32::MAX`.
pub open spec fn sat_add(a: int, b: int) -> int {
    if a + b > u32::MAX { u32::MAX as int } else { a + b }
}

/// `a - b`, saturated at 0.
pub open spec fn sat_sub(a: int, b: int) -> int {
    if a - b < 0 { 0 } else { a - b }
}

pub open spec fn min_int(a: int, b: int) -> int {
    if a <= b { a } else { b }
}

pub open spec fn max_int(a: int, b: int) -> int {
    if a >= b { a } else { b }
}

/// The two ends of a selection, earlier one first.
pub open spec fn normalized_selection_spec(start: (u32, u32), end: (u32, u32)) -> ((u32, u32), (u32, u32)) {
    if start.0 < end.0 || (start.0 == end.0 && start.1 <= end.1) {
        (start, end)
    } else {
        (end, start)
    }
}

pub fn normalized_selection(start: (u32, u32), end: (u32, u32)) -> (r: ((u32, u32), (u32, u32)))
    ensures
        r == normalized_selection_spec(start, end),
{
    if start.0 < end.0 || (start.0 == end.0 && start.1 <= end.1) {
        (start, end)
    } else {
        (end, start)
    }
}

/// The column just past a cell, saturated.
pub open spec fn cell_end(c: TerminalCellState) -> int {
    sat_add(c.col as int, c.width as int)
}

/// The text of the cells of `row` that overlap the columns `lo..hi`, in the
/// order in which the cells are listed.
pub open spec fn cells_row_text(cells: Seq<TerminalCellState>, row: u32, lo: int, hi: int) -> Seq<char>
    decreases cells.len(),
{
    if cells.len() == 0 {
        Seq::empty()
    } else {
        let c = cells.last();
        cells_row_text(cells.drop_last(), row, lo, hi) + (if c.row == row && !(cell_end(c) <= lo || c.col >= hi) {
            c.text@
        } else {
            Seq::empty()
        })
    }
}

/// Whether the first listed row with index `row` is soft-wrapped (false when none is listed).
pub open spec fn row_wrapped(rows: Seq<TerminalRowState>, row: u32) -> bool
    decreases rows.len(),
{
    if rows.len() == 0 {
        false
    } else if rows[0].index == row {
        rows[0].wrapped
    } else {
        row_wrapped(rows.drop_first(), row)
    }
}

/// A wide cell of `row` strictly containing column `col` (not at its start).
pub open spec fn inside_wide_cell(row: u32, col: int) -> spec_fn(TerminalCellState) -> bool {
    |c: TerminalCellState| c.row == row && c.width > 1 && col > c.col && col < cell_end(c)
}

impl TerminalSurfaceState {
    pub open spec fn visible_top_row_spec(&self) -> int {
        sat_sub(self.viewport_max_offset_lines as int, self.viewport_offset_lines as int)
    }

    pub open spec fn visible_bottom_spec(&self) -> int {
        sat_add(self.visible_top_row_spec(), max_int(self.rows as int, 1))
    }

    /// The text of one selected row: its covered cells, trailing spaces
    /// dropped, and a line break after every row but the last unless the row
    /// is soft-wrapped.
    pub open spec fn selection_row_text(&self, sr: u32, sc: u32, er: u32, ec: u32, row: int) -> Seq<char> {
        let lo = if row == sr { min_int(sc as int, self.cols as int) } else { 0 };
        let hi = if row == er { min_int(ec as int, self.cols as int) } else { self.cols as int };
        let text = if hi > lo { cells_row_text(self.cells@, row as u32, lo, hi) } else { Seq::empty() };
        trim_end_by(text, eq_pred(' ')) + (if row < er && !row_wrapped(self.visible_rows@, row as u32) {
            seq!['\n']
        } else {
            Seq::empty()
        })
    }

    /// The text of the rows `row..=er` of an ordered selection.
    pub open spec fn selection_text_from(&self, sr: u32, sc: u32, er: u32, ec: u32, row: int) -> Seq<char>
        decreases er - row + 1,
    {
        if row > er {
            Seq::empty()
        } else {
            self.selection_row_text(sr, sc, er, ec, row) + self.selection_text_from(sr, sc, er, ec, row + 1)
        }
    }

    /// The text between two viewport positions, the end column exclusive.
    pub open spec fn selection_text_spec(&self, start_row: u32, start_col: u32, end_row: u32, end_col: u32) -> Seq<char> {
        let ((sr, sc), (er, ec)) = normalized_selection_spec((start_row, start_col), (end_row, end_col));
        self.selection_text_from(sr, sc, er, ec, sr as int)
    }

    /// A buffer selection in viewport coordinates, clipped to the visible rows;
    /// `None` when no selected row is visible.
    pub open spec fn projection_spec(&self, start_row: u32, start_col: u32, end_row: u32, end_col: u32)
        -> Option<TerminalViewportSelectionRange>
    {
        let ((sr, sc), (er, ec)) = normalized_selection_spec((start_row, start_col), (end_row, end_col));
        let top = self.visible_top_row_spec();
        let bottom = self.visible_bottom_spec();
        if er < top || sr >= bottom {
            None
        } else {
            Some(TerminalViewportSelectionRange {
                start_row: sat_sub(max_int(sr as int, top), top) as u32,
                start_col: if sr < top { 0 } else { sc },
                end_row: sat_sub(min_int(er as int, sat_sub(bottom, 1)), top) as u32,
                end_col: if er >= bottom { self.cols } else { ec },
            })
        }
    }

    pub fn visible_top_row(&self) -> (r: u32)
        ensures
            r == self.visible_top_row_spec(),
    {
        self.viewport_max_offset_lines.saturating_sub(self.viewport_offset_lines)
    }

    pub fn visible_bottom_row_exclusive(&self) -> (r: u32)
        ensures
            r == self.visible_bottom_spec(),
    {
        let rows = if self.rows > 1 { self.rows } else { 1 };
        self.visible_top_row().saturating_add(rows)
    }

    pub fn viewport_row_to_buffer_row(&self, row: u32) -> (r: u32)
        ensures
            r == sat_add(self.visible_top_row_spec(), row as int),
    {
        self.visible_top_row().saturating_add(row)
    }

    pub fn project_buffer_selection_to_viewport(&self, start_row: u32, start_col: u32, end_row: u32, end_col: u32)
        -> (r: Option<TerminalViewportSelectionRange>)
        ensures
            r == self.projection_spec(start_row, start_col, end_row, end_col),
    {
        let ((start_row, start_col), (end_row, end_col)) = normalized_selection((start_row, start_col), (end_row, end_col));
        let visible_top = self.visible_top_row();
        let visible_bottom = self.visible_bottom_row_exclusive();
        if end_row < visible_top || start_row >= visible_bottom {
            return None;
        }
        let top_clamped = if start_row > visible_top { start_row } else { visible_top };
        let last_visible = visible_bottom.saturating_sub(1);
        let bottom_clamped = if end_row < last_visible { end_row } else { last_visible };
        Some(TerminalViewportSelectionRange {
            start_row: top_clamped.saturating_sub(visible_top),
            start_col: if start_row < visible_top { 0 } else { start_col },
            end_row: bottom_clamped.saturating_sub(visible_top),
            end_col: if end_row >= visible_bottom { self.cols } else { end_col },
        })
    }

    pub fn signature(&self) -> (r: TerminalSurfaceSignature)
        ensures
            r == (TerminalSurfaceSignature {
                session_id: self.session_id,
                seqno: self.seqno,
                rows: self.rows,
                cols: self.cols,
                default_fg_rgba: self.default_fg_rgba,
                default_bg_rgba: self.default_bg_rgba,
                row_bg_even_rgba: self.row_bg_even_rgba,
                row_bg_odd_rgba: self.row_bg_odd_rgba,
                viewport_offset_lines: self.viewport_offset_lines,
                viewport_max_offset_lines: self.viewport_max_offset_lines,
                viewport_at_bottom: self.viewport_at_bottom,
                cursor_row: self.cursor.row,
                cursor_col: self.cursor.col,
                cursor_visible: self.cursor.visible,
                cursor_blinking: self.cursor.blinking,
                cursor_shape: self.cursor.shape,
                cursor_fg_rgba: self.cursor.fg_rgba,
                cursor_bg_rgba: self.cursor.bg_rgba,
                alternate_screen_active: self.alternate_screen_active,
                mouse_grabbed: self.mouse_grabbed,
                application_cursor_keys: self.application_cursor_keys,
                bracketed_paste_enabled: self.bracketed_paste_enabled,
            }),
    {
        TerminalSurfaceSignature {
            session_id: self.session_id,
            seqno: self.seqno,
            rows: self.rows,
            cols: self.cols,
            default_fg_rgba: self.default_fg_rgba,
            default_bg_rgba: self.default_bg_rgba,
            row_bg_even_rgba: self.row_bg_even_rgba,
            row_bg_odd_rgba: self.row_bg_odd_rgba,
            viewport_offset_lines: self.viewport_offset_lines,
            viewport_max_offset_lines: self.viewport_max_offset_lines,
            viewport_at_bottom: self.viewport_at_bottom,
            cursor_row: self.cursor.row,
            cursor_col: self.cursor.col,
            cursor_visible: self.cursor.visible,
            cursor_blinking: self.cursor.blinking,
            cursor_shape: self.cursor.shape,
            cursor_fg_rgba: self.cursor.fg_rgba,
            cursor_bg_rgba: self.cursor.bg_rgba,
            alternate_screen_active: self.alternate_screen_active,
            mouse_grabbed: self.mouse_grabbed,
            application_cursor_keys: self.application_cursor_keys,
            bracketed_paste_enabled: self.bracketed_paste_enabled,
        }
    }

    /// A plain surface showing `visible_lines`, one row each, with the
    /// default colours and a hidden block cursor.
    pub fn from_visible_lines(session_id: u128, seqno: usize, rows: u32, cols: u32, visible_lines: Vec<String>)
        -> (r: Self)
        ensures
            r.session_id == session_id,
            r.seqno == seqno,
            r.rows == rows,
            r.cols == cols,
            r.default_fg_rgba == 0xff00_0000u32,
            r.default_bg_rgba == 0xffff_ffffu32,
            r.row_bg_even_rgba == 0xffff_ffffu32,
            r.row_bg_odd_rgba == 0xffff_ffffu32,
            r.viewport_offset_lines == 0,
            r.viewport_max_offset_lines == 0,
            r.viewport_at_bottom,
            r.visible_lines@ == visible_lines@,
            r.visible_rows@.len() == visible_lines@.len(),
            forall|i: int| 0 <= i < visible_lines@.len() ==> {
                &&& (#[trigger] r.visible_rows@[i]).index == i as u32
                &&& r.visible_rows@[i].text@ == visible_lines@[i]@
                &&& !r.visible_rows@[i].wrapped
            },
            r.cells@.len() == 0,
            r.cursor == (TerminalCursorState {
                row: 0,
                col: 0,
                visible: false,
                blinking: false,
                shape: TerminalCursorShape::Block,
                fg_rgba: 0xff00_0000u32,
                bg_rgba: 0xff52_ad70u32,
            }),
            !r.alternate_screen_active,
            !r.mouse_grabbed,
            !r.application_cursor_keys,
            !r.bracketed_paste_enabled,
            r.shell_integration == TerminalShellIntegrationState::initial_spec(),
    {
        let mut visible_rows: Vec<TerminalRowState> = Vec::new();
        let mut i: usize = 0;
        while i < visible_lines.len()
            invariant
                i <= visible_lines@.len(),
                visible_rows@.len() == i,
                forall|k: int| 0 <= k < i ==> {
                    &&& (#[trigger] visible_rows@[k]).index == k as u32
                    &&& visible_rows@[k].text@ == visible_lines@[k]@
                    &&& !visible_rows@[k].wrapped
                },
            decreases visible_lines.len() - i,
        {
            visible_rows.push(TerminalRowState {
                index: i as u32,
                text: visible_lines[i].clone(),
                wrapped: false,
            });
            i = i + 1;
        }
        TerminalSurfaceState {
            session_id,
            seqno,
            rows,
            cols,
            default_fg_rgba: 0xff00_0000,
            default_bg_rgba: 0xffff_ffff,
            row_bg_even_rgba: 0xffff_ffff,
            row_bg_odd_rgba: 0xffff_ffff,
            viewport_offset_lines: 0,
            viewport_max_offset_lines: 0,
            viewport_at_bottom: true,
            visible_rows,
            visible_lines,
            cells: Vec::new(),
            cursor: TerminalCursorState {
                row: 0,
                col: 0,
                visible: false,
                blinking: false,
                shape: TerminalCursorShape::Block,
                fg_rgba: 0xff00_0000,
                bg_rgba: 0xff52_ad70,
            },
            alternate_screen_active: false,
            mouse_grabbed: false,
            application_cursor_keys: false,
            bracketed_paste_enabled: false,
            shell_integration: TerminalShellIntegrationState::initial(),
        }
    }

    /// The text of the cells of `row` overlapping `lo..hi`.
    fn row_cells_text(&self, row: u32, lo: u32, hi: u32) -> (r: String)
        ensures
            r@ == cells_row_text(self.cells@, row, lo as int, hi as int),
    {
        let mut text = String::new();
        let mut i: usize = 0;
        while i < self.cells.len()
            invariant
                i <= self.cells@.len(),
                text@ == cells_row_text(self.cells@.take(i as int), row, lo as int, hi as int),
            decreases self.cells.len() - i,
        {
            let cell = &self.cells[i];
            let cell_start = cell.col;
            let end = cell.col.saturating_add(cell.width);
            assert(self.cells@.take(i + 1).drop_last() =~= self.cells@.take(i as int));
            if cell.row == row && !(end <= lo || cell_start >= hi) {
                text.append(cell.text.as_str());
            }
            i = i + 1;
        }
        assert(self.cells@.take(i as int) =~= self.cells@);
        text
    }

    fn row_is_wrapped(&self, row: u32) -> (r: bool)
        ensures
            r == row_wrapped(self.visible_rows@, row),
    {
        let mut i: usize = 0;
        assert(self.visible_rows@.skip(0) =~= self.visible_rows@);
        while i < self.visible_rows.len()
            invariant
                i <= self.visible_rows@.len(),
                row_wrapped(self.visible_rows@, row) == row_wrapped(self.visible_rows@.skip(i as int), row),
            decreases self.visible_rows.len() - i,
        {
            let r = &self.visible_rows[i];
            assert(self.visible_rows@.skip(i as int)[0] == self.visible_rows@[i as int]);
            assert(self.visible_rows@.skip(i as int).drop_first() =~= self.visible_rows@.skip(i + 1));
            if r.index == row {
                return r.wrapped;
            }
            i = i + 1;
        }
        false
    }

    /// The text between two viewport positions, the end column exclusive.
    pub fn selection_text(&self, start_row: u32, start_col: u32, end_row: u32, end_col: u32) -> (r: String)
        ensures
            r@ == self.selection_text_spec(start_row, start_col, end_row, end_col),
    {
        let ((sr, sc), (er, ec)) = normalized_selection((start_row, start_col), (end_row, end_col));
        let mut text = String::new();
        let mut row = sr;
        loop
            invariant
                sr <= row <= er,
                ((sr, sc), (er, ec)) == normalized_selection_spec((start_row, start_col), (end_row, end_col)),
                self.selection_text_from(sr, sc, er, ec, sr as int)
                    == text@ + self.selection_text_from(sr, sc, er, ec, row as int),
            decreases er - row,
        {
            let row_start = if row == sr {
                if sc < self.cols { sc } else { self.cols }
            } else {
                0
            };
            let row_end = if row == er {
                if ec < self.cols { ec } else { self.cols }
            } else {
                self.cols
            };
            let row_text = if row_end > row_start {
                self.row_cells_text(row, row_start, row_end)
            } else {
                String::new()
            };
            let trimmed = trim_end_char(row_text.as_str(), ' ');
            let ghost before = text@;
            text.append(trimmed.as_str());
            let wrapped = self.row_is_wrapped(row);
            proof { reveal_strlit("\n"); }
            if row < er && !wrapped {
                text.append("\n");
            }
            let ghost line = self.selection_row_text(sr, sc, er, ec, row as int);
            assert(text@ =~= before + line);
            let ghost rest = self.selection_text_from(sr, sc, er, ec, row + 1);
            assert(self.selection_text_from(sr, sc, er, ec, row as int) == line + rest);
            assert(before + line + rest =~= before + (line + rest));
            if row == er {
                assert(rest =~= Seq::<char>::empty());
                assert(text@ + rest =~= text@);
                return text;
            }
            row = row + 1;
        }
    }

    pub fn selection_text_from_buffer_rows(&self, start_row: u32, start_col: u32, end_row: u32, end_col: u32)
        -> (r: String)
        ensures
            r@ == match self.projection_spec(start_row, start_col, end_row, end_col) {
                Some(range) => self.selection_text_spec(range.start_row, range.start_col, range.end_row, range.end_col),
                None => Seq::empty(),
            },
    {
        match self.project_buffer_selection_to_viewport(start_row, start_col, end_row, end_col) {
            Some(range) => self.selection_text(range.start_row, range.start_col, range.end_row, range.end_col),
            None => String::new(),
        }
    }

    /// The first cell of `row` that strictly contains `col` and is wider than one column.
    fn wide_cell_containing(&self, row: u32, col: u32) -> (r: Option<usize>)
        ensures
            match r {
                Some(i) => i == first_where(self.cells@, inside_wide_cell(row, col as int)) && i < self.cells@.len(),
                None => first_where(self.cells@, inside_wide_cell(row, col as int)) == -1,
            },
    {
        let ghost p = inside_wide_cell(row, col as int);
        let mut i: usize = 0;
        while i < self.cells.len()
            invariant
                i <= self.cells@.len(),
                p == inside_wide_cell(row, col as int),
                forall|j: int| 0 <= j < i ==> !p(#[trigger] self.cells@[j]),
            decreases self.cells.len() - i,
        {
            let cell = &self.cells[i];
            if cell.row == row && cell.width > 1 && col > cell.col && col < cell.col.saturating_add(cell.width) {
                proof { lemma_first_where_is(self.cells@, p, i as int); }
                return Some(i);
            }
            i = i + 1;
        }
        proof { lemma_first_where_is(self.cells@, p, -1); }
        None
    }

    /// The column a click at (`row`, `col`) selects: a click inside a wide
    /// character goes to the character's first cell.
    pub fn normalize_hit_col(&self, row: u32, col: u32) -> (r: u32)
        ensures
            ({
                let clamped = min_int(col as int, sat_sub(self.cols as int, 1));
                let k = first_where(self.cells@, inside_wide_cell(row, clamped));
                r == if k >= 0 { self.cells@[k].col as int } else { clamped }
            }),
    {
        let last = self.cols.saturating_sub(1);
        let clamped_col = if col < last { col } else { last };
        match self.wide_cell_containing(row, clamped_col) {
            Some(i) => self.cells[i].col,
            None => clamped_col,
        }
    }

    /// The column a selection boundary at (`row`, `col`) stands for: a
    /// boundary inside a wide character moves to the character's end.
    pub fn normalize_selection_hit_col(&self, row: u32, col: u32) -> (r: u32)
        ensures
            ({
                let clamped = min_int(col as int, self.cols as int);
                let k = first_where(self.cells@, inside_wide_cell(row, clamped));
                r == if k >= 0 { cell_end(self.cells@[k]) } else { clamped }
            }),
    {
        let clamped_col = if col < self.cols { col } else { self.cols };
        match self.wide_cell_containing(row, clamped_col) {
            Some(i) => self.cells[i].col.saturating_add(self.cells[i].width),
            None => clamped_col,
        }
    }
}

impl Default for TerminalShellIntegrationState {
    fn default() -> (r: Self)
        ensures
            r == TerminalShellIntegrationState::initial_spec(),
    {
        TerminalShellIntegrationState::initial()
    }
}

impl TerminalShellIntegrationState {
    pub open spec fn initial_spec() -> Self {
        TerminalShellIntegrationState {
            has_markers: false,
            input_active: false,
            command_running: false,
            last_command_exit_code: None,
        }
    }
}

} // verus!
