//! What a renderer needs to draw the table widget: the width of every
//! column and where the focused cell appears on screen.
use vstd::prelude::*;

use crate::amount::{format_amount, format_value};
use crate::position::{TablePosition, NUMBER_OF_BUTTONS};
use crate::table::{SaveHook, StatefulTable, TableState};
use crate::table_data::TableView;

verus! {

/// Blank columns between two table columns, and after each button.
pub const TABLE_COLUMN_SPACING: usize = 2;

/// The length of button `i`'s label: "Add Row", "Delete Last Row",
/// "Confirm".
pub open spec fn button_label_len(i: int) -> int {
    if i == 0 {
        7
    } else if i == 1 {
        15
    } else {
        7
    }
}

pub open spec fn max(a: int, b: int) -> int {
    if a >= b {
        a
    } else {
        b
    }
}

/// `a + b`, saturated at `usize::MAX`.
pub open spec fn sat_add(a: int, b: int) -> int {
    if a + b > usize::MAX {
        usize::MAX as int
    } else {
        a + b
    }
}

/// The longest of the first `n` labels.
pub open spec fn max_label_len(names: Seq<Seq<char>>, n: int) -> int
    decreases n,
{
    if n <= 0 {
        0
    } else {
        max(max_label_len(names, n - 1), names[n - 1].len() as int)
    }
}

/// The widest rendered amount among the first `n` cells of column `col`.
pub open spec fn max_cell_width(d: TableView, col: int, n: int) -> int
    decreases n,
{
    if n <= 0 {
        0
    } else {
        max(max_cell_width(d, col, n - 1), format_amount(d.cell(col, n - 1) as int).len() as int)
    }
}

/// The room an edit in progress asks for: its text and two more places.
pub open spec fn edit_width(s: TableState) -> int {
    sat_add(s.editor.text().len() as int, 2)
}

/// The first column holds the title and the row labels.
pub open spec fn first_width(s: TableState) -> int {
    let w = max(s.name.len() as int, max_label_len(s.data.row_names, s.rows()));
    if s.editor.buffer is Some && s.pos is RowName {
        max(w, edit_width(s))
    } else {
        w
    }
}

/// Whether an edit in progress sits in column `c`.
pub open spec fn editing_column(s: TableState, c: int) -> bool {
    s.editor.buffer is Some && match s.pos {
        TablePosition::Data { col, .. } => col == c,
        TablePosition::TotalRow(col) => col == c,
        _ => false,
    }
}

/// Column `c` holds its header, its rendered amounts and its total.
pub open spec fn column_width(s: TableState, c: int) -> int {
    let w = max(
        max(s.data.col_names[c].len() as int, max_cell_width(s.data, c, s.rows())),
        format_amount(s.data.total_row[c] as int).len() as int,
    );
    if editing_column(s, c) {
        max(w, edit_width(s))
    } else {
        w
    }
}

/// The room the first `c` table columns take, with their spacing.
pub open spec fn columns_span(s: TableState, c: int) -> int
    decreases c,
{
    if c <= 0 {
        0
    } else {
        columns_span(s, c - 1) + column_width(s, c - 1) + TABLE_COLUMN_SPACING
    }
}

/// Where table column `c` starts.
pub open spec fn column_start(s: TableState, c: int) -> int {
    first_width(s) + TABLE_COLUMN_SPACING + columns_span(s, c)
}

/// Where button `i` starts.
pub open spec fn button_start(i: int) -> int
    decreases i,
{
    if i <= 0 {
        0
    } else {
        button_start(i - 1) + button_label_len(i - 1) + TABLE_COLUMN_SPACING
    }
}

/// The screen offset (column, line) of the focused cell within the
/// widget: the name on the first line, then the header, the rows, the
/// totals and the buttons.
pub open spec fn cursor_spec(s: TableState) -> (int, int) {
    match s.pos {
        TablePosition::Name => (0, 0),
        TablePosition::RowName(r) => (0, r + 2),
        TablePosition::Data { col, row } => (column_start(s, col as int), row + 2),
        TablePosition::TotalRow(c) => (column_start(s, c as int), s.rows() + 2),
        TablePosition::Button(i) => (button_start(i as int), s.rows() + 3),
    }
}

fn max_usize(a: usize, b: usize) -> (r: usize)
    ensures
        r == max(a as int, b as int),
{
    if a >= b {
        a
    } else {
        b
    }
}

impl<H: SaveHook> StatefulTable<H> {
    /// The width of the first column.
    pub fn first_column_width(&self) -> (r: usize)
        requires
            self@.wf(),
        ensures
            r == first_width(self@),
    {
        let data = self.data();
        let rows = data.rows();
        let mut w = self.name().as_str().unicode_len();
        let mut r: usize = 0;
        while r < rows
            invariant
                self@.wf(),
                data@ == self@.data,
                rows == self@.rows(),
                r <= rows,
                w == max(self@.name.len() as int, max_label_len(self@.data.row_names, r as int)),
            decreases rows - r,
        {
            w = max_usize(w, data.row_name(r).as_str().unicode_len());
            r = r + 1;
        }
        if self.is_editing() {
            if let TablePosition::RowName(_) = self.position() {
                let len = self.editor().value().as_str().unicode_len();
                w = max_usize(w, len.saturating_add(2));
            }
        }
        w
    }

    /// The width of table column `col`.
    pub fn column_width(&self, col: usize) -> (r: usize)
        requires
            self@.wf(),
            col < self@.cols(),
        ensures
            r == column_width(self@, col as int),
    {
        let data = self.data();
        let rows = data.rows();
        let mut cells: usize = 0;
        let mut r: usize = 0;
        while r < rows
            invariant
                self@.wf(),
                data@ == self@.data,
                rows == self@.rows(),
                col < self@.cols(),
                r <= rows,
                cells == max_cell_width(self@.data, col as int, r as int),
            decreases rows - r,
        {
            let v = match data.get(col, r) {
                Some(v) => v,
                None => 0,
            };
            cells = max_usize(cells, format_value(v).as_str().unicode_len());
            r = r + 1;
        }
        let header = data.col_name(col).as_str().unicode_len();
        let total = format_value(data.total(col)).as_str().unicode_len();
        let mut w = max_usize(max_usize(header, cells), total);
        if self.is_editing() {
            let here = match self.position() {
                TablePosition::Data { col: c, .. } => c == col,
                TablePosition::TotalRow(c) => c == col,
                _ => false,
            };
            if here {
                let len = self.editor().value().as_str().unicode_len();
                w = max_usize(w, len.saturating_add(2));
            }
        }
        w
    }

    /// The width of every table column, in order.
    pub fn column_widths(&self) -> (r: Vec<usize>)
        requires
            self@.wf(),
        ensures
            r@.len() == self@.cols(),
            forall|c: int| 0 <= c < self@.cols() ==> r@[c] == column_width(self@, c),
    {
        let cols = self.data().cols();
        let mut r: Vec<usize> = Vec::new();
        let mut c: usize = 0;
        while c < cols
            invariant
                self@.wf(),
                cols == self@.cols(),
                c <= cols,
                r@.len() == c,
                forall|k: int| 0 <= k < c ==> r@[k] == column_width(self@, k),
            decreases cols - c,
        {
            r.push(self.column_width(c));
            c = c + 1;
        }
        r
    }

    /// Where the focused cell appears within the widget, as (column,
    /// line); `None` when that offset does not fit in a `usize`.
    pub fn cursor_offset(&self) -> (r: Option<(usize, usize)>)
        requires
            self@.wf(),
        ensures
            match r {
                Some((x, y)) => cursor_spec(self@) == (x as int, y as int),
                None => cursor_spec(self@).0 > usize::MAX || cursor_spec(self@).1 > usize::MAX,
            },
    {
        let rows = self.data().rows();
        match self.position() {
            TablePosition::Name => Some((0, 0)),
            TablePosition::RowName(r) => match r.checked_add(2) {
                Some(y) => Some((0, y)),
                None => None,
            },
            TablePosition::Data { col, row } => match (self.column_start(col), row.checked_add(2)) {
                (Some(x), Some(y)) => Some((x, y)),
                _ => None,
            },
            TablePosition::TotalRow(col) => match (self.column_start(col), rows.checked_add(2)) {
                (Some(x), Some(y)) => Some((x, y)),
                _ => None,
            },
            TablePosition::Button(i) => match rows.checked_add(3) {
                Some(y) => Some((button_start_exec(i), y)),
                None => None,
            },
        }
    }

    fn column_start(&self, col: usize) -> (r: Option<usize>)
        requires
            self@.wf(),
            col < self@.cols(),
        ensures
            match r {
                Some(x) => x == column_start(self@, col as int),
                None => column_start(self@, col as int) > usize::MAX,
            },
    {
        let mut x: usize = match self.first_column_width().checked_add(TABLE_COLUMN_SPACING) {
            Some(x) => x,
            None => {
                proof {
                    lemma_span_grows(self@, 0, col as int);
                }
                return None;
            },
        };
        let mut c: usize = 0;
        while c < col
            invariant
                self@.wf(),
                col < self@.cols(),
                c <= col,
                x == first_width(self@) + TABLE_COLUMN_SPACING + columns_span(self@, c as int),
            decreases col - c,
        {
            let w = self.column_width(c);
            x = match x.checked_add(w) {
                Some(v) => match v.checked_add(TABLE_COLUMN_SPACING) {
                    Some(v) => v,
                    None => {
                        proof {
                            lemma_span_grows(self@, c as int + 1, col as int);
                        }
                        return None;
                    },
                },
                None => {
                    proof {
                        lemma_span_grows(self@, c as int + 1, col as int);
                    }
                    return None;
                },
            };
            c = c + 1;
        }
        Some(x)
    }
}

proof fn lemma_span_grows(s: TableState, a: int, b: int)
    requires
        0 <= a <= b,
        forall|c: int| 0 <= c < b ==> column_width(s, c) >= 0,
    ensures
        columns_span(s, a) <= columns_span(s, b),
    decreases b - a,
{
    if a < b {
        lemma_span_grows(s, a, b - 1);
    }
}

fn button_start_exec(i: usize) -> (r: usize)
    requires
        i < NUMBER_OF_BUTTONS,
    ensures
        r == button_start(i as int),
{
    proof {
        reveal_with_fuel(button_start, 3);
    }
    if i == 0 {
        0
    } else if i == 1 {
        9
    } else {
        26
    }
}

} // verus!
