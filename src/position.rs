//! Where the focus of the table widget can stand, and how it moves.
use vstd::prelude::*;

verus! {

/// The buttons below the table: "Add Row", "Delete Last Row", "Confirm".
pub const NUMBER_OF_BUTTONS: usize = 3;

/// A focusable place of the table widget.
#[derive(Debug, Clone, Copy, PartialEq, Eq, Structural)]
pub enum TablePosition {
    /// The corner cell that holds the table's name.
    Name,
    /// The label of a row.
    RowName(usize),
    /// A data cell.
    Data { col: usize, row: usize },
    /// A cell of the total row.
    TotalRow(usize),
    /// One of the buttons below the table.
    Button(usize),
}

/// Whether `p` addresses something that exists in a grid of `cols` columns
/// and `rows` rows.
pub open spec fn pos_valid(p: TablePosition, cols: int, rows: int) -> bool {
    match p {
        TablePosition::Name => true,
        TablePosition::RowName(r) => r < rows,
        TablePosition::Data { col, row } => col < cols && row < rows,
        TablePosition::TotalRow(c) => c < cols,
        TablePosition::Button(i) => i < NUMBER_OF_BUTTONS,
    }
}

pub open spec fn min(a: int, b: int) -> int {
    if a <= b {
        a
    } else {
        b
    }
}

/// The place above `p`. Where the place it would reach does not exist (a
/// grid without rows or columns) the focus stays.
pub open spec fn above_of(p: TablePosition, cols: int, rows: int) -> TablePosition {
    match p {
        TablePosition::Name => p,
        TablePosition::RowName(r) => if r == 0 {
            TablePosition::Name
        } else {
            TablePosition::RowName((r - 1) as usize)
        },
        TablePosition::Data { col, row } => if row == 0 {
            TablePosition::Name
        } else {
            TablePosition::Data { col, row: (row - 1) as usize }
        },
        TablePosition::TotalRow(c) => if rows == 0 {
            p
        } else {
            TablePosition::Data { col: c, row: (rows - 1) as usize }
        },
        TablePosition::Button(i) => if cols == 0 {
            p
        } else {
            TablePosition::TotalRow(min(i as int, cols - 1) as usize)
        },
    }
}

/// The place below `p`; the focus stays where that place does not exist.
pub open spec fn below_of(p: TablePosition, cols: int, rows: int) -> TablePosition {
    match p {
        TablePosition::Name => if cols == 0 || rows == 0 {
            p
        } else {
            TablePosition::Data { col: 0, row: 0 }
        },
        TablePosition::RowName(r) => if r + 1 == rows {
            if cols == 0 {
                p
            } else {
                TablePosition::TotalRow(0)
            }
        } else {
            TablePosition::RowName((r + 1) as usize)
        },
        TablePosition::Data { col, row } => if row + 1 == rows {
            TablePosition::TotalRow(col)
        } else {
            TablePosition::Data { col, row: (row + 1) as usize }
        },
        TablePosition::TotalRow(c) => TablePosition::Button(
            min(c as int, NUMBER_OF_BUTTONS - 1) as usize,
        ),
        TablePosition::Button(_) => p,
    }
}

/// The place left of `p`: row labels and the name are the left edge.
pub open spec fn left_of_pos(p: TablePosition) -> TablePosition {
    match p {
        TablePosition::Name => p,
        TablePosition::RowName(_) => p,
        TablePosition::Data { col, row } => if col == 0 {
            TablePosition::RowName(row)
        } else {
            TablePosition::Data { col: (col - 1) as usize, row }
        },
        TablePosition::TotalRow(c) => if c == 0 {
            p
        } else {
            TablePosition::TotalRow((c - 1) as usize)
        },
        TablePosition::Button(i) => if i == 0 {
            p
        } else {
            TablePosition::Button((i - 1) as usize)
        },
    }
}

/// The place right of `p`; the focus stays at the right edge.
pub open spec fn right_of_pos(p: TablePosition, cols: int) -> TablePosition {
    match p {
        TablePosition::Name => p,
        TablePosition::RowName(r) => if cols == 0 {
            p
        } else {
            TablePosition::Data { col: 0, row: r }
        },
        TablePosition::Data { col, row } => if col + 1 == cols {
            p
        } else {
            TablePosition::Data { col: (col + 1) as usize, row }
        },
        TablePosition::TotalRow(c) => if c + 1 == cols {
            p
        } else {
            TablePosition::TotalRow((c + 1) as usize)
        },
        TablePosition::Button(i) => if i + 1 == NUMBER_OF_BUTTONS {
            p
        } else {
            TablePosition::Button((i + 1) as usize)
        },
    }
}

/// The button that the jump to the bottom reaches.
pub open spec fn bottom_pos(cols: int) -> TablePosition {
    if cols == 0 {
        TablePosition::Button(0)
    } else {
        TablePosition::Button(min(NUMBER_OF_BUTTONS - 1, cols - 1) as usize)
    }
}

/// The leftmost place of the structural row of `p`.
pub open spec fn start_of(p: TablePosition) -> TablePosition {
    match p {
        TablePosition::Name => p,
        TablePosition::RowName(_) => p,
        TablePosition::Data { row, .. } => TablePosition::RowName(row),
        TablePosition::TotalRow(_) => TablePosition::TotalRow(0),
        TablePosition::Button(_) => TablePosition::Button(0),
    }
}

/// The rightmost place of the structural row of `p`.
pub open spec fn end_of(p: TablePosition, cols: int) -> TablePosition {
    match p {
        TablePosition::Name => p,
        TablePosition::RowName(row) => if cols == 0 {
            p
        } else {
            TablePosition::Data { col: (cols - 1) as usize, row }
        },
        TablePosition::Data { row, .. } => TablePosition::Data { col: (cols - 1) as usize, row },
        TablePosition::TotalRow(_) => TablePosition::TotalRow((cols - 1) as usize),
        TablePosition::Button(_) => TablePosition::Button((NUMBER_OF_BUTTONS - 1) as usize),
    }
}

/// Every move keeps the focus on a place that exists: from any place of a
/// grid, each of the four directions and each jump lands on a place of the
/// same grid.
pub proof fn lemma_navigation_stays_in_grid(p: TablePosition, cols: int, rows: int)
    requires
        cols >= 0,
        rows >= 0,
        pos_valid(p, cols, rows),
    ensures
        pos_valid(above_of(p, cols, rows), cols, rows),
        pos_valid(below_of(p, cols, rows), cols, rows),
        pos_valid(left_of_pos(p), cols, rows),
        pos_valid(right_of_pos(p, cols), cols, rows),
        pos_valid(TablePosition::Name, cols, rows),
        pos_valid(bottom_pos(cols), cols, rows),
        pos_valid(start_of(p), cols, rows),
        pos_valid(end_of(p, cols), cols, rows),
{
}

} // verus!
