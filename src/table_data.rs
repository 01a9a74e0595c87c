//! The grid behind the table widget: labelled rows and columns, a flat
//! row-major sequence of cells, and a row of per-column totals.
use vstd::prelude::*;

verus! {

/// What a `TableData` holds, as mathematical values.
pub struct TableView {
    pub name: Seq<char>,
    pub col_names: Seq<Seq<char>>,
    pub row_names: Seq<Seq<char>>,
    pub cells: Seq<i32>,
    pub total_row: Seq<i32>,
}

impl TableView {
    pub open spec fn cols(self) -> int {
        self.col_names.len() as int
    }

    pub open spec fn rows(self) -> int {
        self.row_names.len() as int
    }

    /// The grid is rectangular and has one total per column.
    pub open spec fn wf(self) -> bool {
        &&& self.cells.len() == self.rows() * self.cols()
        &&& self.total_row.len() == self.cols()
    }

    pub open spec fn in_grid(self, col: int, row: int) -> bool {
        0 <= col < self.cols() && 0 <= row < self.rows()
    }

    /// The grid with a row appended: an empty label and a zero per column.
    pub open spec fn row_added(self) -> TableView {
        TableView {
            row_names: self.row_names.push(Seq::<char>::empty()),
            cells: self.cells + zeros(self.cols()),
            ..self
        }
    }

    /// The grid without row `row`, unless that row does not exist or is the
    /// only one.
    pub open spec fn row_removed(self, row: int) -> TableView {
        if self.rows() > 1 && 0 <= row < self.rows() {
            TableView {
                row_names: self.row_names.remove(row),
                cells: self.cells.subrange(0, row * self.cols()) + self.cells.subrange(
                    (row + 1) * self.cols(),
                    self.cells.len() as int,
                ),
                ..self
            }
        } else {
            self
        }
    }

    /// The cell in column `col` of row `row`.
    pub open spec fn cell(self, col: int, row: int) -> i32 {
        self.cells[cell_index(self.cols(), col, row)]
    }
}

/// Where the cell in column `col` of row `row` stands in the flat sequence.
pub open spec fn cell_index(cols: int, col: int, row: int) -> int {
    row * cols + col
}

/// The sum of the first `n` flat cells that lie in column `col`.
pub open spec fn column_sum(cells: Seq<i32>, cols: int, col: int, n: int) -> int
    decreases n,
{
    if n <= 0 {
        0
    } else {
        column_sum(cells, cols, col, n - 1) + if (n - 1) % cols == col {
            cells[n - 1] as int
        } else {
            0
        }
    }
}

/// `x` saturated to the range of `i32`.
pub open spec fn clamp_i32(x: int) -> i32 {
    if x > i32::MAX {
        i32::MAX
    } else if x < i32::MIN {
        i32::MIN
    } else {
        x as i32
    }
}

/// The totals computed from `cells`: each column's sum, saturated to `i32`.
pub open spec fn column_totals(cells: Seq<i32>, cols: int) -> Seq<i32> {
    Seq::new(cols as nat, |c: int| clamp_i32(column_sum(cells, cols, c, cells.len() as int)))
}

/// The texts of a sequence of strings.
pub open spec fn string_views(v: Seq<String>) -> Seq<Seq<char>> {
    v.map_values(|s: String| s@)
}

proof fn lemma_views_update(v: Seq<String>, i: int)
    requires
        0 <= i < v.len(),
    ensures
        forall|s: String| #[trigger] string_views(v.update(i, s)) == string_views(v).update(i, s@),
{
    assert forall|s: String| #[trigger] string_views(v.update(i, s)) == string_views(v).update(
        i,
        s@,
    ) by {
        assert(string_views(v.update(i, s)) =~= string_views(v).update(i, s@));
    }
}

/// `n` zeros.
pub open spec fn zeros(n: int) -> Seq<i32> {
    Seq::new(n as nat, |_i: int| 0i32)
}

/// Row `row` of a grid with `rows` rows of `cols` cells spans
/// `row * cols .. row * cols + cols`, which lies inside the grid.
pub proof fn lemma_row_span(cols: int, rows: int, row: int)
    requires
        0 <= cols,
        0 <= row < rows,
    ensures
        0 <= row * cols,
        row * cols + cols <= rows * cols,
        (row + 1) * cols == row * cols + cols,
{
    assert(row * cols + cols <= rows * cols) by (nonlinear_arith)
        requires
            0 <= row < rows,
            0 <= cols,
    ;
    assert((row + 1) * cols == row * cols + cols) by (nonlinear_arith);
    assert(0 <= row * cols) by (nonlinear_arith)
        requires
            0 <= row,
            0 <= cols,
    ;
}

/// The grid after a sequence of row edits: `None` appends a row, `Some(r)`
/// removes row `r`.
pub open spec fn rows_edited(d: TableView, ops: Seq<Option<int>>) -> TableView
    decreases ops.len(),
{
    if ops.len() == 0 {
        d
    } else {
        let next = match ops[0] {
            None => d.row_added(),
            Some(r) => d.row_removed(r),
        };
        rows_edited(next, ops.drop_first())
    }
}

/// Appending or removing a row keeps the grid rectangular with one total
/// per column.
pub proof fn lemma_row_edit_keeps_shape(d: TableView, row: int)
    requires
        d.wf(),
    ensures
        d.row_added().wf(),
        d.row_added().rows() == d.rows() + 1,
        d.row_removed(row).wf(),
        d.rows() >= 1 ==> d.row_removed(row).rows() >= 1,
{
    assert(d.row_added().cells.len() == d.row_added().rows() * d.cols()) by (nonlinear_arith)
        requires
            d.row_added().cells.len() == d.rows() * d.cols() + d.cols(),
            d.row_added().rows() == d.rows() + 1,
    ;
    if d.rows() > 1 && 0 <= row < d.rows() {
        lemma_row_span(d.cols(), d.rows(), row);
        let e = d.row_removed(row);
        assert(e.cells.len() == e.rows() * e.cols()) by (nonlinear_arith)
            requires
                e.cells.len() == d.rows() * d.cols() - d.cols(),
                e.rows() == d.rows() - 1,
                e.cols() == d.cols(),
        ;
    }
}

/// Any sequence of row additions and removals keeps `cells` at exactly
/// `rows * cols` entries, and a grid with rows never loses its last one.
pub proof fn lemma_rows_edited_shape(d: TableView, ops: Seq<Option<int>>)
    requires
        d.wf(),
    ensures
        rows_edited(d, ops).wf(),
        rows_edited(d, ops).cells.len() == rows_edited(d, ops).rows() * rows_edited(d, ops).cols(),
        d.rows() >= 1 ==> rows_edited(d, ops).rows() >= 1,
    decreases ops.len(),
{
    if ops.len() > 0 {
        let r = match ops[0] {
            None => 0,
            Some(r) => r,
        };
        lemma_row_edit_keeps_shape(d, r);
        let next = match ops[0] {
            None => d.row_added(),
            Some(r) => d.row_removed(r),
        };
        lemma_rows_edited_shape(next, ops.drop_first());
    }
}

/// Removing a row from a grid with a single row changes nothing.
pub proof fn lemma_last_row_stays(d: TableView, row: int)
    requires
        d.rows() == 1,
    ensures
        d.row_removed(row) == d,
{
}

/// The column totals of `data`, a grid of `rows` rows of `cols` cells.
fn totals_of(data: &[i32], cols: usize, rows: usize) -> (r: Vec<i32>)
    requires
        data@.len() == cols * rows,
    ensures
        r@ == column_totals(data@, cols as int),
{
    let mut sums: Vec<i128> = Vec::new();
    let mut c: usize = 0;
    while c < cols
        invariant
            c <= cols,
            sums@.len() == c,
            forall|k: int| 0 <= k < c ==> #[trigger] sums@[k] == 0,
        decreases cols - c,
    {
        sums.push(0);
        c = c + 1;
    }
    let mut i: usize = 0;
    while i < data.len()
        invariant
            data@.len() == cols * rows,
            i <= data@.len(),
            sums@.len() == cols,
            forall|k: int|
                0 <= k < cols ==> #[trigger] sums@[k] as int == column_sum(
                    data@,
                    cols as int,
                    k,
                    i as int,
                ),
            forall|k: int|
                0 <= k < cols ==> -(i as int) * 2147483648 <= #[trigger] sums@[k] <= (i as int)
                    * 2147483648,
        decreases data@.len() - i,
    {
        assert(cols > 0) by (nonlinear_arith)
            requires
                data@.len() == cols * rows,
                i < data@.len(),
        ;
        let col = i % cols;
        assert(col < cols);
        let v = data[i];
        sums.set(col, sums[col] + v as i128);
        i = i + 1;
        assert forall|k: int| 0 <= k < cols implies #[trigger] sums@[k] as int == column_sum(
            data@,
            cols as int,
            k,
            i as int,
        ) by {
            if k != col {
                assert((i - 1) as int % cols as int != k);
            }
        }
    }
    let mut total_row: Vec<i32> = Vec::new();
    let mut c: usize = 0;
    while c < cols
        invariant
            c <= cols,
            sums@.len() == cols,
            total_row@.len() == c,
            forall|k: int|
                0 <= k < cols ==> #[trigger] sums@[k] as int == column_sum(
                    data@,
                    cols as int,
                    k,
                    data@.len() as int,
                ),
            forall|k: int|
                0 <= k < c ==> #[trigger] total_row@[k] == column_totals(data@, cols as int)[k],
        decreases cols - c,
    {
        let s = sums[c];
        let t: i32 = if s > i32::MAX as i128 {
            i32::MAX
        } else if s < i32::MIN as i128 {
            i32::MIN
        } else {
            s as i32
        };
        total_row.push(t);
        c = c + 1;
    }
    assert(total_row@ =~= column_totals(data@, cols as int));
    total_row
}

#[derive(Debug)]
pub struct TableData {
    name: String,
    col_names: Vec<String>,
    row_names: Vec<String>,
    data: Vec<i32>,
    total_row: Vec<i32>,
}

impl View for TableData {
    type V = TableView;

    closed spec fn view(&self) -> TableView {
        TableView {
            name: self.name@,
            col_names: string_views(self.col_names@),
            row_names: string_views(self.row_names@),
            cells: self.data@,
            total_row: self.total_row@,
        }
    }
}

fn clone_strings(src: &[String]) -> (r: Vec<String>)
    ensures
        string_views(r@) == string_views(src@),
{
    let mut r: Vec<String> = Vec::new();
    let mut i: usize = 0;
    while i < src.len()
        invariant
            i <= src@.len(),
            r@.len() == i,
            forall|j: int| 0 <= j < i ==> #[trigger] r@[j]@ == src@[j]@,
        decreases src@.len() - i,
    {
        r.push(src[i].clone());
        i = i + 1;
    }
    assert(string_views(r@) =~= string_views(src@));
    r
}

impl TableData {
    /// A grid with the given labels and row-major cells, its totals computed
    /// from the cells; `None` when there are not exactly
    /// `col_names.len() * row_names.len()` cells.
    pub fn new(name: String, col_names: &[String], row_names: &[String], data: &[i32]) -> (r:
        Option<Self>)
        ensures
            match r {
                Some(t) => {
                    &&& data@.len() == col_names@.len() * row_names@.len()
                    &&& t@.wf()
                    &&& t@.name == name@
                    &&& t@.col_names == string_views(col_names@)
                    &&& t@.row_names == string_views(row_names@)
                    &&& t@.cells == data@
                    &&& t@.total_row == column_totals(data@, col_names@.len() as int)
                },
                None => data@.len() != col_names@.len() * row_names@.len(),
            },
    {
        let cols = col_names.len();
        let len = data.len();
        match cols.checked_mul(row_names.len()) {
            Some(p) => {
                if p != len {
                    return None;
                }
            },
            None => {
                return None;
            },
        }
        let total_row = totals_of(data, cols, row_names.len());
        let mut cells: Vec<i32> = Vec::new();
        let mut i: usize = 0;
        while i < data.len()
            invariant
                i <= data@.len(),
                cells@ == data@.subrange(0, i as int),
            decreases data@.len() - i,
        {
            cells.push(data[i]);
            i = i + 1;
            assert(cells@ =~= data@.subrange(0, i as int));
        }
        assert(cells@ =~= data@);
        let t = TableData {
            name,
            col_names: clone_strings(col_names),
            row_names: clone_strings(row_names),
            data: cells,
            total_row,
        };
        assert(t@.cells == data@);
        assert(t@.col_names == string_views(col_names@));
        assert(t@.row_names == string_views(row_names@));
        assert(t@.total_row == column_totals(data@, cols as int));
        assert(t@.cols() == cols);
        assert(t@.rows() == row_names@.len());
        assert(data@.len() == row_names@.len() * cols) by (nonlinear_arith)
            requires
                data@.len() == cols * row_names@.len(),
        ;
        Some(t)
    }

    /// A grid without rows or columns.
    pub fn empty() -> (r: Self)
        ensures
            r@.wf(),
            r@.name.len() == 0,
            r@.cols() == 0,
            r@.rows() == 0,
    {
        let r = TableData {
            name: String::new(),
            col_names: Vec::new(),
            row_names: Vec::new(),
            data: Vec::new(),
            total_row: Vec::new(),
        };
        assert(r@.col_names =~= Seq::<Seq<char>>::empty());
        assert(r@.row_names =~= Seq::<Seq<char>>::empty());
        assert(r@.rows() == 0);
        assert(r@.cols() == 0);
        assert(r@.cells.len() == 0);
        assert(r@.total_row.len() == 0);
        r
    }

    /// The cell in column `col` of row `row`, or `None` outside the grid.
    pub fn get(&self, col: usize, row: usize) -> (r: Option<i32>)
        requires
            self@.wf(),
        ensures
            r == if self@.in_grid(col as int, row as int) {
                Some(self@.cell(col as int, row as int))
            } else {
                None
            },
    {
        if col >= self.cols() || row >= self.rows() {
            return None;
        }
        let len = self.data.len();
        proof {
            lemma_row_span(self@.cols(), self@.rows(), row as int);
            assert(row * self@.cols() + col < len);
        }
        Some(self.data[row * self.cols() + col])
    }

    /// A handle to the cell in column `col` of row `row`, or `None` outside
    /// the grid. What is written through the handle lands in that cell.
    pub fn get_mut(&mut self, col: usize, row: usize) -> (r: Option<&mut i32>)
        requires
            old(self)@.wf(),
        ensures
            r is Some == old(self)@.in_grid(col as int, row as int),
            match r {
                Some(x) => {
                    &&& *x == old(self)@.cell(col as int, row as int)
                    &&& final(self)@ == (TableView {
                        cells: old(self)@.cells.update(
                            cell_index(old(self)@.cols(), col as int, row as int),
                            *final(x),
                        ),
                        ..old(self)@
                    })
                },
                None => final(self)@ == old(self)@,
            },
    {
        if col >= self.cols() || row >= self.rows() {
            return None;
        }
        let len = self.data.len();
        proof {
            lemma_row_span(self@.cols(), self@.rows(), row as int);
            assert(row * self@.cols() + col < len);
        }
        let idx = row * self.cols() + col;
        Some(&mut self.data[idx])
    }

    pub fn name(&self) -> (r: &String)
        ensures
            r@ == self@.name,
    {
        &self.name
    }

    pub fn row_name(&self, row: usize) -> (r: &String)
        requires
            row < self@.rows(),
        ensures
            r@ == self@.row_names[row as int],
    {
        &self.row_names[row]
    }

    pub fn col_name(&self, col: usize) -> (r: &String)
        requires
            col < self@.cols(),
        ensures
            r@ == self@.col_names[col as int],
    {
        &self.col_names[col]
    }

    pub fn total(&self, col: usize) -> (r: i32)
        requires
            self@.wf(),
            col < self@.cols(),
        ensures
            r == self@.total_row[col as int],
    {
        self.total_row[col]
    }

    /// Sets every total to its column's sum (saturated to `i32`).
    pub fn recompute_totals(&mut self)
        requires
            old(self)@.wf(),
        ensures
            final(self)@ == (TableView {
                total_row: column_totals(old(self)@.cells, old(self)@.cols()),
                ..old(self)@
            }),
            final(self)@.wf(),
    {
        let cols = self.cols();
        let rows = self.rows();
        assert(self.data@.len() == cols * rows) by (nonlinear_arith)
            requires
                self.data@.len() == rows * cols,
        ;
        self.total_row = totals_of(self.data.as_slice(), cols, rows);
    }

    /// A handle to the grid's name.
    pub fn name_mut(&mut self) -> (r: &mut String)
        ensures
            r@ == old(self)@.name,
            final(self)@ == (TableView { name: final(r)@, ..old(self)@ }),
    {
        &mut self.name
    }

    /// A handle to the label of row `row`.
    pub fn row_name_mut(&mut self, row: usize) -> (r: &mut String)
        requires
            row < old(self)@.rows(),
        ensures
            r@ == old(self)@.row_names[row as int],
            final(self)@ == (TableView {
                row_names: old(self)@.row_names.update(row as int, final(r)@),
                ..old(self)@
            }),
    {
        proof {
            lemma_views_update(self.row_names@, row as int);
        }
        &mut self.row_names[row]
    }

    /// A handle to the total of column `col`.
    pub fn total_mut(&mut self, col: usize) -> (r: &mut i32)
        requires
            old(self)@.wf(),
            col < old(self)@.cols(),
        ensures
            *r == old(self)@.total_row[col as int],
            final(self)@ == (TableView {
                total_row: old(self)@.total_row.update(col as int, *final(r)),
                ..old(self)@
            }),
    {
        &mut self.total_row[col]
    }

    pub fn cols(&self) -> (r: usize)
        ensures
            r == self@.cols(),
    {
        self.col_names.len()
    }

    pub fn rows(&self) -> (r: usize)
        ensures
            r == self@.rows(),
    {
        self.row_names.len()
    }

    /// Appends a row with an empty label and a zero in every column. The
    /// totals are left as they are.
    pub fn add_row(&mut self)
        requires
            old(self)@.wf(),
        ensures
            final(self)@ == old(self)@.row_added(),
            final(self)@.wf(),
    {
        let cols = self.cols();
        let ghost rows = self@.rows();
        self.row_names.push(String::new());
        let ghost names = self.row_names@;
        let ghost before = self.data@;
        let mut k: usize = 0;
        while k < cols
            invariant
                k <= cols,
                self.data@ == before + zeros(k as int),
                self.name == old(self).name,
                self.col_names == old(self).col_names,
                self.row_names@ == names,
                self.total_row == old(self).total_row,
            decreases cols - k,
        {
            self.data.push(0);
            k = k + 1;
            assert(self.data@ =~= before + zeros(k as int));
        }
        assert(self@.row_names =~= old(self)@.row_names.push(Seq::<char>::empty()));
        assert(self@.cells.len() == self@.rows() * self@.cols()) by (nonlinear_arith)
            requires
                self@.cells.len() == rows * cols + cols,
                self@.rows() == rows + 1,
                self@.cols() == cols,
        ;
    }

    /// Removes row `row` and its cells, unless it does not exist or it is the
    /// only row. The totals are left as they are.
    pub fn remove_row(&mut self, row: usize)
        requires
            old(self)@.wf(),
        ensures
            final(self)@ == old(self)@.row_removed(row as int),
            final(self)@.wf(),
    {
        if self.rows() > 1 && row < self.rows() {
            let cols = self.cols();
            let len = self.data.len();
            proof {
                lemma_row_span(self@.cols(), self@.rows(), row as int);
                assert(row * cols + cols <= len);
            }
            let ghost before = self.data@;
            let ghost rows = self@.rows();
            self.row_names.remove(row);
            let ghost names = self.row_names@;
            let start = row * cols;
            let mut k: usize = 0;
            while k < cols
                invariant
                    k <= cols,
                    start + cols <= before.len(),
                    before.len() == rows * cols,
                    self.name == old(self).name,
                    self.col_names == old(self).col_names,
                    self.row_names@ == names,
                    self.total_row == old(self).total_row,
                    self.data@ == before.subrange(0, start as int) + before.subrange(
                        start + k,
                        before.len() as int,
                    ),
                decreases cols - k,
            {
                self.data.remove(start);
                k = k + 1;
                assert(self.data@ =~= before.subrange(0, start as int) + before.subrange(
                    start + k,
                    before.len() as int,
                ));
            }
            assert(self@.row_names =~= old(self)@.row_names.remove(row as int));
            assert(self@.cells.len() == self@.rows() * self@.cols()) by (nonlinear_arith)
                requires
                    self@.cells.len() == rows * cols - cols,
                    self@.rows() == rows - 1,
                    self@.cols() == cols,
            ;
        }
    }
}

} // verus!
