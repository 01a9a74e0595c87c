//! The stateful table widget: a focus that moves over the grid, in-place
//! editing of the focused cell, a clipboard, and the buttons below the grid.
use vstd::prelude::*;

use crate::actions::{EditingAction, TuiAction};
use crate::amount::{format_amount, format_value, parse_amount, parse_value};
use crate::editor::{CurrentReference, CurrentValue, Editor, EditorView, ValueView};
use crate::position::{
    above_of, below_of, bottom_pos, end_of, left_of_pos, pos_valid, right_of_pos, start_of,
    TablePosition, NUMBER_OF_BUTTONS,
};
use crate::position::lemma_navigation_stays_in_grid;
use crate::table_data::{
    cell_index, column_totals, lemma_row_edit_keeps_shape, lemma_row_span, TableData, TableView,
};

verus! {

/// Errors that the widget reports to its caller.
#[derive(Debug)]
pub enum TuiErrors {
    /// The edited text is not a valid amount; it is handed back as typed.
    InvalidValue(String),
}

/// Called after every committed edit, with the grid and the edited place.
/// It may change cell values and totals but not the grid's shape.
pub trait SaveHook {
    /// The grid this hook makes of grid `d` after an edit at `p`.
    spec fn saved(&self, d: TableView, p: TablePosition) -> TableView;

    fn on_save(&mut self, data: &mut TableData, pos: TablePosition)
        requires
            old(data)@.wf(),
        ensures
            final(data)@ == old(self).saved(old(data)@, pos),
            final(data)@.wf(),
            final(data)@.rows() == old(data)@.rows(),
            final(data)@.cols() == old(data)@.cols(),
    ;
}

/// The hook that does nothing.
#[derive(Debug, Clone, Copy)]
pub struct NoHook;

impl SaveHook for NoHook {
    open spec fn saved(&self, d: TableView, p: TablePosition) -> TableView {
        d
    }

    fn on_save(&mut self, _data: &mut TableData, _pos: TablePosition) {
    }
}

/// The hook that sets every total to its column's sum after each edit.
#[derive(Debug, Clone, Copy)]
pub struct RecomputeTotals;

impl SaveHook for RecomputeTotals {
    open spec fn saved(&self, d: TableView, p: TablePosition) -> TableView {
        TableView { total_row: column_totals(d.cells, d.cols()), ..d }
    }

    fn on_save(&mut self, data: &mut TableData, _pos: TablePosition) {
        data.recompute_totals();
    }
}

/// Whether the place holds text (the name or a row label).
pub open spec fn holds_text(p: TablePosition) -> bool {
    p is Name || p is RowName
}

/// Whether the place holds an amount (a data cell or a total).
pub open spec fn holds_amount(p: TablePosition) -> bool {
    p is Data || p is TotalRow
}

pub open spec fn text_at(d: TableView, p: TablePosition) -> Seq<char> {
    match p {
        TablePosition::RowName(r) => d.row_names[r as int],
        _ => d.name,
    }
}

pub open spec fn amount_at(d: TableView, p: TablePosition) -> i32 {
    match p {
        TablePosition::Data { col, row } => d.cell(col as int, row as int),
        TablePosition::TotalRow(c) => d.total_row[c as int],
        _ => 0,
    }
}

/// The grid with the text at `p` replaced by `t`.
pub open spec fn with_text(d: TableView, p: TablePosition, t: Seq<char>) -> TableView {
    match p {
        TablePosition::Name => TableView { name: t, ..d },
        TablePosition::RowName(r) => TableView { row_names: d.row_names.update(r as int, t), ..d },
        _ => d,
    }
}

/// The grid with the amount at `p` replaced by `v`.
pub open spec fn with_amount(d: TableView, p: TablePosition, v: i32) -> TableView {
    match p {
        TablePosition::Data { col, row } => TableView {
            cells: d.cells.update(cell_index(d.cols(), col as int, row as int), v),
            ..d
        },
        TablePosition::TotalRow(c) => TableView { total_row: d.total_row.update(c as int, v), ..d },
        _ => d,
    }
}

/// The value at `p`, tagged with its kind; none on a button.
pub open spec fn value_at(d: TableView, p: TablePosition) -> Option<ValueView> {
    if holds_text(p) {
        Some(ValueView::Str(text_at(d, p)))
    } else if holds_amount(p) {
        Some(ValueView::Data(amount_at(d, p)))
    } else {
        None
    }
}

/// The grid with `v` written at `p` when its kind matches the place;
/// unchanged otherwise.
pub open spec fn with_value(d: TableView, p: TablePosition, v: ValueView) -> TableView {
    match v {
        ValueView::Str(t) => if holds_text(p) {
            with_text(d, p, t)
        } else {
            d
        },
        ValueView::Data(a) => if holds_amount(p) {
            with_amount(d, p, a)
        } else {
            d
        },
    }
}

/// What a `StatefulTable` holds, as mathematical values.
pub struct TableState {
    pub name: Seq<char>,
    pub data: TableView,
    pub pos: TablePosition,
    pub editor: EditorView,
    pub fixed_rows: int,
    pub editable_columns: Seq<usize>,
    pub editable_total_fields: Seq<usize>,
}

impl TableState {
    /// The grid is well formed, the focus is on a place that exists, and an
    /// edit in progress belongs to a cell that holds a value.
    pub open spec fn wf(self) -> bool {
        &&& self.data.wf()
        &&& self.editor.wf()
        &&& pos_valid(self.pos, self.data.cols(), self.data.rows())
        &&& (self.editor.buffer is Some ==> !(self.pos is Button))
    }

    /// The editing policy: the name always; a row label from the first
    /// non-fixed row on; a data cell in an editable column; a total in an
    /// editable total field; never a button.
    pub open spec fn editable(self, p: TablePosition) -> bool {
        match p {
            TablePosition::Name => true,
            TablePosition::RowName(r) => r >= self.fixed_rows,
            TablePosition::Data { col, .. } => self.editable_columns.contains(col),
            TablePosition::TotalRow(c) => self.editable_total_fields.contains(c),
            TablePosition::Button(_) => false,
        }
    }

    pub open spec fn with_pos(self, p: TablePosition) -> TableState {
        TableState { pos: p, ..self }
    }

    pub open spec fn cols(self) -> int {
        self.data.cols()
    }

    pub open spec fn rows(self) -> int {
        self.data.rows()
    }
}

/// The text an edit of `p` starts from: empty when replacing, else the
/// text at `p` or its amount rendered.
pub open spec fn edit_text(d: TableView, p: TablePosition, replace: bool) -> Seq<char> {
    if replace {
        Seq::<char>::empty()
    } else if holds_text(p) {
        text_at(d, p)
    } else {
        format_amount(amount_at(d, p) as int)
    }
}

/// The state after starting an edit of the focused cell; a button starts
/// none.
pub open spec fn started_edit(s: TableState, replace: bool) -> TableState {
    if s.pos is Button {
        s
    } else {
        TableState {
            editor: EditorView {
                buffer: Some(edit_text(s.data, s.pos, replace)),
                cursor: edit_text(s.data, s.pos, replace).len() as int,
                clipboard: s.editor.clipboard,
            },
            ..s
        }
    }
}

/// The action bound to button `i`: "Add Row", "Delete Last Row", "Confirm".
pub open spec fn button_action(i: int) -> TuiAction {
    if i == 0 {
        TuiAction::AddRow
    } else if i == 1 {
        TuiAction::RemoveRow
    } else {
        TuiAction::Exit
    }
}

/// The state after pressing button `i`: a row appended, the last row
/// removed, or nothing (confirming only tells the caller).
pub open spec fn pressed(s: TableState, i: int) -> TableState {
    if i == 0 {
        TableState { data: s.data.row_added(), ..s }
    } else if i == 1 {
        TableState { data: s.data.row_removed(s.rows() - 1), ..s }
    } else {
        s
    }
}

/// The state after removing the focused row; the focus moves up when it
/// stood on the row that disappeared at the end. Nothing happens away from
/// rows.
pub open spec fn removed_at_focus(s: TableState) -> TableState {
    match s.pos {
        TablePosition::Data { col, row } => {
            let d = s.data.row_removed(row as int);
            TableState {
                data: d,
                pos: if row >= d.rows() {
                    TablePosition::Data { col, row: (row - 1) as usize }
                } else {
                    s.pos
                },
                ..s
            }
        },
        TablePosition::RowName(row) => {
            let d = s.data.row_removed(row as int);
            TableState {
                data: d,
                pos: if row >= d.rows() {
                    TablePosition::RowName((row - 1) as usize)
                } else {
                    s.pos
                },
                ..s
            }
        },
        _ => s,
    }
}

/// The focused cell set to its zero value (empty text or 0), if editable.
pub open spec fn cleared(s: TableState) -> TableState {
    if !s.editable(s.pos) {
        s
    } else if holds_text(s.pos) {
        TableState { data: with_text(s.data, s.pos, Seq::<char>::empty()), ..s }
    } else if holds_amount(s.pos) {
        TableState { data: with_amount(s.data, s.pos, 0), ..s }
    } else {
        s
    }
}

/// The focused value put on the clipboard.
pub open spec fn copied(s: TableState) -> TableState {
    match value_at(s.data, s.pos) {
        Some(v) => TableState { editor: EditorView { clipboard: Some(v), ..s.editor }, ..s },
        None => s,
    }
}

/// The clipboard taken and written into the focused cell when the kinds
/// match; nothing on a button.
pub open spec fn pasted(s: TableState) -> TableState {
    if s.pos is Button {
        s
    } else {
        let e = EditorView { clipboard: None, ..s.editor };
        match s.editor.clipboard {
            Some(v) => TableState { data: with_value(s.data, s.pos, v), editor: e, ..s },
            None => TableState { editor: e, ..s },
        }
    }
}

/// Starting an edit where the policy allows it, else pressing the focused
/// button.
pub open spec fn edit_or_press(s: TableState, replace: bool) -> TableState {
    if s.editable(s.pos) {
        started_edit(s, replace)
    } else {
        match s.pos {
            TablePosition::Button(i) => pressed(s, i as int),
            _ => s,
        }
    }
}

pub open spec fn edit_if_editable(s: TableState) -> TableState {
    if s.editable(s.pos) {
        started_edit(s, false)
    } else {
        s
    }
}

/// The state after an action while moving around; while an edit is in
/// progress these actions do nothing.
pub open spec fn tui_step(s: TableState, a: TuiAction) -> TableState {
    if s.editor.buffer is Some {
        s
    } else {
        match a {
            TuiAction::MoveUp => s.with_pos(above_of(s.pos, s.cols(), s.rows())),
            TuiAction::MoveDown => s.with_pos(below_of(s.pos, s.cols(), s.rows())),
            TuiAction::MoveLeft => s.with_pos(left_of_pos(s.pos)),
            TuiAction::MoveRight => s.with_pos(right_of_pos(s.pos, s.cols())),
            TuiAction::Edit => edit_or_press(s, false),
            TuiAction::Replace => edit_or_press(s, true),
            TuiAction::Select => edit_or_press(s, true),
            TuiAction::Delete => cleared(s),
            TuiAction::Copy => copied(s),
            TuiAction::Paste => pasted(s),
            TuiAction::ToTop => s.with_pos(TablePosition::Name),
            TuiAction::ToBottom => s.with_pos(bottom_pos(s.cols())),
            TuiAction::ToStart => s.with_pos(start_of(s.pos)),
            TuiAction::ToEnd => s.with_pos(end_of(s.pos, s.cols())),
            TuiAction::EditStart => edit_if_editable(s.with_pos(start_of(s.pos))),
            TuiAction::EditEnd => edit_if_editable(s.with_pos(end_of(s.pos, s.cols()))),
            TuiAction::Exit => s,
            TuiAction::AddRow => TableState { data: s.data.row_added(), ..s },
            TuiAction::RemoveRow => removed_at_focus(s),
        }
    }
}

/// What an action while moving around hands back to the caller: `Exit`
/// when the table is to be closed, by `Exit` itself or by the "Confirm"
/// button.
pub open spec fn tui_reply(s: TableState, a: TuiAction) -> Option<TuiAction> {
    if s.editor.buffer is Some {
        None
    } else {
        match a {
            TuiAction::Exit => Some(TuiAction::Exit),
            TuiAction::Edit | TuiAction::Replace | TuiAction::Select => match s.pos {
                TablePosition::Button(i) => if button_action(i as int) == TuiAction::Exit {
                    Some(TuiAction::Exit)
                } else {
                    None
                },
                _ => None,
            },
            _ => None,
        }
    }
}

/// The grid after committing the edited text to the focused cell: text
/// as typed, an amount as read from the text; none when the text is not
/// an amount.
pub open spec fn committed_data(s: TableState) -> Option<TableView> {
    let text = s.editor.text();
    if holds_text(s.pos) {
        Some(with_text(s.data, s.pos, text))
    } else {
        match parse_amount(text) {
            Some(v) => Some(with_amount(s.data, s.pos, v as i32)),
            None => None,
        }
    }
}

/// The state after an editing action other than committing.
pub open spec fn editing_step(s: TableState, a: EditingAction) -> TableState {
    match a {
        EditingAction::InsertChar(c) => TableState { editor: s.editor.inserted(c), ..s },
        EditingAction::MoveLeft => TableState { editor: s.editor.moved_left(), ..s },
        EditingAction::MoveRight => TableState { editor: s.editor.moved_right(), ..s },
        EditingAction::DeleteLeft => TableState { editor: s.editor.deleted_left(), ..s },
        EditingAction::DeleteRight => TableState { editor: s.editor.deleted_right(), ..s },
        EditingAction::CancelEditing => TableState { editor: s.editor.stopped(), ..s },
        EditingAction::StopEditing => s,
    }
}

/// Writing a value into a cell keeps the grid's shape.
pub proof fn lemma_writes_keep_shape(d: TableView, p: TablePosition, t: Seq<char>, v: i32)
    requires
        d.wf(),
        pos_valid(p, d.cols(), d.rows()),
    ensures
        with_text(d, p, t).wf(),
        with_text(d, p, t).rows() == d.rows(),
        with_text(d, p, t).cols() == d.cols(),
        with_amount(d, p, v).wf(),
        with_amount(d, p, v).rows() == d.rows(),
        with_amount(d, p, v).cols() == d.cols(),
{
    if let TablePosition::Data { col, row } = p {
        lemma_row_span(d.cols(), d.rows(), row as int);
    }
}

/// The clipboard keeps its kind: a text copied from the name or a row label
/// and pasted onto a data cell or a total leaves the grid as it was, and
/// pasted onto the name or a row label writes that text exactly.
pub proof fn lemma_paste_text_kind(s: TableState, q: TablePosition)
    requires
        s.wf(),
        s.editor.buffer is None,
        holds_text(s.pos),
        pos_valid(q, s.cols(), s.rows()),
    ensures
        holds_amount(q) ==> tui_step(tui_step(s, TuiAction::Copy).with_pos(q), TuiAction::Paste).data
            == s.data,
        holds_text(q) ==> text_at(
            tui_step(tui_step(s, TuiAction::Copy).with_pos(q), TuiAction::Paste).data,
            q,
        ) == text_at(s.data, s.pos),
{
}

/// Likewise for amounts: an amount copied from a data cell or a total
/// leaves the name and row labels alone and overwrites an amount exactly.
pub proof fn lemma_paste_amount_kind(s: TableState, q: TablePosition)
    requires
        s.wf(),
        s.editor.buffer is None,
        holds_amount(s.pos),
        pos_valid(q, s.cols(), s.rows()),
    ensures
        holds_text(q) ==> tui_step(tui_step(s, TuiAction::Copy).with_pos(q), TuiAction::Paste).data
            == s.data,
        holds_amount(q) ==> amount_at(
            tui_step(tui_step(s, TuiAction::Copy).with_pos(q), TuiAction::Paste).data,
            q,
        ) == amount_at(s.data, s.pos),
{
    if let TablePosition::Data { col, row } = q {
        lemma_row_span(s.cols(), s.rows(), row as int);
    }
}

/// The editing policy always lets the name be edited and never a button.
pub proof fn lemma_policy_name_and_buttons(s: TableState, i: usize)
    ensures
        s.editable(TablePosition::Name),
        !s.editable(TablePosition::Button(i)),
{
}

fn contains(v: &Vec<usize>, x: usize) -> (r: bool)
    ensures
        r == v@.contains(x),
{
    let mut i: usize = 0;
    while i < v.len()
        invariant
            i <= v@.len(),
            forall|k: int| 0 <= k < i ==> v@[k] != x,
        decreases v@.len() - i,
    {
        if v[i] == x {
            return true;
        }
        i = i + 1;
    }
    false
}

/// Collects the grid and the editing policy of a table.
#[derive(Debug)]
pub struct StatefulTableBuilder<H> {
    name: String,
    data: TableData,
    fixed_rows_number: usize,
    editable_columns: Vec<usize>,
    editable_total_fields: Vec<usize>,
    on_save: H,
}

/// What a builder has collected.
pub struct BuilderView {
    pub name: Seq<char>,
    pub data: TableView,
    pub fixed_rows: int,
    pub editable_columns: Seq<usize>,
    pub editable_total_fields: Seq<usize>,
}

impl<H> View for StatefulTableBuilder<H> {
    type V = BuilderView;

    closed spec fn view(&self) -> BuilderView {
        BuilderView {
            name: self.name@,
            data: self.data@,
            fixed_rows: self.fixed_rows_number as int,
            editable_columns: self.editable_columns@,
            editable_total_fields: self.editable_total_fields@,
        }
    }
}

impl StatefulTableBuilder<NoHook> {
    /// A builder for a table titled `name`, with an empty grid, no fixed
    /// rows, nothing editable but the name and row labels, and no hook.
    pub fn new(name: String) -> (r: Self)
        ensures
            r.spec_on_save() == NoHook,
            r@.name == name@,
            r@.data.wf(),
            r@.data.cols() == 0,
            r@.data.rows() == 0,
            r@.fixed_rows == 0,
            r@.editable_columns.len() == 0,
            r@.editable_total_fields.len() == 0,
    {
        StatefulTableBuilder {
            name,
            data: TableData::empty(),
            fixed_rows_number: 0,
            editable_columns: Vec::new(),
            editable_total_fields: Vec::new(),
            on_save: NoHook,
        }
    }
}

impl<H: SaveHook> StatefulTableBuilder<H> {
    /// The hook the table will call after every committed edit.
    pub closed spec fn spec_on_save(&self) -> H {
        self.on_save
    }

    pub fn table_data(self, data: TableData) -> (r: Self)
        ensures
            r.spec_on_save() == self.spec_on_save(),
            r@ == (BuilderView { data: data@, ..self@ }),
    {
        let mut b = self;
        b.data = data;
        b
    }

    /// Sets the hook called after every committed edit.
    pub fn on_save<G: SaveHook>(self, on_save: G) -> (r: StatefulTableBuilder<G>)
        ensures
            r.spec_on_save() == on_save,
            r@ == self@,
    {
        StatefulTableBuilder {
            name: self.name,
            data: self.data,
            fixed_rows_number: self.fixed_rows_number,
            editable_columns: self.editable_columns,
            editable_total_fields: self.editable_total_fields,
            on_save,
        }
    }

    /// Row labels before row `number` are read-only.
    pub fn fixed_rows(self, number: usize) -> (r: Self)
        ensures
            r.spec_on_save() == self.spec_on_save(),
            r@ == (BuilderView { fixed_rows: number as int, ..self@ }),
    {
        let mut b = self;
        b.fixed_rows_number = number;
        b
    }

    /// The data cells of these columns become editable.
    pub fn editable_columns(self, columns: Vec<usize>) -> (r: Self)
        ensures
            r.spec_on_save() == self.spec_on_save(),
            r@ == (BuilderView { editable_columns: self@.editable_columns + columns@, ..self@ }),
    {
        let mut b = self;
        let mut columns = columns;
        b.editable_columns.append(&mut columns);
        b
    }

    /// The data cells of this column become editable.
    pub fn editable_column(self, column: usize) -> (r: Self)
        ensures
            r.spec_on_save() == self.spec_on_save(),
            r@ == (BuilderView { editable_columns: self@.editable_columns.push(column), ..self@ }),
    {
        let mut b = self;
        b.editable_columns.push(column);
        b
    }

    /// The totals of these columns become editable.
    pub fn editable_total_fields(self, fields: Vec<usize>) -> (r: Self)
        ensures
            r.spec_on_save() == self.spec_on_save(),
            r@ == (BuilderView {
                editable_total_fields: self@.editable_total_fields + fields@,
                ..self@
            }),
    {
        let mut b = self;
        let mut fields = fields;
        b.editable_total_fields.append(&mut fields);
        b
    }

    /// The total of this column becomes editable.
    pub fn editable_total_field(self, field: usize) -> (r: Self)
        ensures
            r.spec_on_save() == self.spec_on_save(),
            r@ == (BuilderView {
                editable_total_fields: self@.editable_total_fields.push(field),
                ..self@
            }),
    {
        let mut b = self;
        b.editable_total_fields.push(field);
        b
    }

    /// The table, focused on its name and not editing.
    pub fn build(self) -> (r: StatefulTable<H>)
        requires
            self@.data.wf(),
        ensures
            r.spec_on_save() == self.spec_on_save(),
            r@.wf(),
            r@ == (TableState {
                name: self@.name,
                data: self@.data,
                pos: TablePosition::Name,
                editor: EditorView { buffer: None, cursor: 0, clipboard: None },
                fixed_rows: self@.fixed_rows,
                editable_columns: self@.editable_columns,
                editable_total_fields: self@.editable_total_fields,
            }),
    {
        StatefulTable {
            name: self.name,
            data: self.data,
            pos: TablePosition::Name,
            editor: Editor::default(),
            fixed_rows_number: self.fixed_rows_number,
            editable_columns: self.editable_columns,
            editable_total_fields: self.editable_total_fields,
            on_save: self.on_save,
        }
    }
}

#[derive(Debug)]
pub struct StatefulTable<H> {
    name: String,
    data: TableData,
    pos: TablePosition,
    editor: Editor,
    fixed_rows_number: usize,
    editable_columns: Vec<usize>,
    editable_total_fields: Vec<usize>,
    on_save: H,
}

impl<H> View for StatefulTable<H> {
    type V = TableState;

    closed spec fn view(&self) -> TableState {
        TableState {
            name: self.name@,
            data: self.data@,
            pos: self.pos,
            editor: self.editor@,
            fixed_rows: self.fixed_rows_number as int,
            editable_columns: self.editable_columns@,
            editable_total_fields: self.editable_total_fields@,
        }
    }
}

impl StatefulTable<NoHook> {
    pub fn builder() -> (r: StatefulTableBuilder<NoHook>)
        ensures
            r.spec_on_save() == NoHook,
            r@.name.len() == 0,
            r@.data.wf(),
            r@.data.cols() == 0,
            r@.data.rows() == 0,
            r@.fixed_rows == 0,
            r@.editable_columns.len() == 0,
            r@.editable_total_fields.len() == 0,
    {
        StatefulTableBuilder::new(String::new())
    }
}

impl<H: SaveHook> StatefulTable<H> {
    /// A live handle to the value at the focus; none on a button.
    pub fn current(&mut self) -> (r: Option<CurrentReference<'_>>)
        requires
            old(self)@.wf(),
        ensures
            final(self).spec_on_save() == old(self).spec_on_save(),
            match r {
                Some(CurrentReference::Str(s)) => {
                    &&& holds_text(old(self)@.pos)
                    &&& s@ == text_at(old(self)@.data, old(self)@.pos)
                    &&& final(self)@ == (TableState {
                        data: with_text(old(self)@.data, old(self)@.pos, final(s)@),
                        ..old(self)@
                    })
                },
                Some(CurrentReference::Data(d)) => {
                    &&& holds_amount(old(self)@.pos)
                    &&& *d == amount_at(old(self)@.data, old(self)@.pos)
                    &&& final(self)@ == (TableState {
                        data: with_amount(old(self)@.data, old(self)@.pos, *final(d)),
                        ..old(self)@
                    })
                },
                None => old(self)@.pos is Button && final(self)@ == old(self)@,
            },
    {
        match self.pos {
            TablePosition::Name => Some(CurrentReference::Str(self.data.name_mut())),
            TablePosition::RowName(row) => Some(CurrentReference::Str(self.data.row_name_mut(row))),
            TablePosition::Data { col, row } => match self.data.get_mut(col, row) {
                Some(d) => Some(CurrentReference::Data(d)),
                None => None,
            },
            TablePosition::TotalRow(col) => Some(CurrentReference::Data(self.data.total_mut(col))),
            TablePosition::Button(_) => None,
        }
    }

    /// A copy of the value at the focus; none on a button.
    pub fn current_value(&self) -> (r: Option<CurrentValue>)
        requires
            self@.wf(),
        ensures
            match r {
                Some(v) => value_at(self@.data, self@.pos) == Some(v@),
                None => value_at(self@.data, self@.pos) is None,
            },
    {
        match self.pos {
            TablePosition::Name => Some(CurrentValue::Str(self.data.name().clone())),
            TablePosition::RowName(row) => Some(CurrentValue::Str(self.data.row_name(row).clone())),
            TablePosition::Data { col, row } => match self.data.get(col, row) {
                Some(d) => Some(CurrentValue::Data(d)),
                None => None,
            },
            TablePosition::TotalRow(col) => Some(CurrentValue::Data(self.data.total(col))),
            TablePosition::Button(_) => None,
        }
    }

    /// Whether the policy lets the value at `pos` be edited.
    pub fn is_editable(&self, pos: &TablePosition) -> (r: bool)
        ensures
            r == self@.editable(*pos),
    {
        match *pos {
            TablePosition::Name => true,
            TablePosition::RowName(row) => row >= self.fixed_rows_number,
            TablePosition::Data { col, .. } => contains(&self.editable_columns, col),
            TablePosition::TotalRow(col) => contains(&self.editable_total_fields, col),
            TablePosition::Button(_) => false,
        }
    }

    pub fn position(&self) -> (r: TablePosition)
        ensures
            r == self@.pos,
    {
        self.pos
    }

    pub fn is_editing(&self) -> (r: bool)
        ensures
            r == self@.editor.buffer is Some,
    {
        self.editor.is_editing()
    }

    pub fn above(&self, pos: TablePosition) -> (r: TablePosition)
        requires
            pos_valid(pos, self@.cols(), self@.rows()),
        ensures
            r == above_of(pos, self@.cols(), self@.rows()),
    {
        match pos {
            TablePosition::Name => pos,
            TablePosition::RowName(row) => {
                if row == 0 {
                    TablePosition::Name
                } else {
                    TablePosition::RowName(row - 1)
                }
            },
            TablePosition::Data { col, row } => {
                if row == 0 {
                    TablePosition::Name
                } else {
                    TablePosition::Data { col, row: row - 1 }
                }
            },
            TablePosition::TotalRow(col) => {
                let rows = self.data.rows();
                if rows == 0 {
                    pos
                } else {
                    TablePosition::Data { col, row: rows - 1 }
                }
            },
            TablePosition::Button(col) => {
                let cols = self.data.cols();
                if cols == 0 {
                    pos
                } else if col < cols - 1 {
                    TablePosition::TotalRow(col)
                } else {
                    TablePosition::TotalRow(cols - 1)
                }
            },
        }
    }

    pub fn below(&self, pos: TablePosition) -> (r: TablePosition)
        requires
            pos_valid(pos, self@.cols(), self@.rows()),
        ensures
            r == below_of(pos, self@.cols(), self@.rows()),
    {
        let rows = self.data.rows();
        let cols = self.data.cols();
        match pos {
            TablePosition::Name => {
                if cols == 0 || rows == 0 {
                    pos
                } else {
                    TablePosition::Data { col: 0, row: 0 }
                }
            },
            TablePosition::RowName(row) => {
                if row + 1 == rows {
                    if cols == 0 {
                        pos
                    } else {
                        TablePosition::TotalRow(0)
                    }
                } else {
                    TablePosition::RowName(row + 1)
                }
            },
            TablePosition::Data { col, row } => {
                if row + 1 == rows {
                    TablePosition::TotalRow(col)
                } else {
                    TablePosition::Data { col, row: row + 1 }
                }
            },
            TablePosition::TotalRow(col) => {
                if col < NUMBER_OF_BUTTONS - 1 {
                    TablePosition::Button(col)
                } else {
                    TablePosition::Button(NUMBER_OF_BUTTONS - 1)
                }
            },
            TablePosition::Button(_) => pos,
        }
    }

    pub fn left_of(&self, pos: TablePosition) -> (r: TablePosition)
        requires
            pos_valid(pos, self@.cols(), self@.rows()),
        ensures
            r == left_of_pos(pos),
    {
        match pos {
            TablePosition::Name | TablePosition::RowName(_) => pos,
            TablePosition::Data { col, row } => {
                if col == 0 {
                    TablePosition::RowName(row)
                } else {
                    TablePosition::Data { col: col - 1, row }
                }
            },
            TablePosition::TotalRow(col) => {
                if col == 0 {
                    pos
                } else {
                    TablePosition::TotalRow(col - 1)
                }
            },
            TablePosition::Button(col) => {
                if col == 0 {
                    pos
                } else {
                    TablePosition::Button(col - 1)
                }
            },
        }
    }

    pub fn right_of(&self, pos: TablePosition) -> (r: TablePosition)
        requires
            pos_valid(pos, self@.cols(), self@.rows()),
        ensures
            r == right_of_pos(pos, self@.cols()),
    {
        let cols = self.data.cols();
        match pos {
            TablePosition::Name => pos,
            TablePosition::RowName(row) => {
                if cols == 0 {
                    pos
                } else {
                    TablePosition::Data { col: 0, row }
                }
            },
            TablePosition::Data { col, row } => {
                if col + 1 == cols {
                    pos
                } else {
                    TablePosition::Data { col: col + 1, row }
                }
            },
            TablePosition::TotalRow(col) => {
                if col + 1 == cols {
                    pos
                } else {
                    TablePosition::TotalRow(col + 1)
                }
            },
            TablePosition::Button(col) => {
                if col + 1 == NUMBER_OF_BUTTONS {
                    pos
                } else {
                    TablePosition::Button(col + 1)
                }
            },
        }
    }
}

impl<H: SaveHook> StatefulTable<H> {
    /// The title shown above the first column.
    pub fn name(&self) -> (r: &String)
        ensures
            r@ == self@.name,
    {
        &self.name
    }

    pub fn data(&self) -> (r: &TableData)
        ensures
            r@ == self@.data,
    {
        &self.data
    }

    pub fn editor(&self) -> (r: &Editor)
        ensures
            r@ == self@.editor,
    {
        &self.editor
    }

    /// The hook called after every committed edit.
    pub closed spec fn spec_on_save(&self) -> H {
        self.on_save
    }

    pub fn hook(&self) -> (r: &H)
        ensures
            *r == self.spec_on_save(),
    {
        &self.on_save
    }

    fn move_to_top(&mut self)
        requires
            old(self)@.wf(),
            old(self)@.editor.buffer is None,
        ensures
            final(self).spec_on_save() == old(self).spec_on_save(),
            final(self)@.wf(),
            final(self)@ == old(self)@.with_pos(TablePosition::Name),
    {
        self.pos = TablePosition::Name;
    }

    fn move_to_bottom(&mut self)
        requires
            old(self)@.wf(),
            old(self)@.editor.buffer is None,
        ensures
            final(self).spec_on_save() == old(self).spec_on_save(),
            final(self)@.wf(),
            final(self)@ == old(self)@.with_pos(bottom_pos(old(self)@.cols())),
    {
        let cols = self.data.cols();
        if cols == 0 {
            self.pos = TablePosition::Button(0);
        } else if cols - 1 < NUMBER_OF_BUTTONS - 1 {
            self.pos = TablePosition::Button(cols - 1);
        } else {
            self.pos = TablePosition::Button(NUMBER_OF_BUTTONS - 1);
        }
    }

    fn move_to_start(&mut self)
        requires
            old(self)@.wf(),
        ensures
            final(self).spec_on_save() == old(self).spec_on_save(),
            final(self)@.wf(),
            final(self)@ == old(self)@.with_pos(start_of(old(self)@.pos)),
    {
        match self.pos {
            TablePosition::Name | TablePosition::RowName(_) => {},
            TablePosition::Data { row, .. } => self.pos = TablePosition::RowName(row),
            TablePosition::TotalRow(_) => self.pos = TablePosition::TotalRow(0),
            TablePosition::Button(_) => self.pos = TablePosition::Button(0),
        }
    }

    fn move_to_end(&mut self)
        requires
            old(self)@.wf(),
        ensures
            final(self).spec_on_save() == old(self).spec_on_save(),
            final(self)@.wf(),
            final(self)@ == old(self)@.with_pos(end_of(old(self)@.pos, old(self)@.cols())),
    {
        let cols = self.data.cols();
        match self.pos {
            TablePosition::Name => {},
            TablePosition::RowName(row) => {
                if cols > 0 {
                    self.pos = TablePosition::Data { col: cols - 1, row };
                }
            },
            TablePosition::Data { row, .. } => self.pos = TablePosition::Data { col: cols - 1, row },
            TablePosition::TotalRow(_) => self.pos = TablePosition::TotalRow(cols - 1),
            TablePosition::Button(_) => self.pos = TablePosition::Button(NUMBER_OF_BUTTONS - 1),
        }
    }

    /// Starts editing the focused cell, from an empty text when `delete`
    /// holds, else from its value.
    fn start_editing(&mut self, delete: bool)
        requires
            old(self)@.wf(),
        ensures
            final(self).spec_on_save() == old(self).spec_on_save(),
            final(self)@.wf(),
            final(self)@ == started_edit(old(self)@, delete),
    {
        let text = match self.current_value() {
            Some(CurrentValue::Str(s)) => if delete {
                String::new()
            } else {
                s
            },
            Some(CurrentValue::Data(d)) => if delete {
                String::new()
            } else {
                format_value(d)
            },
            None => {
                return;
            },
        };
        self.editor.start_editing(text);
    }

    fn cancel_editing(&mut self)
        requires
            old(self)@.wf(),
        ensures
            final(self).spec_on_save() == old(self).spec_on_save(),
            final(self)@.wf(),
            final(self)@ == (TableState { editor: old(self)@.editor.stopped(), ..old(self)@ }),
    {
        if self.editor.is_editing() {
            self.editor.stop_editing();
        }
    }

    fn press_button(&mut self, i: usize)
        requires
            old(self)@.wf(),
            old(self)@.editor.buffer is None,
            old(self)@.pos == TablePosition::Button(i),
        ensures
            final(self).spec_on_save() == old(self).spec_on_save(),
            final(self)@.wf(),
            final(self)@ == pressed(old(self)@, i as int),
    {
        if i == 0 {
            self.data.add_row();
        } else if i == 1 {
            let rows = self.data.rows();
            if rows > 0 {
                self.data.remove_row(rows - 1);
            }
        }
    }

    /// Writes the edited text into the focused cell and stops editing,
    /// without calling the hook. `Ok(true)` when a value was written,
    /// `Ok(false)` when nothing was being edited; an amount cell whose text
    /// does not read as an amount keeps the edit going and reports the text.
    pub fn commit_edit(&mut self) -> (r: Result<bool, TuiErrors>)
        requires
            old(self)@.wf(),
        ensures
            final(self).spec_on_save() == old(self).spec_on_save(),
            final(self)@.wf(),
            match r {
                Ok(true) => {
                    &&& old(self)@.editor.buffer is Some
                    &&& committed_data(old(self)@) == Some(final(self)@.data)
                    &&& final(self)@ == (TableState {
                        data: final(self)@.data,
                        editor: old(self)@.editor.stopped(),
                        ..old(self)@
                    })
                },
                Ok(false) => old(self)@.editor.buffer is None && final(self)@ == old(self)@,
                Err(TuiErrors::InvalidValue(t)) => {
                    &&& old(self)@.editor.buffer is Some
                    &&& committed_data(old(self)@) is None
                    &&& t@ == old(self)@.editor.text()
                    &&& final(self)@ == old(self)@
                },
            },
    {
        if !self.editor.is_editing() {
            return Ok(false);
        }
        let text = self.editor.value();
        proof {
            lemma_writes_keep_shape(self@.data, self@.pos, text@, 0);
            if let Some(v) = parse_amount(text@) {
                lemma_writes_keep_shape(self@.data, self@.pos, text@, v as i32);
            }
        }
        match self.pos {
            TablePosition::Data { .. } | TablePosition::TotalRow(_) => {
                let v = match parse_value(text.as_str()) {
                    Ok(v) => v,
                    Err(_) => {
                        return Err(TuiErrors::InvalidValue(text));
                    },
                };
                match self.current() {
                    Some(CurrentReference::Data(d)) => {
                        *d = v;
                    },
                    _ => {
                        return Ok(false);
                    },
                }
            },
            _ => {
                match self.current() {
                    Some(CurrentReference::Str(s)) => {
                        *s = text;
                    },
                    _ => {
                        return Ok(false);
                    },
                }
            },
        }
        self.editor.stop_editing();
        Ok(true)
    }

    /// Commits the edit (see `commit_edit`) and then calls the hook with
    /// the grid and the edited place.
    fn stop_editing(&mut self) -> (r: Result<(), TuiErrors>)
        requires
            old(self)@.wf(),
        ensures
            final(self)@.wf(),
            match r {
                Ok(()) => if old(self)@.editor.buffer is Some {
                    &&& committed_data(old(self)@) is Some
                    &&& final(self)@.data == old(self).spec_on_save().saved(
                        committed_data(old(self)@)->Some_0,
                        old(self)@.pos,
                    )
                    &&& final(self)@.rows() == old(self)@.rows()
                    &&& final(self)@.cols() == old(self)@.cols()
                    &&& final(self)@ == (TableState {
                        data: final(self)@.data,
                        editor: old(self)@.editor.stopped(),
                        ..old(self)@
                    })
                } else {
                    &&& final(self)@ == old(self)@
                    &&& final(self).spec_on_save() == old(self).spec_on_save()
                },
                Err(TuiErrors::InvalidValue(t)) => {
                    &&& old(self)@.editor.buffer is Some
                    &&& committed_data(old(self)@) is None
                    &&& t@ == old(self)@.editor.text()
                    &&& final(self)@ == old(self)@
                    &&& final(self).spec_on_save() == old(self).spec_on_save()
                },
            },
    {
        match self.commit_edit() {
            Ok(true) => {
                self.on_save.on_save(&mut self.data, self.pos);
                Ok(())
            },
            Ok(false) => Ok(()),
            Err(e) => Err(e),
        }
    }
    /// Sets the focused cell to its zero value, if the policy allows.
    fn clear_current(&mut self)
        requires
            old(self)@.wf(),
            old(self)@.editor.buffer is None,
        ensures
            final(self).spec_on_save() == old(self).spec_on_save(),
            final(self)@.wf(),
            final(self)@ == cleared(old(self)@),
    {
        proof {
            lemma_writes_keep_shape(self@.data, self@.pos, Seq::<char>::empty(), 0);
        }
        if self.is_editable(&self.pos) {
            match self.current() {
                Some(CurrentReference::Str(s)) => {
                    *s = String::new();
                },
                Some(CurrentReference::Data(d)) => {
                    *d = 0;
                },
                None => {},
            }
        }
    }

    /// Takes the clipboard and writes it into the focused cell when the
    /// kinds match.
    fn paste_current(&mut self)
        requires
            old(self)@.wf(),
            old(self)@.editor.buffer is None,
        ensures
            final(self).spec_on_save() == old(self).spec_on_save(),
            final(self)@.wf(),
            final(self)@ == pasted(old(self)@),
    {
        if let TablePosition::Button(_) = self.pos {
            return;
        }
        proof {
            match self@.editor.clipboard {
                Some(ValueView::Str(x)) => {
                    lemma_writes_keep_shape(self@.data, self@.pos, x, 0);
                },
                Some(ValueView::Data(a)) => {
                    lemma_writes_keep_shape(self@.data, self@.pos, Seq::<char>::empty(), a);
                },
                None => {},
            }
        }
        match self.editor.paste() {
            Some(CurrentValue::Str(buf)) => {
                if let TablePosition::Name | TablePosition::RowName(_) = self.pos {
                    match self.current() {
                        Some(CurrentReference::Str(s)) => {
                            *s = buf;
                        },
                        _ => {},
                    }
                }
            },
            Some(CurrentValue::Data(buf)) => {
                if let TablePosition::Data { .. } | TablePosition::TotalRow(_) = self.pos {
                    match self.current() {
                        Some(CurrentReference::Data(d)) => {
                            *d = buf;
                        },
                        _ => {},
                    }
                }
            },
            None => {},
        }
    }

    /// Removes the focused row (see `TableData::remove_row`) and keeps the
    /// focus inside the grid.
    fn remove_focused_row(&mut self)
        requires
            old(self)@.wf(),
            old(self)@.editor.buffer is None,
        ensures
            final(self).spec_on_save() == old(self).spec_on_save(),
            final(self)@.wf(),
            final(self)@ == removed_at_focus(old(self)@),
    {
        match self.pos {
            TablePosition::Data { row, col } => {
                self.data.remove_row(row);
                if row >= self.data.rows() {
                    self.pos = TablePosition::Data { col, row: row - 1 };
                }
            },
            TablePosition::RowName(row) => {
                self.data.remove_row(row);
                if row >= self.data.rows() {
                    self.pos = TablePosition::RowName(row - 1);
                }
            },
            TablePosition::Name | TablePosition::TotalRow(_) | TablePosition::Button(_) => {},
        }
    }

    /// Edits the focused cell where the policy allows, else presses the
    /// focused button; hands back `Exit` when that button confirms.
    fn edit_or_press(&mut self, replace: bool) -> (r: Option<TuiAction>)
        requires
            old(self)@.wf(),
            old(self)@.editor.buffer is None,
        ensures
            final(self).spec_on_save() == old(self).spec_on_save(),
            final(self)@.wf(),
            final(self)@ == edit_or_press(old(self)@, replace),
            r == tui_reply(old(self)@, TuiAction::Select),
    {
        if self.is_editable(&self.pos) {
            self.start_editing(replace);
            None
        } else if let TablePosition::Button(i) = self.pos {
            self.press_button(i);
            if i == 2 {
                Some(TuiAction::Exit)
            } else {
                None
            }
        } else {
            None
        }
    }

    /// Carries out an action while moving around. Hands back `Exit` when
    /// the table is to be closed. While an edit is in progress nothing
    /// happens.
    pub fn perform_tui_action(&mut self, action: TuiAction) -> (r: Option<TuiAction>)
        requires
            old(self)@.wf(),
        ensures
            final(self).spec_on_save() == old(self).spec_on_save(),
            final(self)@.wf(),
            final(self)@ == tui_step(old(self)@, action),
            r == tui_reply(old(self)@, action),
    {
        if self.editor.is_editing() {
            return None;
        }
        proof {
            lemma_navigation_stays_in_grid(self@.pos, self@.cols(), self@.rows());
            lemma_row_edit_keeps_shape(self@.data, 0);
        }
        match action {
            TuiAction::MoveUp => self.pos = self.above(self.pos),
            TuiAction::MoveDown => self.pos = self.below(self.pos),
            TuiAction::MoveLeft => self.pos = self.left_of(self.pos),
            TuiAction::MoveRight => self.pos = self.right_of(self.pos),
            TuiAction::Edit => {
                return self.edit_or_press(false);
            },
            TuiAction::Replace | TuiAction::Select => {
                return self.edit_or_press(true);
            },
            TuiAction::Delete => self.clear_current(),
            TuiAction::Copy => {
                if let Some(v) = self.current_value() {
                    self.editor.copy(v);
                }
            },
            TuiAction::Paste => self.paste_current(),
            TuiAction::ToTop => self.move_to_top(),
            TuiAction::ToBottom => self.move_to_bottom(),
            TuiAction::ToStart => self.move_to_start(),
            TuiAction::ToEnd => self.move_to_end(),
            TuiAction::EditStart => {
                self.move_to_start();
                if self.is_editable(&self.pos) {
                    self.start_editing(false);
                }
            },
            TuiAction::EditEnd => {
                self.move_to_end();
                if self.is_editable(&self.pos) {
                    self.start_editing(false);
                }
            },
            TuiAction::Exit => {
                return Some(TuiAction::Exit);
            },
            TuiAction::AddRow => self.data.add_row(),
            TuiAction::RemoveRow => self.remove_focused_row(),
        }
        None
    }

    /// Carries out an action while editing. Committing may fail on an
    /// amount cell (see `commit_edit`); the edit then goes on.
    pub fn perform_editing_action(&mut self, action: EditingAction) -> (r: Result<(), TuiErrors>)
        requires
            old(self)@.wf(),
        ensures
            final(self)@.wf(),
            action != EditingAction::StopEditing ==> {
                &&& r is Ok
                &&& final(self)@ == editing_step(old(self)@, action)
                &&& final(self).spec_on_save() == old(self).spec_on_save()
            },
            action == EditingAction::StopEditing ==> match r {
                Ok(()) => if old(self)@.editor.buffer is Some {
                    &&& committed_data(old(self)@) is Some
                    &&& final(self)@.data == old(self).spec_on_save().saved(
                        committed_data(old(self)@)->Some_0,
                        old(self)@.pos,
                    )
                    &&& final(self)@.rows() == old(self)@.rows()
                    &&& final(self)@.cols() == old(self)@.cols()
                    &&& final(self)@ == (TableState {
                        data: final(self)@.data,
                        editor: old(self)@.editor.stopped(),
                        ..old(self)@
                    })
                } else {
                    &&& final(self)@ == old(self)@
                    &&& final(self).spec_on_save() == old(self).spec_on_save()
                },
                Err(TuiErrors::InvalidValue(t)) => {
                    &&& old(self)@.editor.buffer is Some
                    &&& committed_data(old(self)@) is None
                    &&& t@ == old(self)@.editor.text()
                    &&& final(self)@ == old(self)@
                    &&& final(self).spec_on_save() == old(self).spec_on_save()
                },
            },
    {
        match action {
            EditingAction::InsertChar(c) => self.editor.insert_char(c),
            EditingAction::DeleteLeft => self.editor.delete_left(),
            EditingAction::DeleteRight => self.editor.delete_right(),
            EditingAction::MoveLeft => self.editor.move_left(),
            EditingAction::MoveRight => self.editor.move_right(),
            EditingAction::CancelEditing => self.cancel_editing(),
            EditingAction::StopEditing => {
                return self.stop_editing();
            },
        }
        Ok(())
    }
}

} // verus!
