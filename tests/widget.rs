use kakebo::actions::{EditingAction, TuiAction};
use kakebo::editor::CurrentValue;
use kakebo::position::TablePosition;
use kakebo::table::{NoHook, RecomputeTotals, SaveHook, StatefulTable, StatefulTableBuilder, TuiErrors};
use kakebo::table_data::{TableData, TableView};

fn strings(v: &[&str]) -> Vec<String> {
    v.iter().map(|s| s.to_string()).collect()
}

fn two_by_two() -> TableData {
    TableData::new(
        "Budget".to_string(),
        &strings(&["A", "B"]),
        &strings(&["R1", "R2"]),
        &[100, 200, 300, 400],
    )
    .unwrap()
}

struct Recorder {
    saved: Vec<TablePosition>,
    first_cell: Vec<Option<i32>>,
}

impl SaveHook for Recorder {
    fn saved(&self, d: TableView, _p: TablePosition) -> TableView {
        d
    }

    fn on_save(&mut self, data: &mut TableData, pos: TablePosition) {
        self.saved.push(pos);
        self.first_cell.push(data.get(0, 0));
    }
}

fn table() -> StatefulTable<NoHook> {
    StatefulTable::builder()
        .table_data(two_by_two())
        .editable_columns(vec![0, 1])
        .build()
}

fn type_text(t: &mut StatefulTable<impl SaveHook>, text: &str) {
    for c in text.chars() {
        t.perform_editing_action(EditingAction::InsertChar(c)).unwrap();
    }
}

#[test]
fn built_table_starts_on_name_with_totals() {
    let t = table();
    assert_eq!(t.position(), TablePosition::Name);
    assert!(!t.is_editing());
    assert_eq!(t.data().total(0), 400);
    assert_eq!(t.data().total(1), 600);
}

#[test]
fn name_move_right_stays_and_move_down_enters_grid() {
    let mut t = table();
    assert_eq!(t.perform_tui_action(TuiAction::MoveRight), None);
    assert_eq!(t.position(), TablePosition::Name);
    t.perform_tui_action(TuiAction::MoveDown);
    assert_eq!(t.position(), TablePosition::Data { col: 0, row: 0 });
}

#[test]
fn edit_commit_writes_amount_and_calls_hook() {
    let mut t = StatefulTable::builder()
        .table_data(two_by_two())
        .editable_columns(vec![0, 1])
        .on_save(Recorder { saved: Vec::new(), first_cell: Vec::new() })
        .build();
    t.perform_tui_action(TuiAction::MoveDown);
    assert_eq!(t.position(), TablePosition::Data { col: 0, row: 0 });
    t.perform_tui_action(TuiAction::Edit);
    assert!(t.is_editing());
    assert_eq!(t.editor().value(), "1.00");
    for _ in 0..4 {
        t.perform_editing_action(EditingAction::DeleteLeft).unwrap();
    }
    assert_eq!(t.editor().value(), "");
    type_text(&mut t, "9.00");
    assert!(t.perform_editing_action(EditingAction::StopEditing).is_ok());
    assert!(!t.is_editing());
    assert_eq!(t.data().get(0, 0), Some(900));
    assert_eq!(t.hook().saved, vec![TablePosition::Data { col: 0, row: 0 }]);
    assert_eq!(t.hook().first_cell, vec![Some(900)]);
    assert_eq!(t.data().get(1, 0), Some(200));
    assert_eq!(t.data().get(0, 1), Some(300));
    assert_eq!(t.data().total(0), 400);
    assert_eq!(t.position(), TablePosition::Data { col: 0, row: 0 });
}

#[test]
fn failed_commit_keeps_editing() {
    let mut t = StatefulTable::builder()
        .table_data(two_by_two())
        .editable_columns(vec![0])
        .on_save(Recorder { saved: Vec::new(), first_cell: Vec::new() })
        .build();
    t.perform_tui_action(TuiAction::MoveDown);
    t.perform_tui_action(TuiAction::Replace);
    type_text(&mut t, "1.234");
    match t.perform_editing_action(EditingAction::StopEditing) {
        Err(TuiErrors::InvalidValue(text)) => assert_eq!(text, "1.234"),
        Ok(()) => panic!("a text with three decimals must not commit"),
    }
    assert!(t.is_editing());
    assert_eq!(t.editor().value(), "1.234");
    assert_eq!(t.data().get(0, 0), Some(100));
    assert!(t.hook().saved.is_empty());
    t.perform_editing_action(EditingAction::DeleteLeft).unwrap();
    assert!(t.perform_editing_action(EditingAction::StopEditing).is_ok());
    assert_eq!(t.data().get(0, 0), Some(123));
}

#[test]
fn cancel_leaves_the_cell() {
    let mut t = table();
    t.perform_tui_action(TuiAction::MoveDown);
    t.perform_tui_action(TuiAction::Replace);
    type_text(&mut t, "5");
    t.perform_editing_action(EditingAction::CancelEditing).unwrap();
    assert!(!t.is_editing());
    assert_eq!(t.data().get(0, 0), Some(100));
}

#[test]
fn add_row_action_appends_zero_row() {
    let mut t = table();
    assert_eq!(t.perform_tui_action(TuiAction::AddRow), None);
    assert_eq!(t.data().rows(), 3);
    assert_eq!(t.data().get(0, 2), Some(0));
    assert_eq!(t.data().get(1, 2), Some(0));
    assert_eq!(t.data().total(0), 400);
    assert_eq!(t.data().total(1), 600);
}

#[test]
fn remove_row_action_moves_focus_up() {
    let mut t = table();
    t.perform_tui_action(TuiAction::MoveDown);
    t.perform_tui_action(TuiAction::MoveDown);
    assert_eq!(t.position(), TablePosition::Data { col: 0, row: 1 });
    t.perform_tui_action(TuiAction::RemoveRow);
    assert_eq!(t.data().rows(), 1);
    assert_eq!(t.position(), TablePosition::Data { col: 0, row: 0 });
    t.perform_tui_action(TuiAction::RemoveRow);
    assert_eq!(t.data().rows(), 1);
    assert_eq!(t.position(), TablePosition::Data { col: 0, row: 0 });
}

#[test]
fn copy_text_then_paste_into_amount_changes_nothing() {
    let mut t = table();
    t.perform_tui_action(TuiAction::Copy);
    t.perform_tui_action(TuiAction::MoveDown);
    t.perform_tui_action(TuiAction::Paste);
    assert_eq!(t.data().get(0, 0), Some(100));
    assert_eq!(t.data().name().as_str(), "Budget");
}

#[test]
fn copy_amount_then_paste_into_amount_overwrites() {
    let mut t = table();
    t.perform_tui_action(TuiAction::MoveDown);
    t.perform_tui_action(TuiAction::Copy);
    t.perform_tui_action(TuiAction::MoveRight);
    t.perform_tui_action(TuiAction::Paste);
    assert_eq!(t.data().get(1, 0), Some(100));
    t.perform_tui_action(TuiAction::MoveLeft);
    t.perform_tui_action(TuiAction::MoveLeft);
    assert_eq!(t.position(), TablePosition::RowName(0));
    t.perform_tui_action(TuiAction::Paste);
    assert_eq!(t.data().row_name(0).as_str(), "R1");
}

#[test]
fn copy_label_then_paste_into_name() {
    let mut t = table();
    t.perform_tui_action(TuiAction::MoveDown);
    t.perform_tui_action(TuiAction::MoveLeft);
    t.perform_tui_action(TuiAction::Copy);
    assert_eq!(t.current_value(), Some(CurrentValue::Str("R1".to_string())));
    t.perform_tui_action(TuiAction::ToTop);
    t.perform_tui_action(TuiAction::Paste);
    assert_eq!(t.data().name().as_str(), "R1");
}

#[test]
fn read_only_cells_are_not_edited() {
    let mut t = StatefulTable::builder()
        .table_data(two_by_two())
        .fixed_rows(1)
        .editable_column(1)
        .editable_total_field(0)
        .build();
    assert!(t.is_editable(&TablePosition::Name));
    assert!(!t.is_editable(&TablePosition::RowName(0)));
    assert!(t.is_editable(&TablePosition::RowName(1)));
    assert!(!t.is_editable(&TablePosition::Data { col: 0, row: 0 }));
    assert!(t.is_editable(&TablePosition::Data { col: 1, row: 0 }));
    assert!(t.is_editable(&TablePosition::TotalRow(0)));
    assert!(!t.is_editable(&TablePosition::TotalRow(1)));
    for i in 0..3 {
        assert!(!t.is_editable(&TablePosition::Button(i)));
    }
    t.perform_tui_action(TuiAction::MoveDown);
    t.perform_tui_action(TuiAction::Edit);
    assert!(!t.is_editing());
    t.perform_tui_action(TuiAction::Delete);
    assert_eq!(t.data().get(0, 0), Some(100));
    t.perform_tui_action(TuiAction::MoveRight);
    t.perform_tui_action(TuiAction::Delete);
    assert_eq!(t.data().get(1, 0), Some(0));
}

#[test]
fn editable_total_commits() {
    let mut t = StatefulTable::builder()
        .table_data(two_by_two())
        .editable_total_fields(vec![1])
        .build();
    t.perform_tui_action(TuiAction::MoveDown);
    t.perform_tui_action(TuiAction::MoveDown);
    t.perform_tui_action(TuiAction::MoveDown);
    t.perform_tui_action(TuiAction::MoveRight);
    assert_eq!(t.position(), TablePosition::TotalRow(1));
    t.perform_tui_action(TuiAction::Select);
    assert!(t.is_editing());
    assert_eq!(t.editor().value(), "");
    type_text(&mut t, "-2,5");
    t.perform_editing_action(EditingAction::StopEditing).unwrap();
    assert_eq!(t.data().total(1), -250);
}

#[test]
fn buttons_add_delete_and_confirm() {
    let mut t = table();
    t.perform_tui_action(TuiAction::ToBottom);
    assert_eq!(t.position(), TablePosition::Button(1));
    t.perform_tui_action(TuiAction::ToStart);
    assert_eq!(t.position(), TablePosition::Button(0));
    assert_eq!(t.perform_tui_action(TuiAction::Select), None);
    assert_eq!(t.data().rows(), 3);
    t.perform_tui_action(TuiAction::MoveRight);
    assert_eq!(t.perform_tui_action(TuiAction::Select), None);
    assert_eq!(t.data().rows(), 2);
    assert_eq!(t.data().get(0, 1), Some(300));
    t.perform_tui_action(TuiAction::ToEnd);
    assert_eq!(t.position(), TablePosition::Button(2));
    assert_eq!(t.perform_tui_action(TuiAction::Select), Some(TuiAction::Exit));
    assert_eq!(t.perform_tui_action(TuiAction::Exit), Some(TuiAction::Exit));
}

#[test]
fn navigation_rules() {
    let mut t = table();
    assert_eq!(t.above(TablePosition::RowName(0)), TablePosition::Name);
    assert_eq!(t.above(TablePosition::Data { col: 1, row: 0 }), TablePosition::Name);
    assert_eq!(t.above(TablePosition::TotalRow(1)), TablePosition::Data { col: 1, row: 1 });
    assert_eq!(t.above(TablePosition::Button(2)), TablePosition::TotalRow(1));
    assert_eq!(t.below(TablePosition::RowName(1)), TablePosition::TotalRow(0));
    assert_eq!(t.below(TablePosition::Data { col: 1, row: 1 }), TablePosition::TotalRow(1));
    assert_eq!(t.below(TablePosition::TotalRow(1)), TablePosition::Button(1));
    assert_eq!(t.below(TablePosition::Button(0)), TablePosition::Button(0));
    assert_eq!(t.left_of(TablePosition::Data { col: 0, row: 1 }), TablePosition::RowName(1));
    assert_eq!(t.left_of(TablePosition::TotalRow(0)), TablePosition::TotalRow(0));
    assert_eq!(t.left_of(TablePosition::Button(2)), TablePosition::Button(1));
    assert_eq!(t.right_of(TablePosition::RowName(1)), TablePosition::Data { col: 0, row: 1 });
    assert_eq!(t.right_of(TablePosition::Data { col: 1, row: 0 }), TablePosition::Data { col: 1, row: 0 });
    assert_eq!(t.right_of(TablePosition::Button(2)), TablePosition::Button(2));
    t.perform_tui_action(TuiAction::MoveDown);
    t.perform_tui_action(TuiAction::ToEnd);
    assert_eq!(t.position(), TablePosition::Data { col: 1, row: 0 });
    t.perform_tui_action(TuiAction::ToStart);
    assert_eq!(t.position(), TablePosition::RowName(0));
    t.perform_tui_action(TuiAction::ToTop);
    assert_eq!(t.position(), TablePosition::Name);
}

#[test]
fn navigation_stays_inside_an_empty_grid() {
    let mut t = StatefulTable::builder().build();
    for action in [
        TuiAction::MoveDown,
        TuiAction::MoveRight,
        TuiAction::ToBottom,
        TuiAction::MoveUp,
        TuiAction::ToEnd,
        TuiAction::MoveLeft,
    ] {
        t.perform_tui_action(action);
        assert!(matches!(t.position(), TablePosition::Name | TablePosition::Button(_)));
    }
}

#[test]
fn edit_start_and_end_open_the_row_ends() {
    let mut t = table();
    t.perform_tui_action(TuiAction::MoveDown);
    t.perform_tui_action(TuiAction::EditEnd);
    assert_eq!(t.position(), TablePosition::Data { col: 1, row: 0 });
    assert_eq!(t.editor().value(), "2.00");
    assert_eq!(t.editor().cursor_position(), 4);
    t.perform_editing_action(EditingAction::CancelEditing).unwrap();
    t.perform_tui_action(TuiAction::EditStart);
    assert_eq!(t.position(), TablePosition::RowName(0));
    assert_eq!(t.editor().value(), "R1");
    t.perform_editing_action(EditingAction::InsertChar('x')).unwrap();
    t.perform_editing_action(EditingAction::StopEditing).unwrap();
    assert_eq!(t.data().row_name(0).as_str(), "R1x");
}

#[test]
fn actions_while_editing_are_ignored() {
    let mut t = table();
    t.perform_tui_action(TuiAction::Edit);
    assert!(t.is_editing());
    assert_eq!(t.perform_tui_action(TuiAction::MoveDown), None);
    assert_eq!(t.position(), TablePosition::Name);
    assert_eq!(t.perform_tui_action(TuiAction::Exit), None);
}

#[test]
fn recompute_hook_updates_totals_after_commit() {
    let mut t = StatefulTable::builder()
        .table_data(two_by_two())
        .editable_column(0)
        .on_save(RecomputeTotals)
        .build();
    t.perform_tui_action(TuiAction::MoveDown);
    t.perform_tui_action(TuiAction::Replace);
    type_text(&mut t, "9");
    t.perform_editing_action(EditingAction::StopEditing).unwrap();
    assert_eq!(t.data().get(0, 0), Some(900));
    assert_eq!(t.data().total(0), 1200);
    assert_eq!(t.data().total(1), 600);
}

#[test]
fn commit_edit_skips_the_hook() {
    let mut t = StatefulTable::builder()
        .table_data(two_by_two())
        .editable_column(0)
        .on_save(Recorder { saved: Vec::new(), first_cell: Vec::new() })
        .build();
    assert!(matches!(t.commit_edit(), Ok(false)));
    t.perform_tui_action(TuiAction::MoveDown);
    t.perform_tui_action(TuiAction::Replace);
    type_text(&mut t, "2,25");
    assert!(matches!(t.commit_edit(), Ok(true)));
    assert_eq!(t.data().get(0, 0), Some(225));
    assert!(t.hook().saved.is_empty());
}

fn titled() -> StatefulTable<NoHook> {
    StatefulTableBuilder::new("Table".to_string())
        .table_data(two_by_two())
        .editable_columns(vec![0, 1])
        .build()
}

#[test]
fn layout_widths() {
    let mut t = titled();
    assert_eq!(t.name().as_str(), "Table");
    assert_eq!(t.first_column_width(), 5);
    assert_eq!(t.column_widths(), vec![4, 4]);
    t.perform_tui_action(TuiAction::MoveDown);
    t.perform_tui_action(TuiAction::MoveLeft);
    t.perform_tui_action(TuiAction::Edit);
    type_text(&mut t, "abcde");
    assert_eq!(t.first_column_width(), 9);
    t.perform_editing_action(EditingAction::CancelEditing).unwrap();
    t.perform_tui_action(TuiAction::MoveRight);
    t.perform_tui_action(TuiAction::MoveRight);
    t.perform_tui_action(TuiAction::Edit);
    type_text(&mut t, "0000");
    assert_eq!(t.column_width(1), 10);
    assert_eq!(t.column_width(0), 4);
}

#[test]
fn layout_cursor_offsets() {
    let mut t = titled();
    assert_eq!(t.cursor_offset(), Some((0, 0)));
    t.perform_tui_action(TuiAction::MoveDown);
    assert_eq!(t.cursor_offset(), Some((7, 2)));
    t.perform_tui_action(TuiAction::MoveRight);
    assert_eq!(t.cursor_offset(), Some((13, 2)));
    t.perform_tui_action(TuiAction::MoveDown);
    t.perform_tui_action(TuiAction::MoveDown);
    assert_eq!(t.position(), TablePosition::TotalRow(1));
    assert_eq!(t.cursor_offset(), Some((13, 4)));
    t.perform_tui_action(TuiAction::MoveDown);
    assert_eq!(t.position(), TablePosition::Button(1));
    assert_eq!(t.cursor_offset(), Some((9, 5)));
    t.perform_tui_action(TuiAction::MoveRight);
    assert_eq!(t.cursor_offset(), Some((26, 5)));
    t.perform_tui_action(TuiAction::ToTop);
    t.perform_tui_action(TuiAction::MoveDown);
    t.perform_tui_action(TuiAction::MoveLeft);
    assert_eq!(t.cursor_offset(), Some((0, 2)));
}
