use kakebo::actions::{widget_action, widget_editing_action, EditingAction, Key, TuiAction};
use kakebo::editor::{CurrentValue, Editor};

#[test]
fn idle_editor_ignores_edits() {
    let mut e = Editor::default();
    assert!(!e.is_editing());
    e.insert_char('a');
    e.delete_left();
    e.move_right();
    assert_eq!(e.value(), "");
    assert_eq!(e.stop_editing(), "");
}

#[test]
fn editing_inserts_and_deletes_at_the_cursor() {
    let mut e = Editor::default();
    e.start_editing("héllo".to_string());
    assert_eq!(e.cursor_position(), 5);
    e.move_left();
    e.move_left();
    e.insert_char('X');
    assert_eq!(e.value(), "hélXlo");
    assert_eq!(e.cursor_position(), 4);
    e.delete_left();
    assert_eq!(e.value(), "héllo");
    e.delete_right();
    assert_eq!(e.value(), "hélo");
    for _ in 0..10 {
        e.move_right();
    }
    assert_eq!(e.cursor_position(), 4);
    e.delete_right();
    assert_eq!(e.value(), "hélo");
    for _ in 0..10 {
        e.move_left();
    }
    e.delete_left();
    assert_eq!(e.cursor_position(), 0);
    assert_eq!(e.stop_editing(), "hélo");
    assert!(!e.is_editing());
}

#[test]
fn clipboard_is_taken_by_paste() {
    let mut e = Editor::default();
    assert_eq!(e.paste(), None);
    e.copy(CurrentValue::Data(42));
    assert_eq!(e.paste(), Some(CurrentValue::Data(42)));
    assert_eq!(e.paste(), None);
}

#[test]
fn navigation_keys() {
    assert_eq!(widget_action(Key::Char('k')), Some(TuiAction::MoveUp));
    assert_eq!(widget_action(Key::Char('0')), Some(TuiAction::ToStart));
    assert_eq!(widget_action(Key::Char('_')), Some(TuiAction::ToStart));
    assert_eq!(widget_action(Key::Char('+')), Some(TuiAction::AddRow));
    assert_eq!(widget_action(Key::Enter), Some(TuiAction::Select));
    assert_eq!(widget_action(Key::Esc), Some(TuiAction::Exit));
    assert_eq!(widget_action(Key::Char('z')), None);
    assert_eq!(widget_action(Key::Backspace), None);
}

#[test]
fn editing_keys() {
    assert_eq!(widget_editing_action(Key::Char('é')), Some(EditingAction::InsertChar('é')));
    assert_eq!(widget_editing_action(Key::Char('7')), Some(EditingAction::InsertChar('7')));
    assert_eq!(widget_editing_action(Key::Char(',')), Some(EditingAction::InsertChar(',')));
    assert_eq!(widget_editing_action(Key::Char(' ')), Some(EditingAction::InsertChar(' ')));
    assert_eq!(widget_editing_action(Key::Char('#')), None);
    assert_eq!(widget_editing_action(Key::Char('€')), None);
    assert_eq!(widget_editing_action(Key::Enter), Some(EditingAction::StopEditing));
    assert_eq!(widget_editing_action(Key::Esc), Some(EditingAction::CancelEditing));
    assert_eq!(widget_editing_action(Key::Backspace), Some(EditingAction::DeleteLeft));
    assert_eq!(widget_editing_action(Key::Delete), Some(EditingAction::DeleteRight));
    assert_eq!(widget_editing_action(Key::Up), None);
}
