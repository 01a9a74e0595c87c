//! The abstract actions that drive the table widget, and the key bindings
//! that produce them.
use vstd::prelude::*;

verus! {

/// What the user asks for while moving around the table.
#[derive(Debug, Clone, Copy, PartialEq, Eq, Structural)]
pub enum TuiAction {
    MoveUp,
    MoveDown,
    MoveLeft,
    MoveRight,
    Edit,
    Replace,
    Delete,
    Copy,
    Paste,
    ToTop,
    ToBottom,
    ToStart,
    ToEnd,
    EditStart,
    EditEnd,
    Select,
    Exit,
    AddRow,
    RemoveRow,
}

/// What the user asks for while editing a cell.
#[derive(Debug, Clone, Copy, PartialEq, Eq, Structural)]
pub enum EditingAction {
    InsertChar(char),
    MoveLeft,
    MoveRight,
    DeleteLeft,
    DeleteRight,
    CancelEditing,
    StopEditing,
}

/// A key press, as the input source reports it.
#[derive(Debug, Clone, Copy, PartialEq, Eq, Structural)]
pub enum Key {
    Char(char),
    Up,
    Down,
    Left,
    Right,
    Enter,
    Esc,
    Backspace,
    Delete,
    Other,
}

/// The binding of keys to actions while moving around.
pub open spec fn action_of_key(key: Key) -> Option<TuiAction> {
    match key {
        Key::Char(c) => if c == 'k' {
            Some(TuiAction::MoveUp)
        } else if c == 'j' {
            Some(TuiAction::MoveDown)
        } else if c == 'h' {
            Some(TuiAction::MoveLeft)
        } else if c == 'l' {
            Some(TuiAction::MoveRight)
        } else if c == 'i' {
            Some(TuiAction::Edit)
        } else if c == 'r' {
            Some(TuiAction::Replace)
        } else if c == 'd' {
            Some(TuiAction::Delete)
        } else if c == 'y' {
            Some(TuiAction::Copy)
        } else if c == 'p' {
            Some(TuiAction::Paste)
        } else if c == 'g' {
            Some(TuiAction::ToTop)
        } else if c == 'G' {
            Some(TuiAction::ToBottom)
        } else if c == '_' || c == '0' {
            Some(TuiAction::ToStart)
        } else if c == '$' {
            Some(TuiAction::ToEnd)
        } else if c == 'I' {
            Some(TuiAction::EditStart)
        } else if c == 'A' {
            Some(TuiAction::EditEnd)
        } else if c == '+' {
            Some(TuiAction::AddRow)
        } else if c == '-' {
            Some(TuiAction::RemoveRow)
        } else {
            None
        },
        Key::Up => Some(TuiAction::MoveUp),
        Key::Down => Some(TuiAction::MoveDown),
        Key::Left => Some(TuiAction::MoveLeft),
        Key::Right => Some(TuiAction::MoveRight),
        Key::Enter => Some(TuiAction::Select),
        Key::Esc => Some(TuiAction::Exit),
        _ => None,
    }
}

/// Whether `char::is_alphanumeric` holds of a character.
pub uninterp spec fn alphanumeric(c: char) -> bool;

/// Relies on `char::is_alphanumeric`: true of letters and digits, among
/// them the ASCII ones.
#[verifier::external_body]
fn is_alphanumeric(c: char) -> (r: bool)
    ensures
        r == alphanumeric(c),
        ('a' <= c <= 'z' || 'A' <= c <= 'Z' || '0' <= c <= '9') ==> r,
{
    c.is_alphanumeric()
}

/// Characters that may be typed into a cell: letters, digits, ASCII
/// whitespace and a few punctuation marks.
pub open spec fn typable(c: char) -> bool {
    alphanumeric(c) || c == ' ' || c == '\t' || c == '\n' || c == '\x0C' || c == '\r' || c == '.'
        || c == ',' || c == '-' || c == '\'' || c == '!' || c == '?'
}

/// The binding of keys to actions while editing.
pub open spec fn editing_action_of_key(key: Key) -> Option<EditingAction> {
    match key {
        Key::Char(c) => if typable(c) {
            Some(EditingAction::InsertChar(c))
        } else {
            None
        },
        Key::Left => Some(EditingAction::MoveLeft),
        Key::Right => Some(EditingAction::MoveRight),
        Key::Enter => Some(EditingAction::StopEditing),
        Key::Esc => Some(EditingAction::CancelEditing),
        Key::Backspace => Some(EditingAction::DeleteLeft),
        Key::Delete => Some(EditingAction::DeleteRight),
        _ => None,
    }
}

/// The action that `key` asks for while moving around, if any.
pub fn widget_action(key: Key) -> (r: Option<TuiAction>)
    ensures
        r == action_of_key(key),
{
    match key {
        Key::Char(c) => match c {
            'k' => Some(TuiAction::MoveUp),
            'j' => Some(TuiAction::MoveDown),
            'h' => Some(TuiAction::MoveLeft),
            'l' => Some(TuiAction::MoveRight),
            'i' => Some(TuiAction::Edit),
            'r' => Some(TuiAction::Replace),
            'd' => Some(TuiAction::Delete),
            'y' => Some(TuiAction::Copy),
            'p' => Some(TuiAction::Paste),
            'g' => Some(TuiAction::ToTop),
            'G' => Some(TuiAction::ToBottom),
            '_' | '0' => Some(TuiAction::ToStart),
            '$' => Some(TuiAction::ToEnd),
            'I' => Some(TuiAction::EditStart),
            'A' => Some(TuiAction::EditEnd),
            '+' => Some(TuiAction::AddRow),
            '-' => Some(TuiAction::RemoveRow),
            _ => None,
        },
        Key::Up => Some(TuiAction::MoveUp),
        Key::Down => Some(TuiAction::MoveDown),
        Key::Left => Some(TuiAction::MoveLeft),
        Key::Right => Some(TuiAction::MoveRight),
        Key::Enter => Some(TuiAction::Select),
        Key::Esc => Some(TuiAction::Exit),
        _ => None,
    }
}

/// The action that `key` asks for while editing, if any.
pub fn widget_editing_action(key: Key) -> (r: Option<EditingAction>)
    ensures
        r == editing_action_of_key(key),
{
    match key {
        Key::Char(c) => {
            let punctuation = c == '.' || c == ',' || c == '-' || c == '\'' || c == '!' || c == '?';
            let whitespace = c == ' ' || c == '\t' || c == '\n' || c == '\x0C' || c == '\r';
            if is_alphanumeric(c) || whitespace || punctuation {
                Some(EditingAction::InsertChar(c))
            } else {
                None
            }
        },
        Key::Left => Some(EditingAction::MoveLeft),
        Key::Right => Some(EditingAction::MoveRight),
        Key::Enter => Some(EditingAction::StopEditing),
        Key::Esc => Some(EditingAction::CancelEditing),
        Key::Backspace => Some(EditingAction::DeleteLeft),
        Key::Delete => Some(EditingAction::DeleteRight),
        _ => None,
    }
}

} // verus!
