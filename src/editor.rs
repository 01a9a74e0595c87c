//! The in-place text editor of the table widget, and the values that pass
//! between a focused cell and the clipboard.
use vstd::prelude::*;

use crate::amount::push_char;

verus! {

/// A single live handle to the value of one focused cell: a label or the
/// name as text, or a data or total cell as an amount.
#[derive(Debug)]
pub enum CurrentReference<'a> {
    Str(&'a mut String),
    Data(&'a mut i32),
}

/// A value taken out of a cell, tagged with the kind of cell it came from.
#[derive(Debug, Clone, PartialEq, Eq)]
pub enum CurrentValue {
    Str(String),
    Data(i32),
}

/// What a `CurrentValue` holds, as a mathematical value.
pub enum ValueView {
    Str(Seq<char>),
    Data(i32),
}

impl View for CurrentValue {
    type V = ValueView;

    open spec fn view(&self) -> ValueView {
        match self {
            CurrentValue::Str(s) => ValueView::Str(s@),
            CurrentValue::Data(d) => ValueView::Data(*d),
        }
    }
}

/// What an `Editor` holds: the text being edited (none while idle), the
/// cursor offset within it in characters, and the clipboard.
pub struct EditorView {
    pub buffer: Option<Seq<char>>,
    pub cursor: int,
    pub clipboard: Option<ValueView>,
}

impl EditorView {
    /// While editing, the cursor stands within the text or just after it.
    pub open spec fn wf(self) -> bool {
        match self.buffer {
            Some(b) => 0 <= self.cursor <= b.len(),
            None => 0 <= self.cursor,
        }
    }

    pub open spec fn text(self) -> Seq<char> {
        match self.buffer {
            Some(b) => b,
            None => Seq::<char>::empty(),
        }
    }

    /// `c` inserted at the cursor, the cursor after it; nothing while idle.
    pub open spec fn inserted(self, c: char) -> EditorView {
        match self.buffer {
            Some(b) => EditorView {
                buffer: Some(b.insert(self.cursor, c)),
                cursor: self.cursor + 1,
                clipboard: self.clipboard,
            },
            None => self,
        }
    }

    /// The character before the cursor removed; nothing while idle or at
    /// the start.
    pub open spec fn deleted_left(self) -> EditorView {
        match self.buffer {
            Some(b) => if self.cursor > 0 {
                EditorView {
                    buffer: Some(b.remove(self.cursor - 1)),
                    cursor: self.cursor - 1,
                    clipboard: self.clipboard,
                }
            } else {
                self
            },
            None => self,
        }
    }

    /// The character under the cursor removed; nothing while idle or at the
    /// end.
    pub open spec fn deleted_right(self) -> EditorView {
        match self.buffer {
            Some(b) => if self.cursor < b.len() {
                EditorView { buffer: Some(b.remove(self.cursor)), ..self }
            } else {
                self
            },
            None => self,
        }
    }

    pub open spec fn moved_left(self) -> EditorView {
        if self.buffer is Some && self.cursor > 0 {
            EditorView { cursor: self.cursor - 1, ..self }
        } else {
            self
        }
    }

    pub open spec fn moved_right(self) -> EditorView {
        match self.buffer {
            Some(b) => if self.cursor < b.len() {
                EditorView { cursor: self.cursor + 1, ..self }
            } else {
                self
            },
            None => self,
        }
    }

    pub open spec fn stopped(self) -> EditorView {
        EditorView { buffer: None, ..self }
    }
}

#[derive(Debug)]
pub struct Editor {
    cursor_position: usize,
    s: Option<Vec<char>>,
    copy_buffer: Option<CurrentValue>,
}

impl View for Editor {
    type V = EditorView;

    closed spec fn view(&self) -> EditorView {
        EditorView {
            buffer: match self.s {
                Some(v) => Some(v@),
                None => None,
            },
            cursor: self.cursor_position as int,
            clipboard: match self.copy_buffer {
                Some(v) => Some(v@),
                None => None,
            },
        }
    }
}

fn chars_of(s: &String) -> (r: Vec<char>)
    ensures
        r@ == s@,
{
    let n = s.as_str().unicode_len();
    let mut r: Vec<char> = Vec::new();
    let mut i: usize = 0;
    while i < n
        invariant
            n == s@.len(),
            i <= n,
            r@ == s@.subrange(0, i as int),
        decreases n - i,
    {
        r.push(s.as_str().get_char(i));
        i = i + 1;
        assert(r@ =~= s@.subrange(0, i as int));
    }
    assert(r@ =~= s@);
    r
}

fn string_of(v: &Vec<char>) -> (r: String)
    ensures
        r@ == v@,
{
    let mut r = String::new();
    let mut i: usize = 0;
    while i < v.len()
        invariant
            i <= v@.len(),
            r@ == v@.subrange(0, i as int),
        decreases v@.len() - i,
    {
        push_char(&mut r, v[i]);
        i = i + 1;
        assert(r@ =~= v@.subrange(0, i as int));
    }
    assert(r@ =~= v@);
    r
}

impl Default for Editor {
    fn default() -> (r: Self)
        ensures
            r@.buffer is None,
            r@.cursor == 0,
            r@.clipboard is None,
    {
        Editor { cursor_position: 0, s: None, copy_buffer: None }
    }
}

impl Editor {
    pub fn is_editing(&self) -> (r: bool)
        ensures
            r == self@.buffer is Some,
    {
        self.s.is_some()
    }

    /// Starts editing `s`, with the cursor after its last character.
    pub fn start_editing(&mut self, s: String)
        ensures
            final(self)@ == (EditorView {
                buffer: Some(s@),
                cursor: s@.len() as int,
                clipboard: old(self)@.clipboard,
            }),
    {
        let v = chars_of(&s);
        self.cursor_position = v.len();
        self.s = Some(v);
    }

    /// Stops editing and hands back the edited text (empty while idle).
    pub fn stop_editing(&mut self) -> (r: String)
        ensures
            r@ == old(self)@.text(),
            final(self)@ == old(self)@.stopped(),
    {
        let r = match &self.s {
            Some(v) => string_of(v),
            None => String::new(),
        };
        self.s = None;
        r
    }

    /// Puts `value` on the clipboard.
    pub fn copy(&mut self, value: CurrentValue)
        ensures
            final(self)@ == (EditorView { clipboard: Some(value@), ..old(self)@ }),
    {
        self.copy_buffer = Some(value);
    }

    /// Takes the value off the clipboard.
    pub fn paste(&mut self) -> (r: Option<CurrentValue>)
        ensures
            match r {
                Some(v) => old(self)@.clipboard == Some(v@),
                None => old(self)@.clipboard is None,
            },
            final(self)@ == (EditorView { clipboard: None, ..old(self)@ }),
    {
        self.copy_buffer.take()
    }

    /// Inserts `c` at the cursor and moves the cursor past it; nothing while
    /// idle.
    pub fn insert_char(&mut self, c: char)
        requires
            old(self)@.wf(),
        ensures
            final(self)@.wf(),
            final(self)@ == old(self)@.inserted(c),
    {
        if let Some(v) = &mut self.s {
            v.insert(self.cursor_position, c);
            let len = v.len();
            assert(self.cursor_position < len);
            self.cursor_position = self.cursor_position + 1;
        }
    }

    /// Deletes the character before the cursor; nothing while idle or at the
    /// start of the text.
    pub fn delete_left(&mut self)
        requires
            old(self)@.wf(),
        ensures
            final(self)@.wf(),
            final(self)@ == old(self)@.deleted_left(),
    {
        if let Some(v) = &mut self.s {
            if self.cursor_position > 0 {
                v.remove(self.cursor_position - 1);
                self.cursor_position = self.cursor_position - 1;
            }
        }
    }

    /// Deletes the character under the cursor; nothing while idle or at the
    /// end of the text.
    pub fn delete_right(&mut self)
        requires
            old(self)@.wf(),
        ensures
            final(self)@.wf(),
            final(self)@ == old(self)@.deleted_right(),
    {
        if let Some(v) = &mut self.s {
            if self.cursor_position < v.len() {
                v.remove(self.cursor_position);
            }
        }
    }

    /// Moves the cursor one character left, if it can.
    pub fn move_left(&mut self)
        requires
            old(self)@.wf(),
        ensures
            final(self)@.wf(),
            final(self)@ == old(self)@.moved_left(),
    {
        if self.s.is_some() && self.cursor_position > 0 {
            self.cursor_position = self.cursor_position - 1;
        }
    }

    /// Moves the cursor one character right, if it can.
    pub fn move_right(&mut self)
        requires
            old(self)@.wf(),
        ensures
            final(self)@.wf(),
            final(self)@ == old(self)@.moved_right(),
    {
        if let Some(v) = &self.s {
            if self.cursor_position < v.len() {
                self.cursor_position = self.cursor_position + 1;
            }
        }
    }

    /// The text being edited, empty while idle.
    pub fn value(&self) -> (r: String)
        ensures
            r@ == self@.text(),
    {
        match &self.s {
            Some(v) => string_of(v),
            None => String::new(),
        }
    }

    pub fn cursor_position(&self) -> (r: usize)
        ensures
            r == self@.cursor,
    {
        self.cursor_position
    }
}

} // verus!
