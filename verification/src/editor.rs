//! A single-line text editor: the modal's input field.
//!
//! Free-text entry happens only while the Add Target modal is open, so a
//! plain character buffer with a cursor is the whole state.  Every edit
//! is a deterministic step of [`spec_edit`].

use vstd::prelude::*;
use vstd::string::StrSliceExecFns;

use crate::keys::KeyInput;

verus! {

/// Relies on `String::push`: appending one character to the end of the
/// string.
pub assume_specification[ String::push ](s: &mut String, ch: char)
    ensures
        final(s)@ == old(s)@.push(ch),
;

/// The abstract state of the editor: its characters and cursor position.
pub ghost struct EditorView {
    pub text: Seq<char>,
    pub cursor: int,
}

/// Whether a key is consumed by the editor as a text-editing key.  Tab is
/// consumed without changing the line, since the input is a single line.
pub open spec fn is_edit_key(key: KeyInput) -> bool {
    match key {
        KeyInput::Char(_) => true,
        KeyInput::Backspace => true,
        KeyInput::Delete => true,
        KeyInput::Left => true,
        KeyInput::Right => true,
        KeyInput::Tab => true,
        _ => false,
    }
}

/// The editor state after one key: insert at the cursor, delete around
/// it, or move it; any non-editing key leaves the state unchanged.
pub open spec fn spec_edit(e: EditorView, key: KeyInput) -> EditorView
    recommends
        0 <= e.cursor <= e.text.len(),
{
    match key {
        KeyInput::Char(c) => EditorView {
            text: e.text.insert(e.cursor, c),
            cursor: e.cursor + 1,
        },
        KeyInput::Backspace => if e.cursor > 0 {
            EditorView { text: e.text.remove(e.cursor - 1), cursor: e.cursor - 1 }
        } else {
            e
        },
        KeyInput::Delete => if e.cursor < e.text.len() {
            EditorView { text: e.text.remove(e.cursor), cursor: e.cursor }
        } else {
            e
        },
        KeyInput::Left => if e.cursor > 0 {
            EditorView { text: e.text, cursor: e.cursor - 1 }
        } else {
            e
        },
        KeyInput::Right => if e.cursor < e.text.len() {
            EditorView { text: e.text, cursor: e.cursor + 1 }
        } else {
            e
        },
        _ => e,
    }
}

/// A one-line character buffer with a cursor.
#[derive(Debug)]
pub struct LineEditor {
    text: Vec<char>,
    cursor: usize,
}

impl View for LineEditor {
    type V = EditorView;

    closed spec fn view(&self) -> EditorView {
        EditorView { text: self.text@, cursor: self.cursor as int }
    }
}

impl LineEditor {
    /// The structural invariant: the cursor sits inside the line.
    pub open spec fn wf(&self) -> bool {
        0 <= self@.cursor <= self@.text.len()
    }

    /// An empty line with the cursor at its start.
    pub fn new() -> (e: LineEditor)
        ensures
            e.wf(),
            e@.text =~= Seq::<char>::empty(),
            e@.cursor == 0,
    {
        LineEditor { text: Vec::new(), cursor: 0 }
    }

    /// A line holding the given characters, cursor at the end.
    pub fn from_chars(text: Vec<char>) -> (e: LineEditor)
        ensures
            e.wf(),
            e@.text == text@,
            e@.cursor == text@.len(),
    {
        let cursor = text.len();
        LineEditor { text, cursor }
    }

    /// The characters of the line.
    pub fn chars(&self) -> (v: &Vec<char>)
        ensures
            v@ == self@.text,
    {
        &self.text
    }

    /// The line as a string.
    pub fn text_string(&self) -> (s: String)
        requires
            self.wf(),
        ensures
            s@ == self@.text,
    {
        chars_to_string(&self.text)
    }

    /// Apply one key to the line.  Returns whether the key was an editing
    /// key and so is consumed.
    pub fn input(&mut self, key: KeyInput) -> (consumed: bool)
        requires
            old(self).wf(),
        ensures
            final(self).wf(),
            final(self)@ == spec_edit(old(self)@, key),
            consumed == is_edit_key(key),
    {
        match key {
            KeyInput::Char(c) => {
                self.text.insert(self.cursor, c);
                let n = self.text.len();
                assert(self.cursor < n);
                self.cursor = self.cursor + 1;
                true
            },
            KeyInput::Backspace => {
                if self.cursor > 0 {
                    self.text.remove(self.cursor - 1);
                    self.cursor = self.cursor - 1;
                }
                true
            },
            KeyInput::Delete => {
                if self.cursor < self.text.len() {
                    self.text.remove(self.cursor);
                }
                true
            },
            KeyInput::Left => {
                if self.cursor > 0 {
                    self.cursor = self.cursor - 1;
                }
                true
            },
            KeyInput::Right => {
                if self.cursor < self.text.len() {
                    self.cursor = self.cursor + 1;
                }
                true
            },
            KeyInput::Tab => true,
            _ => false,
        }
    }
}

impl Clone for LineEditor {
    fn clone(&self) -> (res: Self)
        ensures
            res@ == self@,
    {
        LineEditor { text: clone_chars(&self.text), cursor: self.cursor }
    }
}

/// Copy a character vector.
fn clone_chars(v: &Vec<char>) -> (r: Vec<char>)
    ensures
        r@ == v@,
{
    let mut r: Vec<char> = Vec::new();
    let mut i: usize = 0;
    while i < v.len()
        invariant
            i <= v@.len(),
            r@ == v@.subrange(0, i as int),
        decreases v@.len() - i,
    {
        r.push(v[i]);
        assert(r@ =~= v@.subrange(0, i + 1));
        i = i + 1;
    }
    assert(r@ =~= v@);
    r
}

/// Collect the characters of a string slice into a vector.
pub fn str_to_chars(s: &str) -> (v: Vec<char>)
    ensures
        v@ == s@,
{
    let n = s.unicode_len();
    let mut v: Vec<char> = Vec::new();
    let mut i: usize = 0;
    while i < n
        invariant
            n == s@.len(),
            i <= n,
            v@ == s@.subrange(0, i as int),
        decreases n - i,
    {
        v.push(s.get_char(i));
        assert(v@ =~= s@.subrange(0, i + 1));
        i = i + 1;
    }
    assert(v@ =~= s@);
    v
}

/// Build a string from a vector of characters.
pub fn chars_to_string(v: &Vec<char>) -> (s: String)
    ensures
        s@ == v@,
{
    let mut s = String::new();
    let mut i: usize = 0;
    while i < v.len()
        invariant
            i <= v@.len(),
            s@ == v@.subrange(0, i as int),
        decreases v@.len() - i,
    {
        s.push(v[i]);
        assert(s@ =~= v@.subrange(0, i + 1));
        i = i + 1;
    }
    assert(s@ =~= v@);
    s
}

} // verus!
