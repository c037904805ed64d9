//! The Add Target modal: a titled popup holding one line of free text.

use vstd::prelude::*;

use crate::editor::{chars_to_string, str_to_chars, spec_edit, EditorView, LineEditor};

verus! {

/// A rectangle of terminal cells.
#[derive(Debug, Clone, Copy, PartialEq, Eq, Structural)]
pub struct Rect {
    pub x: u16,
    pub y: u16,
    pub width: u16,
    pub height: u16,
}

/// The abstract state of a popup: its title and its input line.
pub ghost struct PopupView {
    pub title: Seq<char>,
    pub edit: EditorView,
}

/// The modal dialog of the Add Target flow.
#[derive(Debug)]
pub struct Popup {
    title: String,
    editor: LineEditor,
}

impl View for Popup {
    type V = PopupView;

    closed spec fn view(&self) -> PopupView {
        PopupView { title: self.title@, edit: self.editor@ }
    }
}

impl Clone for Popup {
    fn clone(&self) -> (res: Self)
        ensures
            res@ == self@,
    {
        Popup { title: self.title.clone(), editor: self.editor.clone() }
    }
}

impl Popup {
    /// The structural invariant: the input line is well formed.
    pub open spec fn wf(&self) -> bool {
        0 <= self@.edit.cursor <= self@.edit.text.len()
    }

    /// A popup with the given title, its input line holding the initial
    /// content with the cursor at the end.
    pub fn new(title: String, initial_content: Option<String>) -> (p: Popup)
        ensures
            p.wf(),
            p@.title == title@,
            p@.edit.text == match initial_content {
                Some(s) => s@,
                None => Seq::<char>::empty(),
            },
            p@.edit.cursor == p@.edit.text.len(),
    {
        let editor = match initial_content {
            Some(s) => LineEditor::from_chars(str_to_chars(s.as_str())),
            None => LineEditor::new(),
        };
        Popup { title, editor }
    }

    /// Mutable access to the input line, as the key router needs it.
    pub fn textarea_mut(&mut self) -> (e: &mut LineEditor)
        ensures
            *e == old(self).editor_field(),
            final(self)@.title == old(self)@.title,
            final(self)@.edit == final(e)@,
    {
        &mut self.editor
    }

    /// The editor field, for relating `textarea_mut` to the whole popup.
    pub closed spec fn editor_field(&self) -> LineEditor {
        self.editor
    }

    /// Replace the title, keeping the input line.
    pub fn set_title(&mut self, title: String)
        ensures
            final(self)@.title == title@,
            final(self)@.edit == old(self)@.edit,
    {
        self.title = title;
    }

    /// The text the operator entered, as lines; the input is one line.
    pub fn get_input_text(&self) -> (lines: Vec<String>)
        requires
            self.wf(),
        ensures
            lines@.len() == 1,
            lines@[0]@ == self@.edit.text,
    {
        let mut lines: Vec<String> = Vec::new();
        lines.push(self.editor.text_string());
        lines
    }

    /// The title, for rendering.
    pub fn title_str(&self) -> (t: &String)
        ensures
            t@ == self@.title,
    {
        &self.title
    }

    /// The input line as one string, for rendering.
    pub fn input_line(&self) -> (s: String)
        requires
            self.wf(),
        ensures
            s@ == self@.edit.text,
    {
        chars_to_string(self.editor.chars())
    }

    /// Apply one key to the input line; returns whether it was consumed
    /// as an editing key.
    pub fn input(&mut self, key: crate::keys::KeyInput) -> (consumed: bool)
        requires
            old(self).wf(),
        ensures
            final(self).wf(),
            final(self)@.title == old(self)@.title,
            final(self)@.edit == spec_edit(old(self)@.edit, key),
            consumed == crate::editor::is_edit_key(key),
    {
        self.editor.input(key)
    }

    /// A rectangle of the given percentage size, centered inside `r`.
    /// Rounds down: each side is `percent` of the corresponding side,
    /// divided by 100.
    pub fn centered_rect(percent_x: u16, percent_y: u16, r: Rect) -> (c: Rect)
        requires
            percent_x <= 100,
            percent_y <= 100,
            r.x + r.width <= u16::MAX,
            r.y + r.height <= u16::MAX,
        ensures
            c.width == r.width * percent_x / 100,
            c.height == r.height * percent_y / 100,
            c.x == r.x + (r.width - c.width) / 2,
            c.y == r.y + (r.height - c.height) / 2,
    {
        assert((r.width as int) * (percent_x as int) <= 65535 * 100)
            by (nonlinear_arith)
            requires
                percent_x <= 100,
                r.width <= 65535,
        ;
        assert((r.height as int) * (percent_y as int) <= 65535 * 100)
            by (nonlinear_arith)
            requires
                percent_y <= 100,
                r.height <= 65535,
        ;
        let w32: u32 = (r.width as u32) * (percent_x as u32) / 100;
        let h32: u32 = (r.height as u32) * (percent_y as u32) / 100;
        assert((r.width as int) * (percent_x as int) / 100 <= r.width)
            by (nonlinear_arith)
            requires
                percent_x <= 100,
        ;
        assert((r.height as int) * (percent_y as int) / 100 <= r.height)
            by (nonlinear_arith)
            requires
                percent_y <= 100,
        ;
        let w: u16 = w32 as u16;
        let h: u16 = h32 as u16;
        Rect {
            x: r.x + (r.width - w) / 2,
            y: r.y + (r.height - h) / 2,
            width: w,
            height: h,
        }
    }
}

} // verus!
