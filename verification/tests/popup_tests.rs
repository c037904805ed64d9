use upquack::editor::LineEditor;
use upquack::keys::KeyInput;
use upquack::popup::{Popup, Rect};

#[test]
fn a_new_popup_carries_its_title_and_initial_content() {
    let p = Popup::new("Add New Domain".to_string(), Some("https://".to_string()));
    assert_eq!(p.title_str(), "Add New Domain");
    assert_eq!(p.get_input_text(), vec!["https://".to_string()]);

    let empty = Popup::new("T".to_string(), None);
    assert_eq!(empty.get_input_text(), vec![String::new()]);
}

#[test]
fn set_title_replaces_the_title_and_keeps_the_text() {
    let mut p = Popup::new("Before".to_string(), Some("content".to_string()));
    p.set_title("After".to_string());
    assert_eq!(p.title_str(), "After");
    assert_eq!(p.input_line(), "content");
}

#[test]
fn the_editor_inserts_at_the_cursor() {
    let mut e = LineEditor::new();
    for c in "ac".chars() {
        e.input(KeyInput::Char(c));
    }
    e.input(KeyInput::Left);
    e.input(KeyInput::Char('b'));
    let mut s = String::new();
    for c in e.chars() {
        s.push(*c);
    }
    assert_eq!(s, "abc");
    // Backspace removes the character before the cursor.
    e.input(KeyInput::Backspace);
    assert_eq!(e.text_string(), "ac");
    // A non-editing key is not consumed and changes nothing.
    assert!(!e.input(KeyInput::Up));
    assert_eq!(e.text_string(), "ac");
}

#[test]
fn a_cloned_popup_carries_the_same_content() {
    let mut p = Popup::new("Add New Domain".to_string(), Some("https://x".to_string()));
    let q = p.clone();
    p.set_title("changed".to_string());
    assert_eq!(q.title_str(), "Add New Domain");
    assert_eq!(q.input_line(), "https://x");
}

#[test]
fn centered_rect_centers_by_percentage() {
    let r = Rect { x: 0, y: 0, width: 100, height: 50 };
    let c = Popup::centered_rect(60, 20, r);
    assert_eq!(c, Rect { x: 20, y: 20, width: 60, height: 10 });

    let shifted = Rect { x: 10, y: 5, width: 40, height: 20 };
    let c = Popup::centered_rect(50, 50, shifted);
    assert_eq!(c, Rect { x: 20, y: 10, width: 20, height: 10 });

    // 0% of anything is an empty rectangle in the middle.
    let c = Popup::centered_rect(0, 0, r);
    assert_eq!(c, Rect { x: 50, y: 25, width: 0, height: 0 });
}
