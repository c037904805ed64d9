use upquack::checker::{run_check_step, CheckerStep, ProbeOutcome};
use upquack::domain::{DomainStatus, HttpCode, MonitoredDomain};
use upquack::keys::KeyInput;
use upquack::persist::{PersistError, Persistence};
use upquack::registry::Registry;
use upquack::session::{DomainScreen, DomainScreenMode};
use upquack::shell::{App, AppEvent, Menu};

struct RecordingSink {
    calls: usize,
    last: Vec<MonitoredDomain>,
}

impl RecordingSink {
    fn new() -> Self {
        RecordingSink { calls: 0, last: Vec::new() }
    }
}

impl Persistence for RecordingSink {
    fn persist(&mut self, domains: &Vec<MonitoredDomain>) -> Result<(), PersistError> {
        self.calls += 1;
        self.last = domains.clone();
        Ok(())
    }
}

fn type_text(
    screen: &mut DomainScreen,
    registry: &mut Registry,
    sink: &mut RecordingSink,
    text: &str,
) {
    for c in text.chars() {
        assert!(screen.handle_key_event(registry, sink, KeyInput::Char(c)));
    }
}

fn added_target(url_tail: &str) -> (DomainScreen, Registry, RecordingSink) {
    let mut screen = DomainScreen::new();
    let mut registry = Registry::new();
    let mut sink = RecordingSink::new();
    assert!(screen.handle_key_event(&mut registry, &mut sink, KeyInput::Char('a')));
    assert!(matches!(screen.mode, DomainScreenMode::AddDomain(_)));
    // The modal starts prefilled with "https://".
    type_text(&mut screen, &mut registry, &mut sink, url_tail);
    assert!(screen.handle_key_event(&mut registry, &mut sink, KeyInput::Enter));
    (screen, registry, sink)
}

#[test]
fn add_target_and_record_one_check() {
    let (screen, mut registry, mut sink) = added_target("example.com");
    assert!(matches!(screen.mode, DomainScreenMode::DomainTable));
    assert_eq!(sink.calls, 1);

    let domains = registry.snapshot();
    assert_eq!(domains.len(), 1);
    assert_eq!(domains[0].url, "https://example.com");
    assert_eq!(domains[0].interval_seconds, 60);
    assert!(domains[0].check_history.is_empty());
    let id = domains[0].id;

    let step = run_check_step(
        &mut registry,
        &mut sink,
        id,
        ProbeOutcome::Response(200),
        1_700_000_000_000,
        42,
    );
    assert_eq!(step, CheckerStep::Recorded);
    let domains = registry.snapshot();
    assert_eq!(domains[0].check_history.len(), 1);
    let entry = &domains[0].check_history[0];
    assert_eq!(entry.status, DomainStatus::Up);
    assert_eq!(entry.response_time_ms, Some(42));
    assert_eq!(entry.http_code, Some(HttpCode::Success));
    assert_eq!(sink.calls, 2);
}

#[test]
fn invalid_submission_keeps_the_modal_with_an_error_title() {
    let mut screen = DomainScreen::new();
    let mut registry = Registry::new();
    let mut sink = RecordingSink::new();
    assert!(screen.handle_key_event(&mut registry, &mut sink, KeyInput::Char('a')));
    // Erase the prefilled "https://" and type a rejected candidate.
    for _ in 0.."https://".len() {
        assert!(screen.handle_key_event(&mut registry, &mut sink, KeyInput::Backspace));
    }
    type_text(&mut screen, &mut registry, &mut sink, "ftp://example.com");
    assert!(screen.handle_key_event(&mut registry, &mut sink, KeyInput::Enter));
    match &screen.mode {
        DomainScreenMode::AddDomain(popup) => {
            assert_eq!(popup.title_str(), "Invalid URL! (e.g., http://example.com)");
            assert_eq!(popup.input_line(), "ftp://example.com");
        }
        _ => panic!("the modal must stay open on a rejected submission"),
    }
    assert_eq!(registry.len(), 0);
    assert_eq!(sink.calls, 0);
}

#[test]
fn escape_cancels_the_modal_without_a_new_target() {
    let mut screen = DomainScreen::new();
    let mut registry = Registry::new();
    let mut sink = RecordingSink::new();
    assert!(screen.handle_key_event(&mut registry, &mut sink, KeyInput::Char('a')));
    assert!(screen.handle_key_event(&mut registry, &mut sink, KeyInput::Esc));
    assert!(matches!(screen.mode, DomainScreenMode::DomainTable));
    assert_eq!(registry.len(), 0);
}

#[test]
fn editing_keys_edit_the_line() {
    let mut screen = DomainScreen::new();
    let mut registry = Registry::new();
    let mut sink = RecordingSink::new();
    assert!(screen.handle_key_event(&mut registry, &mut sink, KeyInput::Char('a')));
    type_text(&mut screen, &mut registry, &mut sink, "x.com");
    // Move left over "com" and delete the "x." ahead of it.
    for _ in 0..5 {
        assert!(screen.handle_key_event(&mut registry, &mut sink, KeyInput::Left));
    }
    assert!(screen.handle_key_event(&mut registry, &mut sink, KeyInput::Delete));
    assert!(screen.handle_key_event(&mut registry, &mut sink, KeyInput::Delete));
    match &screen.mode {
        DomainScreenMode::AddDomain(popup) => {
            assert_eq!(popup.input_line(), "https://com");
            assert_eq!(popup.get_input_text(), vec!["https://com".to_string()]);
        }
        _ => panic!("the modal must stay open while editing"),
    }
}

#[test]
fn deleting_the_selected_target_adjusts_the_selection() {
    let mut registry = Registry::new();
    for (id, url) in [(1u128, "http://one.com"), (2, "http://two.com"), (3, "http://three.com")]
    {
        registry
            .insert(MonitoredDomain::new(id, url.to_string(), 60))
            .expect("ids are fresh");
    }
    let mut screen = DomainScreen::new();
    let mut sink = RecordingSink::new();

    // Select the last row and delete it: the selection moves to the new
    // last row.  The first Up selects row 0, the second wraps to the
    // last row.
    assert!(screen.handle_key_event(&mut registry, &mut sink, KeyInput::Up));
    assert_eq!(screen.domain_table_state.table_state.selected, Some(0));
    assert!(screen.handle_key_event(&mut registry, &mut sink, KeyInput::Up));
    assert_eq!(screen.domain_table_state.table_state.selected, Some(2));
    assert!(screen.handle_key_event(&mut registry, &mut sink, KeyInput::Char('d')));
    assert_eq!(registry.len(), 2);
    assert_eq!(screen.domain_table_state.table_state.selected, Some(1));
    assert_eq!(sink.calls, 1);
    assert_eq!(sink.last.len(), 2);
    assert_eq!(sink.last[0].id, 1);
    assert_eq!(sink.last[1].id, 2);

    // Deleting a middle row keeps the same index.
    assert!(screen.handle_key_event(&mut registry, &mut sink, KeyInput::Up));
    assert_eq!(screen.domain_table_state.table_state.selected, Some(0));
    assert!(screen.handle_key_event(&mut registry, &mut sink, KeyInput::Char('d')));
    assert_eq!(registry.len(), 1);
    assert_eq!(screen.domain_table_state.table_state.selected, Some(0));

    // Deleting the only row clears the selection.
    assert!(screen.handle_key_event(&mut registry, &mut sink, KeyInput::Char('d')));
    assert_eq!(registry.len(), 0);
    assert_eq!(screen.domain_table_state.table_state.selected, None);

    // With nothing selected the command is consumed and changes nothing.
    assert!(screen.handle_key_event(&mut registry, &mut sink, KeyInput::Char('d')));
    assert_eq!(registry.len(), 0);
}

#[test]
fn table_navigation_wraps_and_ignores_an_empty_table() {
    let mut registry = Registry::new();
    let mut screen = DomainScreen::new();
    let mut sink = RecordingSink::new();

    // Empty table: navigation keys select nothing.
    assert!(screen.handle_key_event(&mut registry, &mut sink, KeyInput::Down));
    assert_eq!(screen.domain_table_state.table_state.selected, None);
    assert!(screen.handle_key_event(&mut registry, &mut sink, KeyInput::Up));
    assert_eq!(screen.domain_table_state.table_state.selected, None);

    for id in 1..=2u128 {
        registry
            .insert(MonitoredDomain::new(id, "http://one.com".to_string(), 60))
            .expect("ids are fresh");
    }
    assert!(screen.handle_key_event(&mut registry, &mut sink, KeyInput::Down));
    assert_eq!(screen.domain_table_state.table_state.selected, Some(0));
    assert!(screen.handle_key_event(&mut registry, &mut sink, KeyInput::Char('j')));
    assert_eq!(screen.domain_table_state.table_state.selected, Some(1));
    assert!(screen.handle_key_event(&mut registry, &mut sink, KeyInput::Char('j')));
    assert_eq!(screen.domain_table_state.table_state.selected, Some(0));
    assert!(screen.handle_key_event(&mut registry, &mut sink, KeyInput::Char('k')));
    assert_eq!(screen.domain_table_state.table_state.selected, Some(1));
}

#[test]
fn history_view_opens_only_on_a_selection() {
    let mut registry = Registry::new();
    let mut screen = DomainScreen::new();
    let mut sink = RecordingSink::new();
    registry
        .insert(MonitoredDomain::new(1, "http://one.com".to_string(), 60))
        .expect("id is fresh");

    // No selection: the command is consumed but the table stays.
    assert!(screen.handle_key_event(&mut registry, &mut sink, KeyInput::Char('h')));
    assert!(matches!(screen.mode, DomainScreenMode::DomainTable));

    assert!(screen.handle_key_event(&mut registry, &mut sink, KeyInput::Down));
    assert!(screen.handle_key_event(&mut registry, &mut sink, KeyInput::Char('h')));
    assert!(matches!(screen.mode, DomainScreenMode::HistoryTable));
    assert!(screen.handle_key_event(&mut registry, &mut sink, KeyInput::Esc));
    assert!(matches!(screen.mode, DomainScreenMode::DomainTable));
}

#[test]
fn a_q_typed_in_the_modal_is_text_not_quit() {
    let mut app = App::new();
    let mut registry = Registry::new();
    let mut sink = RecordingSink::new();

    // Open the target screen through the event queue.
    assert!(app.handle_key(&mut registry, &mut sink, KeyInput::Char('e')));
    assert_eq!(app.take_event(), Some(AppEvent::SwitchToDomainsScreen));
    assert_eq!(app.take_event(), None);
    app.current_screen = Menu::Domains(DomainScreen::new());

    // Open the modal and type a q: the app must not exit.
    assert!(app.handle_key(&mut registry, &mut sink, KeyInput::Char('a')));
    assert!(app.handle_key(&mut registry, &mut sink, KeyInput::Char('q')));
    assert!(!app.exit);
    match &app.current_screen {
        Menu::Domains(screen) => match &screen.mode {
            DomainScreenMode::AddDomain(popup) => {
                assert_eq!(popup.input_line(), "https://q");
            }
            _ => panic!("the modal must still be open"),
        },
        Menu::Main => panic!("the target screen must still be active"),
    }

    // Close the modal; now q quits through the global tier.
    assert!(app.handle_key(&mut registry, &mut sink, KeyInput::Esc));
    assert!(app.handle_key(&mut registry, &mut sink, KeyInput::Char('q')));
    assert!(app.exit);
}

#[test]
fn escape_returns_from_the_target_screen_to_the_menu() {
    let mut app = App::new();
    let mut registry = Registry::new();
    let mut sink = RecordingSink::new();
    app.current_screen = Menu::Domains(DomainScreen::new());
    assert!(app.handle_key(&mut registry, &mut sink, KeyInput::Esc));
    assert!(matches!(app.current_screen, Menu::Main));
    // On the menu, Esc is not consumed.
    assert!(!app.handle_key(&mut registry, &mut sink, KeyInput::Esc));
    // Opening the target screen again is queued, not immediate.
    assert!(app.handle_key(&mut registry, &mut sink, KeyInput::Char('e')));
    assert_eq!(app.take_event(), Some(AppEvent::SwitchToDomainsScreen));
}

#[test]
fn a_colliding_id_is_rejected_as_a_duplicate() {
    let mut registry = Registry::new();
    registry
        .insert(MonitoredDomain::new(5, "http://one.com".to_string(), 60))
        .expect("id is fresh");
    let err = registry
        .insert(MonitoredDomain::new(5, "http://two.com".to_string(), 60))
        .expect_err("the id is taken");
    assert_eq!(err, upquack::registry::RegistryError::DuplicateId);
    assert_eq!(registry.len(), 1);
}

#[test]
fn corrupted_input_is_rejected_when_loading() {
    let a = MonitoredDomain::new(1, "http://one.com".to_string(), 60);
    let b = MonitoredDomain::new(1, "http://two.com".to_string(), 60);
    let err = Registry::from_domains(vec![a, b]).expect_err("duplicate ids");
    assert_eq!(err, upquack::registry::RegistryError::DuplicateId);

    let mut c = MonitoredDomain::new(2, "http://three.com".to_string(), 60);
    c.interval_seconds = 0;
    let err = Registry::from_domains(vec![c]).expect_err("a zero interval");
    assert_eq!(err, upquack::registry::RegistryError::InvalidInterval);
}
