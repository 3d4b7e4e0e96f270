use kiwi::input::{Event, KeyCode, MOD_CONTROL, MOD_NONE};
use kiwi::ui::{is_interrupt, Menu, PollCycle, UiContext, UiEvent, UiEventType, UiResult, POLL_RETRIES};

#[test]
fn ids_are_fresh_and_nonzero() {
    let mut ui = UiContext::create().unwrap();
    let a = ui.next_id();
    let b = ui.next_id();
    assert_eq!(a.value(), 1);
    assert_eq!(b.value(), 2);
    assert_ne!(a, b);
}

#[test]
fn exit_only_on_own_terminal_events() {
    let mut ui = UiContext::create().unwrap();
    let root = ui.next_id();
    let child = ui.next_id();
    assert!(ui.should_exit(root, Some(UiEvent { id: root, e: UiEventType::Done })));
    assert!(ui.should_exit(root, Some(UiEvent { id: root, e: UiEventType::Canceled })));
    assert!(ui.should_exit(root, Some(UiEvent { id: root, e: UiEventType::Result(UiResult::Selected(0)) })));
    assert!(!ui.should_exit(root, Some(UiEvent { id: root, e: UiEventType::Changed })));
    assert!(!ui.should_exit(root, Some(UiEvent { id: root, e: UiEventType::Empty })));
    assert!(!ui.should_exit(root, Some(UiEvent { id: child, e: UiEventType::Done })));
    assert!(!ui.should_exit(root, None));
}

#[test]
fn interrupt_key() {
    assert!(is_interrupt(&Event::key(KeyCode::Char('c'), MOD_CONTROL)));
    assert!(!is_interrupt(&Event::key(KeyCode::Char('c'), MOD_NONE)));
    assert!(!is_interrupt(&Event::Resize(10, 10)));
}

#[test]
fn poll_cycle() {
    let mut c = PollCycle::new();
    c.begin();
    assert_eq!(c.retry, POLL_RETRIES);
    assert!(c.waiting());
    assert!(c.size_seen((80, 24)));
    assert!(!c.waiting());
    c.begin();
    assert!(!c.size_seen((80, 24)));
    assert_eq!(c.retry, POLL_RETRIES - 1);
    c.input_seen();
    assert!(!c.waiting());
}

#[test]
fn menu_navigation() {
    let mut ui = UiContext::create().unwrap();
    let mut m = Menu::new(vec!["a".to_string(), "b".to_string(), "c".to_string()], true, &mut ui);
    assert_eq!(m.get_selected(), 0);
    m.input(&Event::plain(KeyCode::Up));
    assert_eq!(m.get_selected(), 2);
    m.input(&Event::plain(KeyCode::Down));
    assert_eq!(m.get_selected(), 0);
    m.input(&Event::plain(KeyCode::Char('2')));
    assert_eq!(m.get_selected(), 2);
    m.input(&Event::plain(KeyCode::Char('7')));
    assert_eq!(m.get_selected(), 2);
    let r = m.input(&Event::plain(KeyCode::Char('\n')));
    assert!(matches!(r, Some(UiEvent { e: UiEventType::Result(UiResult::Selected(2)), .. })));
    assert_eq!(m.result(), Some(Some(2)));
    let r = m.input(&Event::plain(KeyCode::Esc));
    assert!(matches!(r, Some(UiEvent { e: UiEventType::Canceled, .. })));
    assert_eq!(m.result(), None);
    let mut fixed = Menu::new(vec!["only".to_string()], false, &mut ui);
    assert!(fixed.input(&Event::plain(KeyCode::Esc)).is_none());
    assert!(fixed.need_refresh());
}
