use kiwi::game::MultiLevelRunner;
use kiwi::input::{Event, KeyCode, MOD_CONTROL};
use kiwi::level::{Level, LevelList, Trigger};
use kiwi::ui::{UiContext, UiEvent, UiEventType};
use kiwi::vecmath::V2;

const SIZE: (u16, u16) = (80, 24);

fn level_with_exit(name: &str) -> Level {
    let mut l = Level::new(5, 5);
    l.p0 = V2::make(1, 1);
    l.triggers.push(Trigger { pos: V2::make(1, 1), id: name.to_string() });
    l
}

fn sequencer(files: &[&str]) -> MultiLevelRunner {
    let mut ui = UiContext::create().unwrap();
    MultiLevelRunner::new(&mut ui, LevelList { files: files.iter().map(|f| f.to_string()).collect() })
}

#[test]
fn two_levels_then_farewell() {
    let mut m = sequencer(&["levels/l1", "levels/l2"]);
    assert!(m.running());
    m.start_next_level();
    assert_eq!(m.take_pending_load(), Some("levels/l1".to_string()));
    assert_eq!(m.take_pending_load(), None);
    m.finish_load(Ok(level_with_exit("exit0")));
    assert_eq!(m.level_runner.pos, V2::make(1, 1));
    let ev = m.update_sized(SIZE);
    assert!(matches!(ev, Some(UiEvent { e: UiEventType::Changed, .. })));
    assert_eq!(m.current_level, 1);
    assert!(m.running());
    assert_eq!(m.take_pending_load(), Some("levels/l2".to_string()));
    m.finish_load(Ok(level_with_exit("exit0")));
    m.update();
    assert_eq!(m.current_level, 2);
    assert!(!m.running());
    assert!(m.take_pending_load().is_none());
    assert!(m.need_refresh());
    assert_eq!(m.take_message(), Some("Thank you for playing the game".to_string()));
    assert_eq!(m.can_exit, 1);
    assert_eq!(m.take_message(), None);
    assert!(m.update_sized(SIZE).is_some_and(|e| matches!(e.e, UiEventType::Done)));
}

#[test]
fn branch_exit_advances() {
    let mut m = sequencer(&["a", "b", "c"]);
    m.start_next_level();
    m.take_pending_load();
    m.finish_load(Ok(level_with_exit("exit2")));
    m.update_sized(SIZE);
    assert_eq!(m.current_level, 1);
    assert_eq!(m.take_pending_load(), Some("b".to_string()));
}

#[test]
fn load_failure_ends_sequence() {
    let mut m = sequencer(&["a", "b"]);
    m.start_next_level();
    m.take_pending_load();
    m.finish_load(Err("Failed to load level 'a': bad".to_string()));
    assert!(!m.running());
    assert_eq!(m.current_level, 2);
    assert_eq!(m.message, "Failed to load level 'a': bad");

    let mut m = sequencer(&["a"]);
    m.start_next_level();
    m.finish_load(Err(String::new()));
    assert!(!m.running());
    assert_eq!(m.message, "Failed to load level");

    let mut m = sequencer(&["a"]);
    m.start_next_level();
    let mut broken = Level::new(3, 3);
    broken.width = 9;
    m.finish_load(Ok(broken));
    assert!(!m.running());
    assert_eq!(m.message, "Failed to load level");
}

#[test]
fn key_after_message_then_exit() {
    let mut m = sequencer(&[]);
    assert!(!m.running());
    m.start_next_level();
    let ev = m.take_message();
    assert!(ev.is_some());
    let ev = m.input_sized(&Event::plain(KeyCode::Char('x')), SIZE);
    assert!(matches!(ev, Some(UiEvent { e: UiEventType::Changed, .. })));
    assert_eq!(m.can_exit, 1);
    assert!(m.input_sized(&Event::key(KeyCode::Char('x'), MOD_CONTROL), SIZE).is_none());
    m.message = "pending".to_string();
    assert!(m.update_sized(SIZE).is_none());
    assert_eq!(m.can_exit, 2);
    let ev = m.update_sized(SIZE);
    assert!(matches!(ev, Some(UiEvent { e: UiEventType::Done, .. })));
    assert_eq!(ev.unwrap().id, m.get_id());
}

#[test]
fn playing_keys_reach_the_level() {
    let mut m = sequencer(&["a"]);
    m.start_next_level();
    m.take_pending_load();
    let mut l = Level::new(5, 5);
    l.p0 = V2::make(1, 1);
    m.finish_load(Ok(l));
    let ev = m.input_sized(&Event::plain(KeyCode::Right), SIZE);
    assert!(matches!(ev, Some(UiEvent { e: UiEventType::Changed, .. })));
    assert_eq!(ev.unwrap().id, m.get_id());
    assert_eq!(m.level_runner.pos, V2::make(2, 1));
    assert!(m.input_sized(&Event::plain(KeyCode::Char('q')), SIZE).is_none());
}
