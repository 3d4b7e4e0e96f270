use kiwi::game::LevelRunner;
use kiwi::input::{Event, KeyCode, MOD_NONE, MOD_SHIFT};
use kiwi::level::{Cell, CellColor, Level, Trigger};
use kiwi::ui::{UiContext, UiEvent, UiEventType, UiResult};
use kiwi::vecmath::V2;

fn glyph(letter: char, background: CellColor, foreground: CellColor) -> Cell {
    Cell { letter, background, foreground }
}

fn runner_on(level: &Level) -> LevelRunner {
    let mut ui = UiContext::create().unwrap();
    LevelRunner::new_with_level(&mut ui, level)
}

fn is_done(r: &Option<UiEvent>) -> bool {
    matches!(r, Some(UiEvent { e: UiEventType::Done, .. }))
}

fn exit_name(r: &Option<UiEvent>) -> Option<String> {
    match r {
        Some(UiEvent { e: UiEventType::Result(UiResult::Exit(s)), .. }) => Some(s.clone()),
        _ => None,
    }
}

#[test]
fn new_runner_defaults() {
    let mut ui = UiContext::create().unwrap();
    let r = LevelRunner::new(&mut ui);
    assert_eq!(r.level.width, 10);
    assert_eq!(r.level.height, 10);
    assert_eq!(r.pos, V2::make(2, 2));
    assert!(r.need_refresh());
    let r2 = LevelRunner::new(&mut ui);
    assert_ne!(r.get_id(), r2.get_id());
}

#[test]
fn walk_onto_empty_cell() {
    let mut l = Level::new(5, 5);
    l.p0 = V2::make(1, 1);
    let mut r = runner_on(&l);
    assert_eq!(r.pos, V2::make(1, 1));
    r.walk(V2::make(1, 0));
    assert_eq!(r.pos, V2::make(2, 1));
    r.walk(V2::make(0, -1));
    assert_eq!(r.pos, V2::make(2, 0));
    r.walk(V2::make(0, -1));
    assert_eq!(r.pos, V2::make(2, 0));
}

#[test]
fn push_moves_glyph() {
    let mut l = Level::new(5, 5);
    l.p0 = V2::make(1, 2);
    l.set(V2::make(2, 2), glyph('#', CellColor::Black, CellColor::White));
    let mut r = runner_on(&l);
    r.walk(V2::make(1, 0));
    assert_eq!(r.pos, V2::make(2, 2));
    assert_eq!(r.level.get(V2::make(3, 2)).letter, '#');
    assert!(r.level.get(V2::make(2, 2)).empty());
    assert_eq!(r.level.get(V2::make(3, 2)).background, CellColor::Black);
}

#[test]
fn push_blocked_at_edge() {
    let mut l = Level::new(5, 5);
    l.p0 = V2::make(3, 2);
    l.set(V2::make(4, 2), glyph('#', CellColor::Black, CellColor::White));
    let mut r = runner_on(&l);
    r.walk(V2::make(1, 0));
    assert_eq!(r.pos, V2::make(3, 2));
    for y in 0..5 {
        for x in 0..5 {
            assert_eq!(r.level.get(V2::make(x, y)), l.get(V2::make(x, y)));
        }
    }
}

#[test]
fn push_blocked_by_glyph() {
    let mut l = Level::new(6, 3);
    l.p0 = V2::make(0, 1);
    l.set(V2::make(1, 1), glyph('#', CellColor::Black, CellColor::White));
    l.set(V2::make(2, 1), glyph('%', CellColor::Black, CellColor::White));
    let mut r = runner_on(&l);
    r.walk(V2::make(1, 0));
    assert_eq!(r.pos, V2::make(0, 1));
    assert_eq!(r.level.get(V2::make(1, 1)).letter, '#');
    assert_eq!(r.level.get(V2::make(2, 1)).letter, '%');
}

#[test]
fn equal_glyphs_cancel() {
    let mut l = Level::new(6, 3);
    l.p0 = V2::make(0, 1);
    l.set(V2::make(1, 1), glyph('o', CellColor::Black, CellColor::White));
    l.set(V2::make(2, 1), glyph('o', CellColor::White, CellColor::Black));
    let mut r = runner_on(&l);
    r.walk(V2::make(1, 0));
    assert_eq!(r.pos, V2::make(1, 1));
    assert!(r.level.get(V2::make(1, 1)).empty());
    assert!(r.level.get(V2::make(2, 1)).empty());
    assert_eq!(r.level.get(V2::make(2, 1)).background, CellColor::White);
}

#[test]
fn light_gray_glyph_is_walkable() {
    let mut l = Level::new(5, 3);
    l.p0 = V2::make(0, 1);
    l.set(V2::make(1, 1), glyph('.', CellColor::Black, CellColor::LightGray));
    let mut r = runner_on(&l);
    r.walk(V2::make(1, 0));
    assert_eq!(r.pos, V2::make(1, 1));
    assert_eq!(r.level.get(V2::make(1, 1)).letter, '.');
}

#[test]
fn other_background_blocks() {
    let mut l = Level::new(5, 3);
    l.p0 = V2::make(0, 1);
    l.set(V2::make(1, 1), glyph('\0', CellColor::White, CellColor::Black));
    let mut r = runner_on(&l);
    r.walk(V2::make(1, 0));
    assert_eq!(r.pos, V2::make(0, 1));
}

#[test]
fn swap_with_actor_glyph() {
    let mut l = Level::new(5, 3);
    l.p0 = V2::make(0, 1);
    l.set(V2::make(1, 1), glyph('@', CellColor::White, CellColor::Black));
    let mut r = runner_on(&l);
    r.walk(V2::make(1, 0));
    assert_eq!(r.pos, V2::make(1, 1));
    assert_eq!(r.level.get(V2::make(1, 1)).letter, ' ');
    assert_eq!(r.level.get(V2::make(0, 1)).letter, '@');
}

#[test]
fn restart_restores_level() {
    let mut l = Level::new(5, 5);
    l.p0 = V2::make(1, 2);
    l.set(V2::make(2, 2), glyph('#', CellColor::Black, CellColor::White));
    let mut r = runner_on(&l);
    r.walk(V2::make(1, 0));
    assert_eq!(r.level.get(V2::make(3, 2)).letter, '#');
    let ev = r.input(&Event::plain(KeyCode::Char('r')));
    assert!(matches!(ev, Some(UiEvent { e: UiEventType::Changed, .. })));
    assert_eq!(r.pos, V2::make(1, 2));
    assert_eq!(r.level.get(V2::make(2, 2)).letter, '#');
    assert!(r.level.get(V2::make(3, 2)).empty());
}

#[test]
fn keys_walk_the_actor() {
    let mut l = Level::new(5, 5);
    l.p0 = V2::make(2, 2);
    let mut r = runner_on(&l);
    let id = r.get_id();
    let ev = r.input_sized(&Event::plain(KeyCode::Char('d')), (80, 24));
    assert!(matches!(ev, Some(UiEvent { e: UiEventType::Changed, id: i }) if i == id));
    assert_eq!(r.pos, V2::make(3, 2));
    r.input_sized(&Event::plain(KeyCode::Up), (80, 24));
    assert_eq!(r.pos, V2::make(3, 1));
    r.input_sized(&Event::plain(KeyCode::Char('a')), (80, 24));
    assert_eq!(r.pos, V2::make(2, 1));
    r.input_sized(&Event::plain(KeyCode::Down), (80, 24));
    assert_eq!(r.pos, V2::make(2, 2));
    let none = r.input_sized(&Event::key(KeyCode::Char('d'), MOD_SHIFT), (80, 24));
    assert!(none.is_none());
    assert_eq!(r.pos, V2::make(2, 2));
    let none = r.input_sized(&Event::plain(KeyCode::Char('q')), (80, 24));
    assert!(none.is_none());
    assert_eq!(MOD_NONE, 0);
}

#[test]
fn terminal_trigger_ends_level() {
    let mut l = Level::new(5, 5);
    l.p0 = V2::make(2, 2);
    l.triggers.push(Trigger { pos: V2::make(2, 2), id: "exit0".to_string() });
    let mut r = runner_on(&l);
    let ev = r.update();
    assert!(is_done(&ev));
    assert_eq!(ev.unwrap().id, r.get_id());
}

#[test]
fn branch_trigger_reports_its_name() {
    for name in ["exit1", "exit2"] {
        let mut l = Level::new(5, 5);
        l.p0 = V2::make(2, 2);
        l.triggers.push(Trigger { pos: V2::make(2, 2), id: name.to_string() });
        let mut r = runner_on(&l);
        let ev = r.update_sized((80, 24));
        assert_eq!(exit_name(&ev), Some(name.to_string()));
        assert!(!is_done(&ev));
    }
}

#[test]
fn no_trigger_no_exit() {
    let mut l = Level::new(5, 5);
    l.p0 = V2::make(2, 2);
    l.triggers.push(Trigger { pos: V2::make(3, 3), id: "exit0".to_string() });
    l.triggers.push(Trigger { pos: V2::make(2, 2), id: "note".to_string() });
    let mut r = runner_on(&l);
    let ev = r.update();
    assert!(!is_done(&ev));
    assert_eq!(exit_name(&ev), None);
    let ev = r.update_sized((80, 24));
    assert!(ev.is_none());
}

#[test]
fn trigger_lookup_finds_first() {
    let mut l = Level::new(5, 5);
    l.triggers.push(Trigger { pos: V2::make(1, 1), id: "a".to_string() });
    l.triggers.push(Trigger { pos: V2::make(2, 2), id: "b".to_string() });
    l.triggers.push(Trigger { pos: V2::make(2, 2), id: "c".to_string() });
    let r = runner_on(&l);
    assert_eq!(r.get_trigger_here(V2::make(2, 2)), Some(1));
    assert_eq!(r.get_trigger_here(V2::make(0, 0)), None);
}

#[test]
fn viewport_follows_actor() {
    let mut l = Level::new(40, 40);
    l.p0 = V2::make(14, 7);
    let mut r = runner_on(&l);
    // the inner band of a 20 by 20 view at the origin spans columns and rows 5 to 14
    assert!(!r.follow_actor((20, 20)));
    assert_eq!(r.view_corner, V2::make(0, 0));
    r.walk(V2::make(1, 0));
    assert_eq!(r.pos, V2::make(15, 7));
    assert!(r.follow_actor((20, 20)));
    assert_eq!(r.view_corner, V2::make(1, 0));
    let c = r.view_corner;
    assert!(r.pos.x >= c.x + 5 && r.pos.x <= c.x + 20 - 5 - 1);
    assert!(r.pos.y >= c.y + 5 && r.pos.y <= c.y + 20 - 5 - 1);
}

#[test]
fn viewport_follows_left() {
    let mut l = Level::new(40, 40);
    l.p0 = V2::make(10, 10);
    let mut r = runner_on(&l);
    r.view_corner = V2::make(8, 8);
    let ev = r.update_sized((20, 20));
    assert!(matches!(ev, Some(UiEvent { e: UiEventType::Changed, .. })));
    assert_eq!(r.view_corner, V2::make(5, 5));
    assert!(r.need_refresh);
    assert!(r.update_sized((20, 20)).is_none());
}
