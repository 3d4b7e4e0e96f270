use kiwi::editor::{EditorMode, EditorRequest, LevelEditor, PaintMode, invert_color, letter_to_paintmode};
use kiwi::input::{Event, KeyCode, MouseEvent, MouseEventKind, MOD_CONTROL, MOD_NONE, MOD_SHIFT};
use kiwi::level::{Cell, CellColor, Level, Trigger};
use kiwi::ui::{UiContext, UiEvent, UiEventType};
use kiwi::vecmath::{Rectangle, V2};

const SIZE: (u16, u16) = (80, 24);

fn editor() -> LevelEditor {
    let mut ui = UiContext::create().unwrap();
    LevelEditor::new(&mut ui)
}

fn press(ed: &mut LevelEditor, code: KeyCode) -> Option<UiEvent> {
    ed.input_sized(&Event::plain(code), SIZE)
}

fn is_changed(r: &Option<UiEvent>) -> bool {
    matches!(r, Some(UiEvent { e: UiEventType::Changed, .. }))
}

#[test]
fn new_editor_defaults() {
    let ed = editor();
    assert_eq!(ed.level.width, 250);
    assert_eq!(ed.level.height, 250);
    assert_eq!(ed.mode, EditorMode::View);
    assert_eq!(ed.paint_mode, PaintMode::WhiteBackgroundNormal);
    assert_eq!(ed.level.get(V2::make(100, 100)), Cell::make_empty());
    assert!(ed.path.is_none());
    assert!(ed.need_refresh());
}

#[test]
fn paint_background_at_start_point() {
    let mut ed = editor();
    let mut l = Level::new(5, 5);
    l.p0 = V2::make(2, 2);
    ed.level = l;
    let p0 = ed.level.p0;
    press(&mut ed, KeyCode::Right);
    press(&mut ed, KeyCode::Right);
    press(&mut ed, KeyCode::Down);
    press(&mut ed, KeyCode::Down);
    assert_eq!(ed.cursor_pos, p0);
    assert!(is_changed(&press(&mut ed, KeyCode::F(5))));
    assert_eq!(ed.mode, EditorMode::Paint);
    press(&mut ed, KeyCode::Char('n'));
    assert_eq!(ed.paint_mode, PaintMode::BackgroundGray);
    press(&mut ed, KeyCode::Char(' '));
    let c = ed.level.get(p0);
    assert_eq!(c.background, CellColor::LightGray);
    assert_eq!(c.foreground, CellColor::White);
    assert_eq!(ed.level.get(V2::make(1, 2)), Cell::make_empty());
}

#[test]
fn paint_modes() {
    assert_eq!(letter_to_paintmode('z'), PaintMode::WhiteBackgroundNormal);
    assert_eq!(letter_to_paintmode('x'), PaintMode::BlackBackgroundNormal);
    assert_eq!(letter_to_paintmode('c'), PaintMode::Invert);
    assert_eq!(letter_to_paintmode('v'), PaintMode::TextLightGray);
    assert_eq!(letter_to_paintmode('b'), PaintMode::TextDarkGray);
    assert_eq!(letter_to_paintmode('n'), PaintMode::BackgroundGray);
    assert_eq!(letter_to_paintmode('m'), PaintMode::BackgroundDarkGray);
    assert_eq!(letter_to_paintmode('q'), PaintMode::WhiteBackgroundNormal);
    assert_eq!(invert_color(CellColor::Black), CellColor::White);
    assert_eq!(invert_color(CellColor::White), CellColor::Black);
    assert_eq!(invert_color(CellColor::LightGray), CellColor::LightGray);
    assert_eq!(invert_color(CellColor::DarkGray), CellColor::DarkGray);
}

#[test]
fn paint_while_moving_and_invert() {
    let mut ed = editor();
    press(&mut ed, KeyCode::F(5));
    press(&mut ed, KeyCode::Char('c'));
    press(&mut ed, KeyCode::Char('d'));
    assert_eq!(ed.cursor_pos, V2::make(1, 0));
    let c = ed.level.get(V2::make(1, 0));
    assert_eq!(c.background, CellColor::White);
    assert_eq!(c.foreground, CellColor::Black);
    press(&mut ed, KeyCode::Char('z'));
    press(&mut ed, KeyCode::Char('s'));
    let c = ed.level.get(V2::make(1, 1));
    assert_eq!(c.background, CellColor::White);
    assert_eq!(c.foreground, CellColor::Black);
    press(&mut ed, KeyCode::Char('v'));
    press(&mut ed, KeyCode::Char(' '));
    assert_eq!(ed.level.get(V2::make(1, 1)).foreground, CellColor::LightGray);
    assert_eq!(ed.level.get(V2::make(1, 1)).background, CellColor::White);
    press(&mut ed, KeyCode::Esc);
    assert_eq!(ed.mode, EditorMode::View);
}

#[test]
fn write_text_and_wrap() {
    let mut ed = editor();
    ed.cursor_pos = V2::make(3, 4);
    press(&mut ed, KeyCode::F(3));
    assert_eq!(ed.mode, EditorMode::WriteText);
    press(&mut ed, KeyCode::Char('h'));
    ed.input_sized(&Event::key(KeyCode::Char('I'), MOD_SHIFT), SIZE);
    assert_eq!(ed.level.get(V2::make(3, 4)).letter, 'h');
    assert_eq!(ed.level.get(V2::make(4, 4)).letter, 'I');
    assert_eq!(ed.cursor_pos, V2::make(5, 4));
    press(&mut ed, KeyCode::Enter);
    assert_eq!(ed.cursor_pos, V2::make(3, 5));
    press(&mut ed, KeyCode::Char('w'));
    assert_eq!(ed.level.get(V2::make(3, 5)).letter, 'w');
    press(&mut ed, KeyCode::Backspace);
    assert_eq!(ed.cursor_pos, V2::make(3, 5));
    assert_eq!(ed.level.get(V2::make(3, 5)).letter, '\0');
    assert_eq!(ed.level.get(V2::make(3, 5)).background, CellColor::Black);
    ed.input_sized(&Event::key(KeyCode::Char('h'), MOD_CONTROL), SIZE);
    assert_eq!(ed.cursor_pos, V2::make(2, 5));
    press(&mut ed, KeyCode::Char('\u{7}'));
    assert_eq!(ed.level.get(V2::make(2, 5)).letter, '\0');
    press(&mut ed, KeyCode::Esc);
    assert_eq!(ed.mode, EditorMode::View);
}

#[test]
fn markers_and_triggers() {
    let mut ed = editor();
    ed.cursor_pos = V2::make(7, 8);
    press(&mut ed, KeyCode::F(6));
    assert_eq!(ed.mode, EditorMode::SetMarkers);
    press(&mut ed, KeyCode::Char('z'));
    assert_eq!(ed.level.p0, V2::make(7, 8));
    press(&mut ed, KeyCode::Char('x'));
    assert_eq!(ed.level.triggers.len(), 1);
    assert_eq!(ed.level.triggers[0].id, "exit1");
    press(&mut ed, KeyCode::Char('v'));
    assert_eq!(ed.level.triggers.len(), 1);
    assert_eq!(ed.level.triggers[0].id, "exit0");
    assert_eq!(ed.level.triggers[0].pos, V2::make(7, 8));
    ed.level.triggers.insert(0, Trigger { pos: V2::make(1, 1), id: "exit2".to_string() });
    press(&mut ed, KeyCode::Char('c'));
    assert_eq!(ed.level.triggers.len(), 2);
    assert_eq!(ed.level.triggers[0].pos, V2::make(1, 1));
    assert_eq!(ed.level.triggers[1].id, "exit2");
    press(&mut ed, KeyCode::Backspace);
    assert_eq!(ed.level.triggers.len(), 1);
    assert_eq!(ed.level.triggers[0].pos, V2::make(1, 1));
}

#[test]
fn select_copy_move_fill() {
    let mut ed = editor();
    let a = Cell { letter: 'a', background: CellColor::White, foreground: CellColor::Black };
    ed.level.set(V2::make(1, 1), a);
    ed.level.set(V2::make(2, 2), Cell { letter: 'b', ..a });
    ed.cursor_pos = V2::make(1, 1);
    press(&mut ed, KeyCode::Char('m'));
    assert!(ed.selecting_rect);
    ed.cursor_pos = V2::make(2, 2);
    ed.update_sized(SIZE);
    assert_eq!(ed.selection_rect.size, V2::make(2, 2));
    press(&mut ed, KeyCode::Enter);
    assert!(!ed.selecting_rect);
    assert_eq!(ed.selection_rect.pos, V2::make(1, 1));
    ed.cursor_pos = V2::make(10, 10);
    press(&mut ed, KeyCode::Char('k'));
    assert_eq!(ed.level.get(V2::make(10, 10)).letter, 'a');
    assert_eq!(ed.level.get(V2::make(11, 11)).letter, 'b');
    assert_eq!(ed.level.get(V2::make(1, 1)).letter, 'a');
    ed.cursor_pos = V2::make(20, 20);
    press(&mut ed, KeyCode::Char('l'));
    assert_eq!(ed.level.get(V2::make(20, 20)).letter, 'a');
    assert_eq!(ed.level.get(V2::make(21, 21)).letter, 'b');
    assert_eq!(ed.level.get(V2::make(1, 1)).letter, ' ');
    assert_eq!(ed.level.get(V2::make(1, 1)).background, CellColor::White);
    ed.level.set(V2::make(1, 1), a);
    press(&mut ed, KeyCode::Char('0'));
    assert_eq!(ed.level.get(V2::make(2, 2)), a);
    assert_eq!(ed.level.get(V2::make(2, 1)), a);
    assert_eq!(ed.level.get(V2::make(3, 3)), Cell::make_empty());
}

#[test]
fn selection_backwards() {
    let mut ed = editor();
    ed.cursor_pos = V2::make(5, 5);
    press(&mut ed, KeyCode::Char('m'));
    ed.cursor_pos = V2::make(3, 4);
    ed.update_sized(SIZE);
    assert_eq!(ed.selection_rect.size, V2::make(-1, 0));
    press(&mut ed, KeyCode::Esc);
    let r: Rectangle = ed.selection_rect;
    assert_eq!(r.pos, V2::make(3, 4));
    assert_eq!(r.size, V2::make(3, 2));
}

#[test]
fn resize_level_to_cursor() {
    let mut ed = editor();
    ed.level.set(V2::make(3, 3), Cell { letter: 'q', ..Cell::make_empty() });
    ed.cursor_pos = V2::make(6, 4);
    ed.input_sized(&Event::key(KeyCode::Char('R'), MOD_SHIFT), SIZE);
    assert_eq!(ed.level.width, 250);
    ed.cursor_pos = V2::make(6, 5);
    ed.input_sized(&Event::key(KeyCode::Char('R'), MOD_SHIFT), SIZE);
    assert_eq!(ed.level.width, 6);
    assert_eq!(ed.level.height, 5);
    assert_eq!(ed.level.get(V2::make(3, 3)).letter, 'q');
    assert!(ed.level.is_valid());
    ed.cursor_pos = V2::make(3, 40);
    ed.input_sized(&Event::key(KeyCode::Char('r'), MOD_SHIFT), SIZE);
    assert_eq!(ed.level.width, 6);
    ed.cursor_pos = V2::make(8, 9);
    press(&mut ed, KeyCode::Char('R'));
    assert_eq!(ed.level.width, 8);
    assert_eq!(ed.level.height, 9);
    assert_eq!(ed.level.get(V2::make(7, 8)), Cell::make_empty());
}

#[test]
fn pan_toggle_and_click() {
    let mut ed = editor();
    assert!(is_changed(&press(&mut ed, KeyCode::Char('d'))));
    assert_eq!(ed.view_corner, V2::make(1, 0));
    press(&mut ed, KeyCode::Char('s'));
    assert_eq!(ed.view_corner, V2::make(1, 1));
    press(&mut ed, KeyCode::Char('t'));
    assert!(!ed.show_triggers);
    let click = Event::Mouse(MouseEvent { kind: MouseEventKind::LeftDown, column: 10, row: 5, modifiers: MOD_NONE });
    assert!(is_changed(&ed.input_sized(&click, SIZE)));
    assert_eq!(ed.cursor_pos, V2::make(11, 6));
}

#[test]
fn cursor_follow_keeps_margin() {
    let mut ed = editor();
    ed.follow_cursor((20, 10));
    assert_eq!(ed.view_corner, V2::make(-2, -2));
    ed.cursor_pos = V2::make(30, 3);
    ed.follow_cursor((20, 10));
    assert_eq!(ed.view_corner, V2::make(13, -2));
}

#[test]
fn test_play_and_back() {
    let mut ed = editor();
    let mut l = Level::new(6, 6);
    l.p0 = V2::make(1, 1);
    l.triggers.push(Trigger { pos: V2::make(2, 1), id: "exit0".to_string() });
    ed.level = l;
    press(&mut ed, KeyCode::F(8));
    assert_eq!(ed.mode, EditorMode::Play);
    assert_eq!(ed.test_runer.pos, V2::make(1, 1));
    press(&mut ed, KeyCode::Char('d'));
    assert_eq!(ed.test_runer.pos, V2::make(2, 1));
    let ev = ed.update_sized(SIZE);
    assert!(is_changed(&ev));
    assert_eq!(ev.unwrap().id, ed.get_id());
    assert_eq!(ed.mode, EditorMode::View);
    ed.cursor_pos = V2::make(4, 4);
    ed.input_sized(&Event::key(KeyCode::F(8), MOD_SHIFT), SIZE);
    assert_eq!(ed.test_runer.pos, V2::make(4, 4));
    press(&mut ed, KeyCode::Esc);
    assert_eq!(ed.mode, EditorMode::View);
}

#[test]
fn save_requests_and_message() {
    let mut ed = editor();
    press(&mut ed, KeyCode::F(9));
    assert_eq!(ed.mode, EditorMode::ErrorMessage);
    let reqs = ed.take_requests();
    assert_eq!(reqs, vec![EditorRequest::LeaveScreen, EditorRequest::Save]);
    assert!(ed.take_requests().is_empty());
    assert_eq!(ed.save_finished(true), "Saved!");
    assert_eq!(ed.save_finished(false), "Failed to save");
    let ev = press(&mut ed, KeyCode::Char('q'));
    assert!(is_changed(&ev));
    assert_eq!(ed.mode, EditorMode::View);
    assert_eq!(ed.take_requests(), vec![EditorRequest::EnterScreen]);
}
