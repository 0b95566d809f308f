use modal_editor::editor::{Editor, Effect};
use modal_editor::input::{Action, InputEvent, KeyCode, KeyKind, Mode};
use modal_editor::status::{push_decimal, LEFT_GLYPH, RIGHT_GLYPH};

fn release(code: KeyCode) -> InputEvent {
    InputEvent::Key { code, kind: KeyKind::Release }
}

fn press(code: KeyCode) -> InputEvent {
    InputEvent::Key { code, kind: KeyKind::Press }
}

fn at(cx: usize, cy: usize, mode: Mode) -> Editor {
    Editor { size: (80, 24), cx, cy, mode }
}

#[test]
fn new_editor_starts_normal_at_origin() {
    let e = Editor::new(80, 24);
    assert_eq!(e.size, (80, 24));
    assert_eq!((e.cx, e.cy), (0, 0));
    assert_eq!(e.mode, Mode::Normal);
}

#[test]
fn q_quits_in_normal_mode_whatever_the_cursor() {
    for (cx, cy) in [(0, 0), (7, 3), (1000, 2)] {
        let mut e = at(cx, cy, Mode::Normal);
        assert_eq!(e.handle_event(release(KeyCode::Char('q'))), Some(Action::Quit));
        assert_eq!(e.step(release(KeyCode::Char('q'))), Effect::Quit);
        assert_eq!((e.cx, e.cy, e.mode), (cx, cy, Mode::Normal));
    }
}

#[test]
fn q_in_insert_mode_is_a_character() {
    let mut e = at(2, 1, Mode::Insert);
    assert_eq!(e.step(release(KeyCode::Char('q'))), Effect::Print { ch: 'q', column: 2, row: 1 });
    assert_eq!(e.cx, 3);
}

#[test]
fn up_and_k_move_up_saturating() {
    for code in [KeyCode::Up, KeyCode::Char('k')] {
        let mut e = at(4, 2, Mode::Normal);
        assert_eq!(e.step(release(code)), Effect::Continue);
        assert_eq!((e.cx, e.cy), (4, 1));
        e.step(release(code));
        assert_eq!(e.cy, 0);
        e.step(release(code));
        assert_eq!(e.cy, 0);
    }
}

#[test]
fn down_and_j_move_down_unbounded() {
    for code in [KeyCode::Down, KeyCode::Char('j')] {
        let mut e = at(4, 23, Mode::Normal);
        e.step(release(code));
        assert_eq!((e.cx, e.cy), (4, 24));
        e.step(release(code));
        assert_eq!(e.cy, 25);
    }
}

#[test]
fn left_and_right_keys() {
    let mut e = at(1, 0, Mode::Normal);
    e.step(release(KeyCode::Right));
    e.step(release(KeyCode::Char('l')));
    assert_eq!(e.cx, 3);
    e.step(release(KeyCode::Left));
    assert_eq!(e.cx, 2);
}

#[test]
fn unknown_keys_do_nothing() {
    let mut e = at(3, 3, Mode::Normal);
    assert_eq!(e.handle_event(release(KeyCode::Char('x'))), None);
    assert_eq!(e.handle_event(release(KeyCode::Esc)), None);
    assert_eq!(e.handle_event(InputEvent::Other), None);
    assert_eq!(e.step(release(KeyCode::Other)), Effect::Continue);
    assert_eq!((e.cx, e.cy, e.mode), (3, 3, Mode::Normal));
    let i = at(3, 3, Mode::Insert);
    assert_eq!(i.handle_event(release(KeyCode::Up)), None);
    assert_eq!(i.handle_event(InputEvent::Other), None);
}

#[test]
fn reentering_insert_mode_changes_nothing() {
    let mut e = at(6, 2, Mode::Insert);
    assert_eq!(e.apply(Action::EnterMode(Mode::Insert)), Effect::Continue);
    assert_eq!((e.cx, e.cy, e.mode), (6, 2, Mode::Insert));
}

#[test]
fn insert_char_draws_at_old_cursor() {
    let mut e = at(9, 4, Mode::Insert);
    assert_eq!(e.step(release(KeyCode::Char('z'))), Effect::Print { ch: 'z', column: 9, row: 4 });
    assert_eq!((e.cx, e.cy), (10, 4));
}

#[test]
fn presses_and_repeats_are_ignored() {
    for mode in [Mode::Normal, Mode::Insert] {
        let mut e = at(1, 1, mode);
        for kind in [KeyKind::Press, KeyKind::Repeat] {
            for code in [KeyCode::Char('q'), KeyCode::Char('i'), KeyCode::Esc, KeyCode::Up] {
                let ev = InputEvent::Key { code, kind };
                assert_eq!(e.handle_event(ev), None);
                assert_eq!(e.step(ev), Effect::Continue);
            }
        }
        assert_eq!((e.cx, e.cy, e.mode), (1, 1, mode));
    }
    let e = at(0, 0, Mode::Normal);
    assert_eq!(e.handle_event(press(KeyCode::Char('q'))), None);
}

#[test]
fn insert_quit_session() {
    let mut e = Editor::new(80, 24);
    assert_eq!(e.step(release(KeyCode::Char('i'))), Effect::Continue);
    assert_eq!(e.mode, Mode::Insert);
    assert_eq!(e.step(release(KeyCode::Char('a'))), Effect::Print { ch: 'a', column: 0, row: 0 });
    assert_eq!((e.cx, e.cy), (1, 0));
    assert_eq!(e.step(release(KeyCode::Esc)), Effect::Continue);
    assert_eq!(e.mode, Mode::Normal);
    assert_eq!(e.step(release(KeyCode::Char('q'))), Effect::Quit);
}

#[test]
fn move_left_saturates_at_zero() {
    let mut e = at(5, 5, Mode::Normal);
    let mut columns = Vec::new();
    for _ in 0..3 {
        e.step(release(KeyCode::Char('h')));
        columns.push(e.cx);
    }
    assert_eq!(columns, vec![4, 3, 2]);
    e.step(release(KeyCode::Char('h')));
    e.step(release(KeyCode::Char('h')));
    assert_eq!(e.cx, 0);
    e.step(release(KeyCode::Char('h')));
    assert_eq!((e.cx, e.cy), (0, 5));
}

#[test]
fn cursor_limits_are_reported() {
    let e = at(usize::MAX, usize::MAX, Mode::Normal);
    assert!(!e.can_step(release(KeyCode::Char('j'))));
    assert!(!e.can_step(release(KeyCode::Char('l'))));
    assert!(e.can_step(release(KeyCode::Char('k'))));
    assert!(!e.can_apply_action(Action::InsertChar('x')));
    assert!(e.can_apply_action(Action::Quit));
}

#[test]
fn cursor_target_truncates_to_16_bits() {
    let e = at(65537, 3, Mode::Normal);
    assert_eq!(e.cursor_target(), (1, 3));
}

#[test]
fn status_line_layout() {
    let e = at(12, 7, Mode::Normal);
    let line = e.status_line().unwrap();
    assert_eq!(line.row, 22);
    assert_eq!(line.mode_segment, " NORMAL ");
    assert_eq!(line.position, " 12:7 ");
    assert_eq!(line.left_glyph, LEFT_GLYPH);
    assert_eq!(line.right_glyph, RIGHT_GLYPH);
    assert_eq!(line.middle.chars().count(), 80 - 8 - 6 - 2);
    assert!(line.middle.starts_with("src/main.rs "));
    assert!(line.middle[11..].chars().all(|c| c == ' '));
    let total = line.mode_segment.len() + 1 + line.middle.len() + 1 + line.position.len();
    assert_eq!(total, 80);
}

#[test]
fn status_line_in_insert_mode() {
    let e = at(0, 0, Mode::Insert);
    let line = e.status_line().unwrap();
    assert_eq!(line.mode_segment, " INSERT ");
    assert_eq!(line.position, " 0:0 ");
}

#[test]
fn status_line_label_longer_than_middle_is_cut() {
    let e = Editor { size: (20, 5), cx: 0, cy: 0, mode: Mode::Normal };
    let line = e.status_line().unwrap();
    assert_eq!(line.middle, "src/m");
    let span = line.mode_segment.chars().count() + 1 + line.middle.chars().count() + 1
        + line.position.chars().count();
    assert_eq!(span, 20);
}

#[test]
fn status_line_exact_fit() {
    let e = Editor { size: (15, 5), cx: 0, cy: 0, mode: Mode::Normal };
    let line = e.status_line().unwrap();
    assert_eq!(line.middle, "");
    let e = Editor { size: (26, 5), cx: 0, cy: 0, mode: Mode::Normal };
    let line = e.status_line().unwrap();
    assert_eq!(line.middle, "src/main.rs");
}

#[test]
fn status_line_too_narrow_or_too_short() {
    assert!(Editor { size: (14, 5), cx: 0, cy: 0, mode: Mode::Normal }.status_line().is_none());
    assert!(Editor { size: (80, 1), cx: 0, cy: 0, mode: Mode::Normal }.status_line().is_none());
    assert!(Editor { size: (0, 0), cx: 0, cy: 0, mode: Mode::Insert }.status_line().is_none());
}

#[test]
fn decimal_rendering() {
    let mut s = String::from("x");
    push_decimal(&mut s, 0);
    assert_eq!(s, "x0");
    let mut s = String::new();
    push_decimal(&mut s, 1090);
    assert_eq!(s, "1090");
    let mut s = String::new();
    push_decimal(&mut s, usize::MAX);
    assert_eq!(s, usize::MAX.to_string());
}

#[test]
fn control_characters_are_not_inserted() {
    for c in ['\u{0}', '\u{7}', '\t', '\r', '\u{1f}', '\u{7f}', '\u{85}', '\u{9f}'] {
        let mut e = at(3, 2, Mode::Insert);
        assert_eq!(e.handle_event(release(KeyCode::Char(c))), None);
        assert_eq!(e.step(release(KeyCode::Char(c))), Effect::Continue);
        assert_eq!((e.cx, e.cy, e.mode), (3, 2, Mode::Insert));
    }
}

#[test]
fn printable_characters_are_inserted() {
    for c in [' ', '~', '\u{a0}', 'é', '\u{e0b0}'] {
        let mut e = at(3, 2, Mode::Insert);
        assert_eq!(e.step(release(KeyCode::Char(c))), Effect::Print { ch: c, column: 3, row: 2 });
        assert_eq!(e.cx, 4);
    }
}
