//! Properties of the classifier, the dispatcher and the status line.

use vstd::prelude::*;
use crate::editor::{Editor, Effect};
use crate::input::{classify, printable, Action, InputEvent, KeyCode, KeyKind, Mode};
use crate::status::{file_label, mode_segment, padded, position_segment};

verus! {

/// The released event of `code`.
pub open spec fn released(code: KeyCode) -> InputEvent {
    InputEvent::Key { code, kind: KeyKind::Release }
}

/// In normal mode, releasing `q` quits, whatever the cursor, and changes
/// nothing.
pub proof fn lemma_q_quits(e: Editor)
    requires
        e.mode == Mode::Normal,
    ensures
        classify(e.mode, released(KeyCode::Char('q'))) == Some(Action::Quit),
        e.can_handle(released(KeyCode::Char('q'))),
        e.handled(released(KeyCode::Char('q'))) == e,
        e.handled_effect(released(KeyCode::Char('q'))) == Effect::Quit,
{
}

/// In normal mode, releasing Up or `k` moves the cursor one row up, and a
/// cursor on row 0 stays there; nothing else changes.
pub proof fn lemma_move_up(e: Editor, code: KeyCode)
    requires
        e.mode == Mode::Normal,
        code == KeyCode::Up || code == KeyCode::Char('k'),
    ensures
        e.can_handle(released(code)),
        e.handled(released(code)).cy == if e.cy == 0 { 0 } else { e.cy - 1 },
        e.handled(released(code)).cx == e.cx,
        e.handled(released(code)).mode == e.mode,
        e.handled(released(code)).size == e.size,
        e.handled_effect(released(code)) == Effect::Continue,
{
}

/// In normal mode, releasing Down or `j` moves the cursor exactly one row
/// down, with no bound but the width of `usize`; nothing else changes.
pub proof fn lemma_move_down(e: Editor, code: KeyCode)
    requires
        e.mode == Mode::Normal,
        code == KeyCode::Down || code == KeyCode::Char('j'),
        e.cy < usize::MAX,
    ensures
        e.can_handle(released(code)),
        e.handled(released(code)).cy == e.cy + 1,
        e.handled(released(code)).cx == e.cx,
        e.handled(released(code)).mode == e.mode,
        e.handled(released(code)).size == e.size,
        e.handled_effect(released(code)) == Effect::Continue,
{
}

/// Entering insert mode while in insert mode changes nothing.
pub proof fn lemma_reenter_insert(e: Editor)
    requires
        e.mode == Mode::Insert,
    ensures
        e.can_apply(Action::EnterMode(Mode::Insert)),
        e.applied(Action::EnterMode(Mode::Insert)) == e,
        e.effect_of(Action::EnterMode(Mode::Insert)) == Effect::Continue,
{
}

/// In insert mode, releasing a printable character key draws it at the
/// cursor as it was, then moves the cursor exactly one column right on the
/// same row.
pub proof fn lemma_insert_char(e: Editor, c: char)
    requires
        e.mode == Mode::Insert,
        printable(c),
        e.cx < usize::MAX,
    ensures
        e.can_handle(released(KeyCode::Char(c))),
        e.handled_effect(released(KeyCode::Char(c))) == (Effect::Print { ch: c, column: e.cx, row: e.cy }),
        e.handled(released(KeyCode::Char(c))).cx == e.cx + 1,
        e.handled(released(KeyCode::Char(c))).cy == e.cy,
        e.handled(released(KeyCode::Char(c))).mode == e.mode,
{
}

/// In insert mode, releasing a control character key yields no action and
/// leaves the editor as it was.
pub proof fn lemma_control_char_ignored(e: Editor, c: char)
    requires
        e.mode == Mode::Insert,
        !printable(c),
    ensures
        classify(e.mode, released(KeyCode::Char(c))) == None::<Action>,
        e.handled(released(KeyCode::Char(c))) == e,
        e.handled_effect(released(KeyCode::Char(c))) == Effect::Continue,
{
}

/// A key event that is not a release yields no action, in either mode, and
/// leaves the editor as it was.
pub proof fn lemma_unreleased_ignored(e: Editor, code: KeyCode, kind: KeyKind)
    requires
        kind != KeyKind::Release,
    ensures
        classify(e.mode, InputEvent::Key { code, kind }) == None::<Action>,
        e.handled(InputEvent::Key { code, kind }) == e,
        e.handled_effect(InputEvent::Key { code, kind }) == Effect::Continue,
{
}

/// Where the viewport has room for the status line, the middle segment is
/// exactly the width that the mode segment, the position segment and the two
/// glyphs leave, so that the line spans the viewport's width.
pub proof fn lemma_status_width(e: Editor)
    requires
        e.status_fits(),
    ensures
        padded(file_label(), e.middle_width()).len() == e.middle_width(),
        mode_segment(e.mode).len() + 1 + padded(file_label(), e.middle_width()).len() + 1
            + position_segment(e.cx as nat, e.cy as nat).len() == e.size.0,
{
}

} // verus!
