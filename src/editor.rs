//! The editor state and the dispatcher that applies actions to it.

use vstd::prelude::*;
use crate::input::{classify, is_printable, Action, InputEvent, KeyCode, KeyKind, Mode};

verus! {

/// The editor's whole state: viewport size, cursor and mode.
pub struct Editor {
    /// Viewport width and height, in cells.
    pub size: (u16, u16),
    /// Cursor column.
    pub cx: usize,
    /// Cursor row.
    pub cy: usize,
    pub mode: Mode,
}

/// What the caller has to do after an event was handled.
#[derive(Clone, Copy, Debug, PartialEq, Eq, Structural)]
pub enum Effect {
    /// Nothing to output; read the next event.
    Continue,
    /// Draw `ch` at (`column`, `row`), then read the next event.
    Print { ch: char, column: usize, row: usize },
    /// Stop the loop.
    Quit,
}

impl Editor {
    /// Whether applying `action` keeps the cursor within `usize`.
    pub open spec fn can_apply(self, action: Action) -> bool {
        match action {
            Action::MoveDown => self.cy < usize::MAX,
            Action::MoveRight | Action::InsertChar(_) => self.cx < usize::MAX,
            _ => true,
        }
    }

    /// The state after `action`.
    pub open spec fn applied(self, action: Action) -> Editor
        recommends
            self.can_apply(action),
    {
        match action {
            Action::Quit => self,
            Action::MoveUp => Editor { cy: if self.cy == 0 { 0 } else { (self.cy - 1) as usize }, ..self },
            Action::MoveDown => Editor { cy: (self.cy + 1) as usize, ..self },
            Action::MoveLeft => Editor { cx: if self.cx == 0 { 0 } else { (self.cx - 1) as usize }, ..self },
            Action::MoveRight => Editor { cx: (self.cx + 1) as usize, ..self },
            Action::EnterMode(m) => Editor { mode: m, ..self },
            Action::InsertChar(_) => Editor { cx: (self.cx + 1) as usize, ..self },
        }
    }

    /// The output that `action` asks for, at the cursor before the action.
    pub open spec fn effect_of(self, action: Action) -> Effect {
        match action {
            Action::Quit => Effect::Quit,
            Action::InsertChar(c) => Effect::Print { ch: c, column: self.cx, row: self.cy },
            _ => Effect::Continue,
        }
    }

    /// Whether handling `event` keeps the cursor within `usize`.
    pub open spec fn can_handle(self, event: InputEvent) -> bool {
        match classify(self.mode, event) {
            Some(a) => self.can_apply(a),
            None => true,
        }
    }

    /// The state after `event`.
    pub open spec fn handled(self, event: InputEvent) -> Editor {
        match classify(self.mode, event) {
            Some(a) => self.applied(a),
            None => self,
        }
    }

    /// The output that `event` asks for.
    pub open spec fn handled_effect(self, event: InputEvent) -> Effect {
        match classify(self.mode, event) {
            Some(a) => self.effect_of(a),
            None => Effect::Continue,
        }
    }

    /// A fresh editor for a viewport of `width` by `height` cells: normal
    /// mode, cursor at the origin.
    pub fn new(width: u16, height: u16) -> (r: Editor)
        ensures
            r.size == (width, height),
            r.cx == 0,
            r.cy == 0,
            r.mode == Mode::Normal,
    {
        Editor { size: (width, height), cx: 0, cy: 0, mode: Mode::Normal }
    }

    /// The action of `event` in the current mode.
    pub fn handle_event(&self, event: InputEvent) -> (r: Option<Action>)
        ensures
            r == classify(self.mode, event),
    {
        match self.mode {
            Mode::Normal => self.handle_normal_event(event),
            Mode::Insert => self.handle_insert_event(event),
        }
    }

    /// The action of `event` as normal mode reads it.
    pub fn handle_normal_event(&self, event: InputEvent) -> (r: Option<Action>)
        ensures
            r == classify(Mode::Normal, event),
    {
        match event {
            InputEvent::Key { code, kind: KeyKind::Release } => match code {
                KeyCode::Char('q') => Some(Action::Quit),
                KeyCode::Up | KeyCode::Char('k') => Some(Action::MoveUp),
                KeyCode::Down | KeyCode::Char('j') => Some(Action::MoveDown),
                KeyCode::Left | KeyCode::Char('h') => Some(Action::MoveLeft),
                KeyCode::Right | KeyCode::Char('l') => Some(Action::MoveRight),
                KeyCode::Char('i') => Some(Action::EnterMode(Mode::Insert)),
                _ => None,
            },
            _ => None,
        }
    }

    /// The action of `event` as insert mode reads it.
    pub fn handle_insert_event(&self, event: InputEvent) -> (r: Option<Action>)
        ensures
            r == classify(Mode::Insert, event),
    {
        match event {
            InputEvent::Key { code, kind: KeyKind::Release } => match code {
                KeyCode::Esc => Some(Action::EnterMode(Mode::Normal)),
                KeyCode::Char(c) => if is_printable(c) {
                    Some(Action::InsertChar(c))
                } else {
                    None
                },
                _ => None,
            },
            _ => None,
        }
    }

    /// Whether `apply(action)` may be called: the cursor must not pass
    /// `usize::MAX`.
    pub fn can_apply_action(&self, action: Action) -> (r: bool)
        ensures
            r == self.can_apply(action),
    {
        match action {
            Action::MoveDown => self.cy < usize::MAX,
            Action::MoveRight | Action::InsertChar(_) => self.cx < usize::MAX,
            _ => true,
        }
    }

    /// Applies `action` and returns the output it asks for.
    pub fn apply(&mut self, action: Action) -> (r: Effect)
        requires
            old(self).can_apply(action),
        ensures
            *final(self) == old(self).applied(action),
            r == old(self).effect_of(action),
    {
        match action {
            Action::Quit => Effect::Quit,
            Action::MoveUp => {
                self.cy = self.cy.saturating_sub(1);
                Effect::Continue
            },
            Action::MoveDown => {
                self.cy = self.cy + 1;
                Effect::Continue
            },
            Action::MoveLeft => {
                self.cx = self.cx.saturating_sub(1);
                Effect::Continue
            },
            Action::MoveRight => {
                self.cx = self.cx + 1;
                Effect::Continue
            },
            Action::InsertChar(c) => {
                let r = Effect::Print { ch: c, column: self.cx, row: self.cy };
                self.cx = self.cx + 1;
                r
            },
            Action::EnterMode(m) => {
                self.mode = m;
                Effect::Continue
            },
        }
    }

    /// Whether `step(event)` may be called: the cursor must not pass
    /// `usize::MAX`.
    pub fn can_step(&self, event: InputEvent) -> (r: bool)
        ensures
            r == self.can_handle(event),
    {
        match self.handle_event(event) {
            Some(a) => self.can_apply_action(a),
            None => true,
        }
    }

    /// Handles one event: classifies it in the current mode and applies the
    /// action, if any.
    pub fn step(&mut self, event: InputEvent) -> (r: Effect)
        requires
            old(self).can_handle(event),
        ensures
            *final(self) == old(self).handled(event),
            r == old(self).handled_effect(event),
    {
        match self.handle_event(event) {
            Some(a) => self.apply(a),
            None => Effect::Continue,
        }
    }

    /// Where the terminal cursor goes: the coordinates cut to 16 bits.
    pub fn cursor_target(&self) -> (r: (u16, u16))
        ensures
            r == (self.cx as u16, self.cy as u16),
    {
        (self.cx as u16, self.cy as u16)
    }
}

} // verus!
