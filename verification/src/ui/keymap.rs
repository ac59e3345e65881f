//! The only place that knows about keys. Translating here keeps `app` free of
//! terminal types and makes the bindings testable on their own.
use vstd::prelude::*;

use crate::app::{Action, Msg};

verus! {

/// A key as the terminal reports it. Keys jikura never binds and has no name
/// for (lock keys, media keys, lone modifiers) arrive as `Other`.
#[derive(Debug, Clone, Copy, PartialEq, Eq, Structural)]
pub enum KeyCode {
    Backspace,
    Enter,
    Left,
    Right,
    Up,
    Down,
    Home,
    End,
    PageUp,
    PageDown,
    Tab,
    BackTab,
    Delete,
    Insert,
    F(u8),
    Char(char),
    Null,
    Esc,
    Other,
}

/// The modifier keys held with a key.
#[derive(Debug, Clone, Copy, PartialEq, Eq, Structural)]
pub struct KeyModifiers {
    pub shift: bool,
    pub control: bool,
    pub alt: bool,
    pub super_key: bool,
    pub hyper: bool,
    pub meta: bool,
}

impl KeyModifiers {
    /// No modifier held.
    pub fn none() -> (r: KeyModifiers)
        ensures
            !r.shift && !r.control && !r.alt && !r.super_key && !r.hyper && !r.meta,
    {
        KeyModifiers {
            shift: false,
            control: false,
            alt: false,
            super_key: false,
            hyper: false,
            meta: false,
        }
    }

    /// Shift alone.
    pub fn shift() -> (r: KeyModifiers)
        ensures
            r.shift && !r.control && !r.alt && !r.super_key && !r.hyper && !r.meta,
    {
        KeyModifiers { shift: true, ..KeyModifiers::none() }
    }

    /// Control alone.
    pub fn control() -> (r: KeyModifiers)
        ensures
            !r.shift && r.control && !r.alt && !r.super_key && !r.hyper && !r.meta,
    {
        KeyModifiers { control: true, ..KeyModifiers::none() }
    }

    /// Alt alone.
    pub fn alt() -> (r: KeyModifiers)
        ensures
            !r.shift && !r.control && r.alt && !r.super_key && !r.hyper && !r.meta,
    {
        KeyModifiers { alt: true, ..KeyModifiers::none() }
    }
}

/// Whether a key went down, repeats while held, or came up.
#[derive(Debug, Clone, Copy, PartialEq, Eq, Structural)]
pub enum KeyEventKind {
    Press,
    Repeat,
    Release,
}

/// One key event.
#[derive(Debug, Clone, Copy, PartialEq, Eq, Structural)]
pub struct KeyEvent {
    pub code: KeyCode,
    pub modifiers: KeyModifiers,
    pub kind: KeyEventKind,
}

impl KeyEvent {
    /// A key pressed with the given modifiers.
    pub fn new(code: KeyCode, modifiers: KeyModifiers) -> (r: KeyEvent)
        ensures
            r == (KeyEvent { code, modifiers, kind: KeyEventKind::Press }),
    {
        KeyEvent { code, modifiers, kind: KeyEventKind::Press }
    }
}

/// A terminal event. Resizes, mouse events, focus changes and pastes carry
/// no key and arrive as `Other`.
#[derive(Debug, Clone, Copy, PartialEq, Eq, Structural)]
pub enum Event {
    Key(KeyEvent),
    Other,
}

/// No modifier is held but, possibly, shift (which is how `G` arrives).
pub open spec fn at_most_shift(m: KeyModifiers) -> bool {
    !m.control && !m.alt && !m.super_key && !m.hyper && !m.meta
}

/// The action a plain (or shifted) key is bound to.
pub open spec fn plain_binding(code: KeyCode) -> Option<Action> {
    match code {
        KeyCode::Char('j') | KeyCode::Down => Some(Action::NextItem),
        KeyCode::Char('k') | KeyCode::Up => Some(Action::PrevItem),
        KeyCode::Char('g') | KeyCode::Home => Some(Action::First),
        KeyCode::Char('G') | KeyCode::End => Some(Action::Last),
        KeyCode::Tab | KeyCode::Right | KeyCode::Char('l') => Some(Action::NextTab),
        KeyCode::BackTab | KeyCode::Left | KeyCode::Char('h') => Some(Action::PrevTab),
        KeyCode::Char('a') => Some(Action::ToggleAll),
        KeyCode::Char('r') => Some(Action::Refresh),
        KeyCode::Char('x') => Some(Action::OpenActionMenu),
        KeyCode::Enter => Some(Action::Select),
        KeyCode::Esc => Some(Action::Dismiss),
        KeyCode::Char('?') => Some(Action::ToggleHelp),
        KeyCode::Char('q') => Some(Action::Quit),
        _ => None,
    }
}

/// The action a key event means: a release means nothing, control is bound
/// only for `ctrl-c`, and any other modifier but shift unbinds the key.
pub open spec fn binding(key: KeyEvent) -> Option<Action> {
    if key.kind == KeyEventKind::Release {
        None
    } else if key.modifiers.control {
        if key.code == KeyCode::Char('c') {
            Some(Action::Quit)
        } else {
            None
        }
    } else if !at_most_shift(key.modifiers) {
        None
    } else {
        plain_binding(key.code)
    }
}

/// `None` for a key jikura does not bind.
pub fn action_for(event: &KeyEvent) -> (r: Option<Action>)
    ensures
        r == binding(*event),
        event.kind == KeyEventKind::Release ==> r is None,
{
    // Terminals speaking the kitty keyboard protocol report press *and* release;
    // acting on both makes every keystroke fire twice.
    if event.kind == KeyEventKind::Release {
        return None;
    }
    if event.modifiers.control {
        return match event.code {
            KeyCode::Char('c') => Some(Action::Quit),
            _ => None,
        };
    }
    // Shift is expected (it is how `G` arrives); anything else is unbound.
    let m = event.modifiers;
    if m.alt || m.super_key || m.hyper || m.meta {
        return None;
    }
    match event.code {
        KeyCode::Char('j') | KeyCode::Down => Some(Action::NextItem),
        KeyCode::Char('k') | KeyCode::Up => Some(Action::PrevItem),
        KeyCode::Char('g') | KeyCode::Home => Some(Action::First),
        KeyCode::Char('G') | KeyCode::End => Some(Action::Last),
        KeyCode::Tab | KeyCode::Right | KeyCode::Char('l') => Some(Action::NextTab),
        KeyCode::BackTab | KeyCode::Left | KeyCode::Char('h') => Some(Action::PrevTab),
        KeyCode::Char('a') => Some(Action::ToggleAll),
        KeyCode::Char('r') => Some(Action::Refresh),
        KeyCode::Char('x') => Some(Action::OpenActionMenu),
        KeyCode::Enter => Some(Action::Select),
        KeyCode::Esc => Some(Action::Dismiss),
        KeyCode::Char('?') => Some(Action::ToggleHelp),
        KeyCode::Char('q') => Some(Action::Quit),
        _ => None,
    }
}

/// Terminal event to app message. Only a bound key carries intent: a redraw
/// already happens every frame.
pub fn msg_for(event: &Event) -> (r: Option<Msg>)
    ensures
        match *event {
            Event::Key(key) => match binding(key) {
                Some(a) => r matches Some(Msg::Action(b)) && b == a,
                None => r is None,
            },
            Event::Other => r is None,
        },
{
    match event {
        Event::Key(key) => match action_for(key) {
            Some(a) => Some(Msg::Action(a)),
            None => None,
        },
        Event::Other => None,
    }
}

/// A key release never acts (terminals that report releases too would
/// otherwise fire every keystroke twice); `ctrl-c` always quits; and with a
/// modifier other than shift or control held, no key is bound.
pub proof fn lemma_key_rules(key: KeyEvent)
    ensures
        key.kind == KeyEventKind::Release ==> binding(key) is None,
        key.kind != KeyEventKind::Release && key.modifiers.control && key.code == KeyCode::Char(
            'c',
        ) ==> binding(key) == Some(Action::Quit),
        !key.modifiers.control && (key.modifiers.alt || key.modifiers.super_key
            || key.modifiers.hyper || key.modifiers.meta) ==> binding(key) is None,
{
}

} // verus!
