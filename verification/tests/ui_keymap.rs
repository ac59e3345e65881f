use jikura::app::{Action, Msg};
use jikura::ui::keymap::{action_for, msg_for, Event, KeyCode, KeyEvent, KeyEventKind, KeyModifiers};

fn key(code: KeyCode) -> KeyEvent {
    KeyEvent::new(code, KeyModifiers::none())
}

#[test]
fn vim_and_arrow_keys_both_move_the_cursor() {
    assert_eq!(action_for(&key(KeyCode::Char('j'))), Some(Action::NextItem));
    assert_eq!(action_for(&key(KeyCode::Down)), Some(Action::NextItem));
    assert_eq!(action_for(&key(KeyCode::Char('k'))), Some(Action::PrevItem));
    assert_eq!(action_for(&key(KeyCode::Up)), Some(Action::PrevItem));
    assert_eq!(action_for(&key(KeyCode::Char('g'))), Some(Action::First));
    assert_eq!(action_for(&key(KeyCode::Char('G'))), Some(Action::Last));
}

#[test]
fn tab_and_arrows_switch_panes() {
    assert_eq!(action_for(&key(KeyCode::Tab)), Some(Action::NextTab));
    assert_eq!(action_for(&key(KeyCode::Right)), Some(Action::NextTab));
    assert_eq!(action_for(&key(KeyCode::Left)), Some(Action::PrevTab));
}

#[test]
fn the_working_keys_are_bound() {
    assert_eq!(action_for(&key(KeyCode::Char('a'))), Some(Action::ToggleAll));
    assert_eq!(action_for(&key(KeyCode::Char('r'))), Some(Action::Refresh));
    assert_eq!(action_for(&key(KeyCode::Enter)), Some(Action::Select));
    assert_eq!(
        action_for(&key(KeyCode::Char('x'))),
        Some(Action::OpenActionMenu)
    );
    assert_eq!(action_for(&key(KeyCode::Esc)), Some(Action::Dismiss));
    assert_eq!(action_for(&key(KeyCode::Char('?'))), Some(Action::ToggleHelp));
}

#[test]
fn quit_answers_to_q_and_to_ctrl_c() {
    assert_eq!(action_for(&key(KeyCode::Char('q'))), Some(Action::Quit));
    assert_eq!(
        action_for(&KeyEvent::new(KeyCode::Char('c'), KeyModifiers::control())),
        Some(Action::Quit)
    );
}

#[test]
fn a_key_release_is_not_a_second_keypress() {
    // Terminals with the kitty keyboard protocol report press *and* release;
    // acting on both makes every keystroke fire twice.
    let mut event = key(KeyCode::Char('j'));
    event.kind = KeyEventKind::Release;
    assert_eq!(action_for(&event), None);
}

#[test]
fn an_unbound_key_does_nothing() {
    assert_eq!(action_for(&key(KeyCode::Char('z'))), None);
    assert_eq!(action_for(&key(KeyCode::F(5))), None);
}

#[test]
fn a_keypress_becomes_an_action_message() {
    let msg = msg_for(&Event::Key(key(KeyCode::Char('r'))));
    assert!(matches!(msg, Some(Msg::Action(Action::Refresh))));
}

#[test]
fn events_carrying_no_intent_are_dropped() {
    // A resize and a focus change both arrive as `Event::Other`.
    assert!(msg_for(&Event::Other).is_none());
    assert!(msg_for(&Event::Key(key(KeyCode::Char('z')))).is_none());
}

#[test]
fn a_modifier_does_not_smuggle_in_an_unrelated_binding() {
    assert_eq!(
        action_for(&KeyEvent::new(KeyCode::Char('q'), KeyModifiers::alt())),
        None
    );
}

#[test]
fn shift_is_tolerated_and_control_binds_only_c() {
    assert_eq!(
        action_for(&KeyEvent::new(KeyCode::Char('G'), KeyModifiers::shift())),
        Some(Action::Last)
    );
    assert_eq!(
        action_for(&KeyEvent::new(KeyCode::Char('q'), KeyModifiers::control())),
        None
    );
    let mut repeat = key(KeyCode::Char('j'));
    repeat.kind = KeyEventKind::Repeat;
    assert_eq!(action_for(&repeat), Some(Action::NextItem));
    let mut meta = KeyModifiers::none();
    meta.meta = true;
    assert_eq!(action_for(&KeyEvent::new(KeyCode::Enter, meta)), None);
    assert_eq!(action_for(&key(KeyCode::Home)), Some(Action::First));
    assert_eq!(action_for(&key(KeyCode::End)), Some(Action::Last));
    assert_eq!(action_for(&key(KeyCode::BackTab)), Some(Action::PrevTab));
    assert_eq!(action_for(&key(KeyCode::Char('h'))), Some(Action::PrevTab));
    assert_eq!(action_for(&key(KeyCode::Char('l'))), Some(Action::NextTab));
}
