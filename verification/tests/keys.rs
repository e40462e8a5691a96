use branch_selector::keys::{key_to_action, Action, Key};

#[test]
fn keys_that_move_down() {
    assert_eq!(key_to_action(Key::Down), Action::MoveDown);
    assert_eq!(key_to_action(Key::Ctrl('n')), Action::MoveDown);
    assert_eq!(key_to_action(Key::Char('j')), Action::MoveDown);
}

#[test]
fn keys_that_move_up() {
    assert_eq!(key_to_action(Key::Up), Action::MoveUp);
    assert_eq!(key_to_action(Key::Ctrl('p')), Action::MoveUp);
    assert_eq!(key_to_action(Key::Char('k')), Action::MoveUp);
}

#[test]
fn keys_that_quit() {
    assert_eq!(key_to_action(Key::Esc), Action::Quit);
    assert_eq!(key_to_action(Key::Char('q')), Action::Quit);
    assert_eq!(key_to_action(Key::Ctrl('c')), Action::Quit);
}

#[test]
fn keys_that_delete() {
    assert_eq!(key_to_action(Key::Delete), Action::Delete);
    assert_eq!(key_to_action(Key::Char('d')), Action::Delete);
    assert_eq!(key_to_action(Key::Char('D')), Action::ForceDelete);
}

#[test]
fn keys_that_check_out() {
    assert_eq!(key_to_action(Key::Char('c')), Action::Checkout);
    assert_eq!(key_to_action(Key::Char('\n')), Action::Checkout);
}

#[test]
fn other_keys_ask_for_nothing() {
    let keys = [
        Key::Backspace,
        Key::Left,
        Key::Right,
        Key::Home,
        Key::End,
        Key::PageUp,
        Key::PageDown,
        Key::BackTab,
        Key::Insert,
        Key::F(1),
        Key::F(12),
        Key::Null,
        Key::Other,
        Key::Char('x'),
        Key::Char('J'),
        Key::Char('K'),
        Key::Char('Q'),
        Key::Char('C'),
        Key::Char(' '),
        Key::Char('\r'),
        Key::Alt('j'),
        Key::Alt('d'),
        Key::Alt('q'),
        Key::Ctrl('d'),
        Key::Ctrl('j'),
        Key::Ctrl('q'),
        Key::Ctrl('N'),
    ];
    for key in keys {
        assert_eq!(key_to_action(key), Action::NoOp, "{:?}", key);
    }
}

#[test]
fn the_same_key_always_asks_for_the_same_action() {
    let mut keys = vec![
        Key::Backspace,
        Key::Left,
        Key::Right,
        Key::Up,
        Key::Down,
        Key::Home,
        Key::End,
        Key::PageUp,
        Key::PageDown,
        Key::BackTab,
        Key::Delete,
        Key::Insert,
        Key::Null,
        Key::Esc,
        Key::Other,
    ];
    for code in 0u8..128 {
        let c = code as char;
        keys.push(Key::Char(c));
        keys.push(Key::Alt(c));
        keys.push(Key::Ctrl(c));
        keys.push(Key::F(code));
    }
    for key in keys {
        let first = key_to_action(key);
        for _ in 0..3 {
            assert_eq!(key_to_action(key), first);
        }
    }
}
