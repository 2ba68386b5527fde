use yes_or_no::{process_key, KeyAction, KeyCode, KeyModifiers, Modifier, Selection};

const SELECTIONS: [Selection; 2] = [Selection::Yes, Selection::No];

/// Every set of modifiers, by its bits.
fn every_modifier_set() -> Vec<KeyModifiers> {
    (0u8..64).map(KeyModifiers::from_bits_truncate).collect()
}

fn control() -> KeyModifiers {
    KeyModifiers::only(Modifier::Control)
}

#[test]
fn test_process_key_left_selects_yes() {
    let action = process_key(KeyCode::Left, KeyModifiers::empty(), Selection::No);
    assert_eq!(action, KeyAction::Continue(Selection::Yes));
}

#[test]
fn test_process_key_right_selects_no() {
    let action = process_key(KeyCode::Right, KeyModifiers::empty(), Selection::Yes);
    assert_eq!(action, KeyAction::Continue(Selection::No));
}

#[test]
fn test_process_key_enter_confirms_current() {
    let action = process_key(KeyCode::Enter, KeyModifiers::empty(), Selection::Yes);
    assert_eq!(action, KeyAction::Confirm(Selection::Yes));

    let action = process_key(KeyCode::Enter, KeyModifiers::empty(), Selection::No);
    assert_eq!(action, KeyAction::Confirm(Selection::No));
}

#[test]
fn test_process_key_escape_confirms_no() {
    let action = process_key(KeyCode::Esc, KeyModifiers::empty(), Selection::Yes);
    assert_eq!(action, KeyAction::Confirm(Selection::No));
}

#[test]
fn test_process_key_ctrl_c_cancels() {
    let action = process_key(KeyCode::Char('c'), control(), Selection::Yes);
    assert_eq!(action, KeyAction::Cancel);
}

#[test]
fn test_process_key_other_keys_continue() {
    let action = process_key(KeyCode::Char('x'), KeyModifiers::empty(), Selection::Yes);
    assert_eq!(action, KeyAction::Continue(Selection::Yes));

    let action = process_key(KeyCode::Up, KeyModifiers::empty(), Selection::No);
    assert_eq!(action, KeyAction::Continue(Selection::No));
}

#[test]
fn arrows_set_the_mark_under_every_modifier_set() {
    for modifiers in every_modifier_set() {
        for current in SELECTIONS {
            assert_eq!(
                process_key(KeyCode::Left, modifiers, current),
                KeyAction::Continue(Selection::Yes)
            );
            assert_eq!(
                process_key(KeyCode::Right, modifiers, current),
                KeyAction::Continue(Selection::No)
            );
        }
    }
}

#[test]
fn enter_passes_the_mark_through() {
    for modifiers in every_modifier_set() {
        for current in SELECTIONS {
            assert_eq!(
                process_key(KeyCode::Enter, modifiers, current),
                KeyAction::Confirm(current)
            );
        }
    }
}

#[test]
fn escape_confirms_no_whatever_is_marked() {
    for modifiers in every_modifier_set() {
        for current in SELECTIONS {
            assert_eq!(
                process_key(KeyCode::Esc, modifiers, current),
                KeyAction::Confirm(Selection::No)
            );
        }
    }
}

#[test]
fn interrupt_cancels_whatever_is_marked() {
    for current in SELECTIONS {
        assert_eq!(process_key(KeyCode::Char('c'), control(), current), KeyAction::Cancel);
    }
}

#[test]
fn interrupt_cancels_with_further_modifiers_held() {
    for modifiers in every_modifier_set() {
        let expected = if modifiers.contains(control()) {
            KeyAction::Cancel
        } else {
            KeyAction::Continue(Selection::Yes)
        };
        assert_eq!(process_key(KeyCode::Char('c'), modifiers, Selection::Yes), expected);
    }
}

#[test]
fn the_letter_c_alone_changes_nothing() {
    for current in SELECTIONS {
        assert_eq!(
            process_key(KeyCode::Char('c'), KeyModifiers::empty(), current),
            KeyAction::Continue(current)
        );
        assert_eq!(
            process_key(KeyCode::Char('c'), KeyModifiers::only(Modifier::Shift), current),
            KeyAction::Continue(current)
        );
    }
}

#[test]
fn control_with_another_character_changes_nothing() {
    for key in [KeyCode::Char('C'), KeyCode::Char('d'), KeyCode::Char(' '), KeyCode::Char('✓')] {
        for current in SELECTIONS {
            assert_eq!(process_key(key, control(), current), KeyAction::Continue(current));
        }
    }
}

#[test]
fn keys_without_a_meaning_keep_the_mark() {
    let keys = [
        KeyCode::Up,
        KeyCode::Down,
        KeyCode::Other,
        KeyCode::Char('y'),
        KeyCode::Char('n'),
        KeyCode::Char('\n'),
    ];
    for key in keys {
        for modifiers in every_modifier_set() {
            for current in SELECTIONS {
                assert_eq!(process_key(key, modifiers, current), KeyAction::Continue(current));
            }
        }
    }
}

#[test]
fn keys_without_a_meaning_are_idempotent() {
    let mut current = Selection::Yes;
    for _ in 0..3 {
        match process_key(KeyCode::Down, KeyModifiers::empty(), current) {
            KeyAction::Continue(marked) => current = marked,
            other => panic!("unexpected action {:?}", other),
        }
    }
    assert_eq!(current, Selection::Yes);
}
