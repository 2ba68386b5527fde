use crossterm::event::KeyModifiers as TerminalModifiers;
use yes_or_no::key::ALL_MODIFIER_BITS;
use yes_or_no::{KeyCode, KeyEvent, KeyEventKind, KeyModifiers, Modifier};

const MODIFIERS: [Modifier; 6] = [
    Modifier::Shift,
    Modifier::Control,
    Modifier::Alt,
    Modifier::Super,
    Modifier::Hyper,
    Modifier::Meta,
];

#[test]
fn each_modifier_has_its_own_bit() {
    assert_eq!(Modifier::Shift.mask(), 0b0000_0001);
    assert_eq!(Modifier::Control.mask(), 0b0000_0010);
    assert_eq!(Modifier::Alt.mask(), 0b0000_0100);
    assert_eq!(Modifier::Super.mask(), 0b0000_1000);
    assert_eq!(Modifier::Hyper.mask(), 0b0001_0000);
    assert_eq!(Modifier::Meta.mask(), 0b0010_0000);
    let all = MODIFIERS.iter().fold(0u8, |bits, modifier| bits | modifier.mask());
    assert_eq!(all, ALL_MODIFIER_BITS);
    assert_eq!(ALL_MODIFIER_BITS, 0b0011_1111);
}

#[test]
fn modifier_bits_are_those_of_the_terminal_library() {
    assert_eq!(Modifier::Shift.mask(), TerminalModifiers::SHIFT.bits());
    assert_eq!(Modifier::Control.mask(), TerminalModifiers::CONTROL.bits());
    assert_eq!(Modifier::Alt.mask(), TerminalModifiers::ALT.bits());
    assert_eq!(Modifier::Super.mask(), TerminalModifiers::SUPER.bits());
    assert_eq!(Modifier::Hyper.mask(), TerminalModifiers::HYPER.bits());
    assert_eq!(Modifier::Meta.mask(), TerminalModifiers::META.bits());
    assert_eq!(KeyModifiers::empty().bits(), TerminalModifiers::NONE.bits());
    assert_eq!(ALL_MODIFIER_BITS, TerminalModifiers::all().bits());
}

#[test]
fn containment_agrees_with_the_terminal_library() {
    for mine in 0u8..64 {
        for theirs in 0u8..64 {
            let expected = TerminalModifiers::from_bits_truncate(mine)
                .contains(TerminalModifiers::from_bits_truncate(theirs));
            let actual = KeyModifiers::from_bits_truncate(mine)
                .contains(KeyModifiers::from_bits_truncate(theirs));
            assert_eq!(actual, expected, "{mine:#b} contains {theirs:#b}");
        }
    }
}

#[test]
fn the_empty_set_holds_nothing() {
    let empty = KeyModifiers::empty();
    assert_eq!(empty.bits(), 0);
    for modifier in MODIFIERS {
        assert!(!empty.contains(KeyModifiers::only(modifier)));
    }
    assert!(empty.contains(KeyModifiers::empty()));
}

#[test]
fn a_single_modifier_holds_itself_alone() {
    for held in MODIFIERS {
        let modifiers = KeyModifiers::only(held);
        assert_eq!(modifiers.bits(), held.mask());
        for other in MODIFIERS {
            assert_eq!(modifiers.contains(KeyModifiers::only(other)), other == held);
        }
    }
}

#[test]
fn bits_that_stand_for_no_modifier_are_dropped() {
    assert_eq!(KeyModifiers::from_bits_truncate(0b1111_1111).bits(), 0b0011_1111);
    assert_eq!(KeyModifiers::from_bits_truncate(0b1100_0000), KeyModifiers::empty());
    assert_eq!(KeyModifiers::from_bits_truncate(0b0100_0010), KeyModifiers::only(Modifier::Control));
    assert_eq!(KeyModifiers::from_bits_truncate(0b0000_0101).bits(), 0b0000_0101);
}

#[test]
fn a_set_contains_its_subsets_only() {
    let shift_control = KeyModifiers::from_bits_truncate(0b0000_0011);
    let control_alt = KeyModifiers::from_bits_truncate(0b0000_0110);
    assert!(shift_control.contains(KeyModifiers::only(Modifier::Shift)));
    assert!(shift_control.contains(KeyModifiers::only(Modifier::Control)));
    assert!(shift_control.contains(shift_control));
    assert!(shift_control.contains(KeyModifiers::empty()));
    assert!(!shift_control.contains(KeyModifiers::only(Modifier::Alt)));
    assert!(!shift_control.contains(control_alt));
    assert!(!KeyModifiers::only(Modifier::Control).contains(shift_control));
}

#[test]
fn a_new_key_event_is_a_press() {
    let event = KeyEvent::new(KeyCode::Char('q'), KeyModifiers::only(Modifier::Alt));
    assert_eq!(event.code, KeyCode::Char('q'));
    assert_eq!(event.modifiers, KeyModifiers::only(Modifier::Alt));
    assert_eq!(event.kind, KeyEventKind::Press);
}
