//! Keys, modifiers and input events, as plain values.
//!
//! A driver that reads the terminal turns what it has read into these types;
//! the prompt's decisions are made on them alone.

use vstd::prelude::*;

verus! {

/// A modifier key that can be held while another key is pressed.
#[derive(Debug, Clone, Copy, PartialEq, Eq, Structural)]
pub enum Modifier {
    Shift,
    Control,
    Alt,
    Super,
    Hyper,
    Meta,
}

impl Modifier {
    /// The bit that stands for this modifier in [`KeyModifiers::bits`].
    pub open spec fn spec_mask(self) -> u8 {
        match self {
            Modifier::Shift => 0b0000_0001,
            Modifier::Control => 0b0000_0010,
            Modifier::Alt => 0b0000_0100,
            Modifier::Super => 0b0000_1000,
            Modifier::Hyper => 0b0001_0000,
            Modifier::Meta => 0b0010_0000,
        }
    }

    /// The bit that stands for this modifier in [`KeyModifiers::bits`].
    #[verifier::when_used_as_spec(spec_mask)]
    pub fn mask(self) -> (bit: u8)
        ensures
            bit == self.spec_mask(),
    {
        match self {
            Modifier::Shift => 0b0000_0001,
            Modifier::Control => 0b0000_0010,
            Modifier::Alt => 0b0000_0100,
            Modifier::Super => 0b0000_1000,
            Modifier::Hyper => 0b0001_0000,
            Modifier::Meta => 0b0010_0000,
        }
    }
}

/// Every bit that stands for a modifier.
pub const ALL_MODIFIER_BITS: u8 = 0b0011_1111;

/// The set of modifier keys held with a key press, kept as one bit for each.
///
/// Its view is that set. No bit outside [`ALL_MODIFIER_BITS`] is ever set.
#[derive(Debug, Clone, Copy, PartialEq, Eq, Structural)]
pub struct KeyModifiers {
    bits: u8,
}

impl View for KeyModifiers {
    type V = Set<Modifier>;

    /// The modifiers that are held: those whose bit is set.
    open spec fn view(&self) -> Set<Modifier> {
        Set::new(|modifier: Modifier| self.spec_bits() & modifier.mask() != 0)
    }
}

impl KeyModifiers {
    #[verifier::type_invariant]
    spec fn only_modifier_bits(self) -> bool {
        self.bits <= ALL_MODIFIER_BITS
    }

    /// The bits of this set, one for each modifier held.
    pub closed spec fn spec_bits(&self) -> u8 {
        self.bits
    }

    /// The bits of this set, one for each modifier held.
    #[verifier::when_used_as_spec(spec_bits)]
    pub fn bits(&self) -> (bits: u8)
        ensures
            bits == self.spec_bits(),
            bits <= ALL_MODIFIER_BITS,
    {
        proof {
            use_type_invariant(self);
        }
        self.bits
    }

    /// No modifier.
    pub fn empty() -> (modifiers: KeyModifiers)
        ensures
            modifiers@ == Set::<Modifier>::empty(),
            modifiers.bits() == 0,
    {
        let modifiers = KeyModifiers { bits: 0 };
        assert forall|modifier: Modifier| !modifiers@.contains(modifier) by {
            let bit = modifier.mask();
            assert(0u8 & bit == 0) by (bit_vector);
        }
        assert(modifiers@ =~= Set::<Modifier>::empty());
        modifiers
    }

    /// The one modifier `modifier` and no other.
    pub fn only(modifier: Modifier) -> (modifiers: KeyModifiers)
        ensures
            modifiers@ == set![modifier],
            modifiers.bits() == modifier.mask(),
    {
        let bits = modifier.mask();
        let modifiers = KeyModifiers { bits };
        assert forall|other: Modifier| modifiers@.contains(other) <==> other == modifier by {
            let b = other.mask();
            assert((bits & b != 0) <==> bits == b) by (bit_vector)
                requires
                    bits == 1 || bits == 2 || bits == 4 || bits == 8 || bits == 16 || bits == 32,
                    b == 1 || b == 2 || b == 4 || b == 8 || b == 16 || b == 32,
            ;
        }
        assert(modifiers@ =~= set![modifier]);
        modifiers
    }

    /// The set that `bits` stands for; bits that stand for no modifier are
    /// dropped.
    pub fn from_bits_truncate(bits: u8) -> (modifiers: KeyModifiers)
        ensures
            modifiers.bits() == bits & ALL_MODIFIER_BITS,
            forall|modifier: Modifier|
                modifiers@.contains(modifier) <==> bits & #[trigger] modifier.mask() != 0,
    {
        let kept = bits & ALL_MODIFIER_BITS;
        assert(kept <= 0b0011_1111) by (bit_vector)
            requires
                kept == bits & 0b0011_1111,
        ;
        let modifiers = KeyModifiers { bits: kept };
        assert forall|modifier: Modifier|
            modifiers@.contains(modifier) <==> bits & #[trigger] modifier.mask() != 0 by {
            let b = modifier.mask();
            assert((kept & b != 0) <==> (bits & b != 0)) by (bit_vector)
                requires
                    kept == bits & 0b0011_1111,
                    b == 1 || b == 2 || b == 4 || b == 8 || b == 16 || b == 32,
            ;
        }
        modifiers
    }

    /// Whether every modifier of `other` is held in this set too.
    pub fn contains(&self, other: KeyModifiers) -> (all_held: bool)
        ensures
            all_held == other@.subset_of(self@),
    {
        let mine = self.bits;
        let theirs = other.bits;
        proof {
            use_type_invariant(&other);
            if mine & theirs == theirs {
                assert forall|modifier: Modifier| other@.contains(modifier) implies self@.contains(
                    modifier,
                ) by {
                    let bit = modifier.mask();
                    assert(mine & bit != 0) by (bit_vector)
                        requires
                            mine & theirs == theirs,
                            theirs & bit != 0,
                    ;
                }
                assert(other@.subset_of(self@));
            } else {
                let missing = Self::lemma_missing_modifier(mine, theirs);
                assert(other@.contains(missing) && !self@.contains(missing));
            }
        }
        mine & theirs == theirs
    }

    /// Where `theirs` holds only modifier bits and one of them is not in
    /// `mine`, the result is a modifier whose bit is in `theirs` and not in
    /// `mine`.
    proof fn lemma_missing_modifier(mine: u8, theirs: u8) -> (missing: Modifier)
        requires
            theirs <= ALL_MODIFIER_BITS,
            mine & theirs != theirs,
        ensures
            theirs & missing.mask() != 0,
            mine & missing.mask() == 0,
    {
        assert((theirs & 1 != 0 && mine & 1 == 0) || (theirs & 2 != 0 && mine & 2 == 0) || (theirs
            & 4 != 0 && mine & 4 == 0) || (theirs & 8 != 0 && mine & 8 == 0) || (theirs & 16 != 0
            && mine & 16 == 0) || (theirs & 32 != 0 && mine & 32 == 0)) by (bit_vector)
            requires
                theirs <= 0b0011_1111,
                mine & theirs != theirs,
        ;
        if theirs & 1 != 0 && mine & 1 == 0 {
            Modifier::Shift
        } else if theirs & 2 != 0 && mine & 2 == 0 {
            Modifier::Control
        } else if theirs & 4 != 0 && mine & 4 == 0 {
            Modifier::Alt
        } else if theirs & 8 != 0 && mine & 8 == 0 {
            Modifier::Super
        } else if theirs & 16 != 0 && mine & 16 == 0 {
            Modifier::Hyper
        } else {
            Modifier::Meta
        }
    }
}

/// The key that was pressed.
#[derive(Debug, Clone, Copy, PartialEq, Eq, Structural)]
pub enum KeyCode {
    /// Left arrow key.
    Left,
    /// Right arrow key.
    Right,
    /// Up arrow key.
    Up,
    /// Down arrow key.
    Down,
    /// Enter key.
    Enter,
    /// Escape key.
    Esc,
    /// A character key.
    Char(char),
    /// Any key that is none of the above.
    Other,
}

/// What happened to the key.
#[derive(Debug, Clone, Copy, PartialEq, Eq, Structural)]
pub enum KeyEventKind {
    Press,
    Repeat,
    Release,
}

/// One key event: the key, the modifiers held with it, and what happened to
/// the key.
#[derive(Debug, Clone, Copy, PartialEq, Eq, Structural)]
pub struct KeyEvent {
    pub code: KeyCode,
    pub modifiers: KeyModifiers,
    pub kind: KeyEventKind,
}

impl KeyEvent {
    /// The press of `code` with `modifiers` held.
    pub fn new(code: KeyCode, modifiers: KeyModifiers) -> (event: KeyEvent)
        ensures
            event == (KeyEvent { code, modifiers, kind: KeyEventKind::Press }),
    {
        KeyEvent { code, modifiers, kind: KeyEventKind::Press }
    }
}

/// One input event from the terminal.
#[derive(Debug, Clone, Copy, PartialEq, Eq, Structural)]
pub enum Event {
    /// A key event.
    Key(KeyEvent),
    /// Any other event: focus, mouse, paste, resize.
    Other,
}

} // verus!
