//! From a key press to what the prompt does next.

use crate::key::{KeyCode, KeyModifiers, Modifier};
use crate::selection::Selection;
use vstd::prelude::*;

verus! {

/// What a key press asks of the prompt.
#[derive(Debug, Clone, Copy, PartialEq, Eq, Structural)]
pub enum KeyAction {
    /// The answer is given: stop, with this selection as the answer.
    Confirm(Selection),
    /// The user gave up: stop without an answer.
    Cancel,
    /// Go on prompting, with this selection marked.
    Continue(Selection),
}

/// Whether `key_code` with `modifiers` is the interrupt combination: the
/// character `c` with Control held.
pub open spec fn is_interrupt(key_code: KeyCode, modifiers: KeyModifiers) -> bool {
    key_code == KeyCode::Char('c') && modifiers@.contains(Modifier::Control)
}

/// What the press of `key_code` with `modifiers` asks for while `current` is
/// marked.
pub open spec fn resolve(
    key_code: KeyCode,
    modifiers: KeyModifiers,
    current: Selection,
) -> KeyAction {
    if key_code == KeyCode::Left {
        KeyAction::Continue(Selection::Yes)
    } else if key_code == KeyCode::Right {
        KeyAction::Continue(Selection::No)
    } else if key_code == KeyCode::Enter {
        KeyAction::Confirm(current)
    } else if key_code == KeyCode::Esc {
        KeyAction::Confirm(Selection::No)
    } else if is_interrupt(key_code, modifiers) {
        KeyAction::Cancel
    } else {
        KeyAction::Continue(current)
    }
}

/// Decides what the press of `key_code` with `modifiers` does while `current`
/// is marked.
///
/// Left marks "Yes" and Right marks "No". Enter confirms what is marked.
/// Escape confirms "No". The character `c` with Control held cancels. Every
/// other key leaves the mark where it is.
pub fn process_key(
    key_code: KeyCode,
    modifiers: KeyModifiers,
    current: Selection,
) -> (action: KeyAction)
    ensures
        action == resolve(key_code, modifiers, current),
{
    match key_code {
        KeyCode::Left => KeyAction::Continue(Selection::Yes),
        KeyCode::Right => KeyAction::Continue(Selection::No),
        KeyCode::Enter => KeyAction::Confirm(current),
        KeyCode::Esc => KeyAction::Confirm(Selection::No),
        KeyCode::Char(c) => {
            if c == 'c' && modifiers.contains(KeyModifiers::only(Modifier::Control)) {
                KeyAction::Cancel
            } else {
                KeyAction::Continue(current)
            }
        },
        _ => KeyAction::Continue(current),
    }
}

/// Left marks "Yes" and Right marks "No", whatever was marked before and
/// whichever modifiers are held.
pub proof fn lemma_arrows_set_the_mark(modifiers: KeyModifiers, current: Selection)
    ensures
        resolve(KeyCode::Left, modifiers, current) == KeyAction::Continue(Selection::Yes),
        resolve(KeyCode::Right, modifiers, current) == KeyAction::Continue(Selection::No),
{
}

/// Enter confirms exactly what is marked, with no modifier held or with any.
pub proof fn lemma_enter_confirms_the_mark(modifiers: KeyModifiers, current: Selection)
    ensures
        resolve(KeyCode::Enter, modifiers, current) == KeyAction::Confirm(current),
{
}

/// Escape confirms "No" whatever is marked, with no modifier held or with any.
pub proof fn lemma_escape_confirms_no(modifiers: KeyModifiers, current: Selection)
    ensures
        resolve(KeyCode::Esc, modifiers, current) == KeyAction::Confirm(Selection::No),
{
}

/// The character `c` with Control held cancels, whatever is marked.
pub proof fn lemma_interrupt_cancels(modifiers: KeyModifiers, current: Selection)
    requires
        modifiers@.contains(Modifier::Control),
    ensures
        resolve(KeyCode::Char('c'), modifiers, current) == KeyAction::Cancel,
{
}

/// A key that is neither Left, Right, Enter, Escape nor the interrupt
/// combination changes nothing: the prompt goes on with the same mark.
pub proof fn lemma_other_keys_keep_the_mark(
    key_code: KeyCode,
    modifiers: KeyModifiers,
    current: Selection,
)
    requires
        key_code != KeyCode::Left,
        key_code != KeyCode::Right,
        key_code != KeyCode::Enter,
        key_code != KeyCode::Esc,
        !is_interrupt(key_code, modifiers),
    ensures
        resolve(key_code, modifiers, current) == KeyAction::Continue(current),
{
}

/// Only Enter and Escape confirm, and only the interrupt combination cancels.
pub proof fn lemma_what_ends_the_prompt(
    key_code: KeyCode,
    modifiers: KeyModifiers,
    current: Selection,
)
    ensures
        resolve(key_code, modifiers, current) is Confirm <==> key_code == KeyCode::Enter
            || key_code == KeyCode::Esc,
        resolve(key_code, modifiers, current) is Cancel <==> is_interrupt(key_code, modifiers),
{
}

} // verus!
