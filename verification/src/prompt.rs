//! The prompt as a state machine.
//!
//! The prompt itself never touches the terminal. It says which [`Command`] is
//! to be performed next; a driver performs it and reports back with a
//! [`Reply`]; [`Prompt::advance`] then gives the next state, or the result
//! when the prompt is over. Both terminal modes that the prompt enters are
//! left again on every path to a result.

use crate::key::{Event, KeyEventKind};
use crate::resolver::{process_key, resolve, KeyAction};
use crate::selection::Selection;
use vstd::prelude::*;

verus! {

/// One thing that the driver does to the terminal for the prompt.
#[derive(Debug, Clone, Copy, PartialEq, Eq, Structural)]
pub enum Command {
    /// Switch raw input mode on.
    EnableRawMode,
    /// Switch to the alternate screen.
    EnterAlternateScreen,
    /// Move the cursor to the origin and clear the line there.
    ClearLine,
    /// Write the prompt's line with this selection marked.
    PrintLine(Selection),
    /// Flush what was written, so that it is seen before input is awaited.
    Flush,
    /// Wait for the next input event.
    ReadEvent,
    /// Switch back from the alternate screen.
    LeaveAlternateScreen,
    /// Switch raw input mode off.
    DisableRawMode,
}

/// What the driver reports of the command it has performed. `E` is the
/// driver's error type; the prompt only carries it through.
#[derive(Debug, PartialEq, Eq)]
pub enum Reply<E> {
    /// The command succeeded.
    Done,
    /// The command succeeded and read this event.
    Input(Event),
    /// The command failed.
    Failed(E),
}

/// How a prompt ends: `Ok(Some(true))` for "Yes", `Ok(Some(false))` for "No",
/// `Ok(None)` when the user cancelled, `Err` when a command failed.
pub type Outcome<E> = Result<Option<bool>, E>;

/// The state of a prompt: the command it waits for, and what it has to
/// remember meanwhile.
#[derive(Debug, PartialEq, Eq)]
pub enum Prompt<E> {
    /// Waiting for raw mode; nothing is engaged yet.
    EnablingRawMode(Selection),
    /// Waiting for the alternate screen; raw mode is on.
    EnteringAlternateScreen(Selection),
    /// Rendering: waiting for the line to be cleared.
    ClearingLine(Selection),
    /// Rendering: waiting for the line to be written.
    PrintingLine(Selection),
    /// Rendering: waiting for the flush.
    Flushing(Selection),
    /// Waiting for the next input event.
    AwaitingInput(Selection),
    /// The outcome is decided; waiting for the alternate screen to be left.
    LeavingAlternateScreen(Outcome<E>),
    /// The outcome is decided; waiting for raw mode to be switched off.
    DisablingRawMode(Outcome<E>),
}

/// Where a prompt stands after a reply.
#[derive(Debug, PartialEq, Eq)]
pub enum Step<E> {
    /// The prompt goes on in this state.
    Next(Prompt<E>),
    /// The prompt is over, with this outcome.
    Finished(Outcome<E>),
}

/// The outcome that stands after one more reply: an earlier failure stays,
/// and a failure now turns an answer into that failure.
pub open spec fn settled<E>(outcome: Outcome<E>, reply: Reply<E>) -> Outcome<E> {
    match outcome {
        Err(first) => Err(first),
        Ok(answer) => match reply {
            Reply::Failed(error) => Err(error),
            _ => Ok(answer),
        },
    }
}

/// The state that follows an input event read while `selection` was marked.
///
/// The press of a key is resolved: a confirmation or a cancellation decides
/// the outcome and starts leaving the modes; anything else renders the line
/// again, with the mark that the key has set. An event that is no key press
/// renders the line again as it was.
pub open spec fn after_input<E>(selection: Selection, event: Event) -> Prompt<E> {
    match event {
        Event::Key(key) => if key.kind == KeyEventKind::Press {
            match resolve(key.code, key.modifiers, selection) {
                KeyAction::Confirm(confirmed) => Prompt::LeavingAlternateScreen(
                    Ok(Some(confirmed.as_bool())),
                ),
                KeyAction::Cancel => Prompt::LeavingAlternateScreen(Ok(None)),
                KeyAction::Continue(marked) => Prompt::ClearingLine(marked),
            }
        } else {
            Prompt::ClearingLine(selection)
        },
        Event::Other => Prompt::ClearingLine(selection),
    }
}

impl<E> Prompt<E> {
    /// The state in which a prompt starts, with "Yes" marked exactly if
    /// `is_yes_initial`.
    pub open spec fn initial(is_yes_initial: bool) -> Prompt<E> {
        Prompt::EnablingRawMode(Selection::of_bool(is_yes_initial))
    }

    /// The command that this state waits for.
    pub open spec fn pending(self) -> Command {
        match self {
            Prompt::EnablingRawMode(_) => Command::EnableRawMode,
            Prompt::EnteringAlternateScreen(_) => Command::EnterAlternateScreen,
            Prompt::ClearingLine(_) => Command::ClearLine,
            Prompt::PrintingLine(selection) => Command::PrintLine(selection),
            Prompt::Flushing(_) => Command::Flush,
            Prompt::AwaitingInput(_) => Command::ReadEvent,
            Prompt::LeavingAlternateScreen(_) => Command::LeaveAlternateScreen,
            Prompt::DisablingRawMode(_) => Command::DisableRawMode,
        }
    }

    /// Where the prompt stands once `reply` has answered the pending command.
    ///
    /// A failure before both modes are engaged undoes what is engaged and
    /// ends the prompt with that failure. A failure while rendering or
    /// reading ends the prompt with that failure, after both modes have been
    /// left. Only the press of a key is interpreted; every other event, and a
    /// reply without an event, renders the line again. While the modes are
    /// being left, the first failure is the one that is kept.
    pub open spec fn next(self, reply: Reply<E>) -> Step<E> {
        match self {
            Prompt::EnablingRawMode(selection) => match reply {
                Reply::Failed(error) => Step::Finished(Err(error)),
                _ => Step::Next(Prompt::EnteringAlternateScreen(selection)),
            },
            Prompt::EnteringAlternateScreen(selection) => match reply {
                Reply::Failed(error) => Step::Next(Prompt::DisablingRawMode(Err(error))),
                _ => Step::Next(Prompt::ClearingLine(selection)),
            },
            Prompt::ClearingLine(selection) => match reply {
                Reply::Failed(error) => Step::Next(Prompt::LeavingAlternateScreen(Err(error))),
                _ => Step::Next(Prompt::PrintingLine(selection)),
            },
            Prompt::PrintingLine(selection) => match reply {
                Reply::Failed(error) => Step::Next(Prompt::LeavingAlternateScreen(Err(error))),
                _ => Step::Next(Prompt::Flushing(selection)),
            },
            Prompt::Flushing(selection) => match reply {
                Reply::Failed(error) => Step::Next(Prompt::LeavingAlternateScreen(Err(error))),
                _ => Step::Next(Prompt::AwaitingInput(selection)),
            },
            Prompt::AwaitingInput(selection) => match reply {
                Reply::Failed(error) => Step::Next(Prompt::LeavingAlternateScreen(Err(error))),
                Reply::Input(event) => Step::Next(after_input(selection, event)),
                Reply::Done => Step::Next(Prompt::ClearingLine(selection)),
            },
            Prompt::LeavingAlternateScreen(outcome) => Step::Next(
                Prompt::DisablingRawMode(settled(outcome, reply)),
            ),
            Prompt::DisablingRawMode(outcome) => Step::Finished(settled(outcome, reply)),
        }
    }

    /// A prompt at its start, with "Yes" marked exactly if `is_yes_initial`.
    pub fn new(is_yes_initial: bool) -> (prompt: Prompt<E>)
        ensures
            prompt == Prompt::<E>::initial(is_yes_initial),
    {
        Prompt::EnablingRawMode(Selection::from(is_yes_initial))
    }

    /// The command that the driver is to perform now.
    pub fn command(&self) -> (command: Command)
        ensures
            command == self.pending(),
    {
        match self {
            Prompt::EnablingRawMode(_) => Command::EnableRawMode,
            Prompt::EnteringAlternateScreen(_) => Command::EnterAlternateScreen,
            Prompt::ClearingLine(_) => Command::ClearLine,
            Prompt::PrintingLine(selection) => Command::PrintLine(*selection),
            Prompt::Flushing(_) => Command::Flush,
            Prompt::AwaitingInput(_) => Command::ReadEvent,
            Prompt::LeavingAlternateScreen(_) => Command::LeaveAlternateScreen,
            Prompt::DisablingRawMode(_) => Command::DisableRawMode,
        }
    }

    /// Takes the driver's reply to the pending command and gives the next
    /// state, or the outcome when the prompt is over.
    pub fn advance(self, reply: Reply<E>) -> (step: Step<E>)
        ensures
            step == self.next(reply),
    {
        match self {
            Prompt::EnablingRawMode(selection) => match reply {
                Reply::Failed(error) => Step::Finished(Err(error)),
                _ => Step::Next(Prompt::EnteringAlternateScreen(selection)),
            },
            Prompt::EnteringAlternateScreen(selection) => match reply {
                Reply::Failed(error) => Step::Next(Prompt::DisablingRawMode(Err(error))),
                _ => Step::Next(Prompt::ClearingLine(selection)),
            },
            Prompt::ClearingLine(selection) => match reply {
                Reply::Failed(error) => Step::Next(Prompt::LeavingAlternateScreen(Err(error))),
                _ => Step::Next(Prompt::PrintingLine(selection)),
            },
            Prompt::PrintingLine(selection) => match reply {
                Reply::Failed(error) => Step::Next(Prompt::LeavingAlternateScreen(Err(error))),
                _ => Step::Next(Prompt::Flushing(selection)),
            },
            Prompt::Flushing(selection) => match reply {
                Reply::Failed(error) => Step::Next(Prompt::LeavingAlternateScreen(Err(error))),
                _ => Step::Next(Prompt::AwaitingInput(selection)),
            },
            Prompt::AwaitingInput(selection) => match reply {
                Reply::Failed(error) => Step::Next(Prompt::LeavingAlternateScreen(Err(error))),
                Reply::Input(event) => Step::Next(on_input(selection, event)),
                Reply::Done => Step::Next(Prompt::ClearingLine(selection)),
            },
            Prompt::LeavingAlternateScreen(outcome) => Step::Next(
                Prompt::DisablingRawMode(settle(outcome, reply)),
            ),
            Prompt::DisablingRawMode(outcome) => Step::Finished(settle(outcome, reply)),
        }
    }
}

/// Keeps an earlier failure, and turns an answer into the failure that
/// `reply` reports, if it reports one.
fn settle<E>(outcome: Outcome<E>, reply: Reply<E>) -> (kept: Outcome<E>)
    ensures
        kept == settled(outcome, reply),
{
    match outcome {
        Err(first) => Err(first),
        Ok(answer) => match reply {
            Reply::Failed(error) => Err(error),
            _ => Ok(answer),
        },
    }
}

/// Interprets an input event that arrived while `selection` was marked.
fn on_input<E>(selection: Selection, event: Event) -> (prompt: Prompt<E>)
    ensures
        prompt == after_input::<E>(selection, event),
{
    match event {
        Event::Key(key) => {
            if key.kind == KeyEventKind::Press {
                match process_key(key.code, key.modifiers, selection) {
                    KeyAction::Confirm(confirmed) => Prompt::LeavingAlternateScreen(
                        Ok(Some(confirmed.as_bool())),
                    ),
                    KeyAction::Cancel => Prompt::LeavingAlternateScreen(Ok(None)),
                    KeyAction::Continue(marked) => Prompt::ClearingLine(marked),
                }
            } else {
                Prompt::ClearingLine(selection)
            }
        },
        Event::Other => Prompt::ClearingLine(selection),
    }
}

} // verus!
