//! Whole runs of the prompt, and what holds of every one of them.
//!
//! A run is the prompt together with the replies that a driver gives it, in
//! order. Beside the prompt's own state, a run keeps book of the terminal as
//! the driver's commands leave it, so that the laws below speak of the
//! commands alone and not of what the prompt believes.

use crate::prompt::{Command, Outcome, Prompt, Reply, Step};
use vstd::prelude::*;

verus! {

/// The terminal modes that are engaged: entered with success, and the command
/// that leaves them not yet performed.
///
/// This keeps book of the driver's calls, in pairs. A mode counts as left
/// once the command that leaves it has been performed, whatever its reply:
/// the prompt performs that command once and does not try again, and where
/// the terminal itself refuses to leave a mode the outcome is a failure (see
/// [`lemma_first_failure_is_the_outcome`]).
pub struct Modes {
    pub raw_mode: bool,
    pub alternate_screen: bool,
}

impl Modes {
    /// No mode is engaged: the terminal as the prompt found it.
    pub open spec fn none() -> Modes {
        Modes { raw_mode: false, alternate_screen: false }
    }

    /// Whether `command` is in order while these modes are engaged: a mode is
    /// entered only while it is off and left only while it is on, the
    /// alternate screen lies inside raw mode, and the line is rendered and
    /// input is read only inside both.
    pub open spec fn admits(self, command: Command) -> bool {
        match command {
            Command::EnableRawMode => !self.raw_mode && !self.alternate_screen,
            Command::EnterAlternateScreen => self.raw_mode && !self.alternate_screen,
            Command::ClearLine => self.raw_mode && self.alternate_screen,
            Command::PrintLine(_) => self.raw_mode && self.alternate_screen,
            Command::Flush => self.raw_mode && self.alternate_screen,
            Command::ReadEvent => self.raw_mode && self.alternate_screen,
            Command::LeaveAlternateScreen => self.raw_mode && self.alternate_screen,
            Command::DisableRawMode => self.raw_mode && !self.alternate_screen,
        }
    }

    /// The modes that are engaged once `command` has been performed. A mode
    /// is entered only if its command succeeded.
    pub open spec fn after(self, command: Command, succeeded: bool) -> Modes {
        match command {
            Command::EnableRawMode => Modes { raw_mode: self.raw_mode || succeeded, ..self },
            Command::EnterAlternateScreen => Modes {
                alternate_screen: self.alternate_screen || succeeded,
                ..self
            },
            Command::LeaveAlternateScreen => Modes { alternate_screen: false, ..self },
            Command::DisableRawMode => Modes { raw_mode: false, ..self },
            _ => self,
        }
    }
}

/// What is known of a run after some replies.
pub struct Session<E> {
    /// Where the prompt stands.
    pub step: Step<E>,
    /// The modes that the commands performed so far have left engaged.
    pub modes: Modes,
    /// Whether each command so far was in order when it was performed.
    pub orderly: bool,
    /// The first failure among the replies taken so far.
    pub failure: Option<E>,
}

/// The failure that `reply` reports, if it is one.
pub open spec fn failure_of<E>(reply: Reply<E>) -> Option<E> {
    match reply {
        Reply::Failed(error) => Some(error),
        _ => None,
    }
}

/// The run of a prompt that starts with "Yes" marked exactly if
/// `is_yes_initial`, after the driver has given `replies` in order. Replies
/// that come after the prompt is over are not taken.
pub open spec fn session<E>(is_yes_initial: bool, replies: Seq<Reply<E>>) -> Session<E>
    decreases replies.len(),
{
    if replies.len() == 0 {
        Session {
            step: Step::Next(Prompt::initial(is_yes_initial)),
            modes: Modes::none(),
            orderly: true,
            failure: None,
        }
    } else {
        let before = session(is_yes_initial, replies.drop_last());
        match before.step {
            Step::Finished(_) => before,
            Step::Next(prompt) => Session {
                step: prompt.next(replies.last()),
                modes: before.modes.after(prompt.pending(), failure_of(replies.last()) is None),
                orderly: before.orderly && before.modes.admits(prompt.pending()),
                failure: if before.failure is Some {
                    before.failure
                } else {
                    failure_of(replies.last())
                },
            },
        }
    }
}

impl<E> Prompt<E> {
    /// The modes that are engaged while the prompt is in this state.
    pub open spec fn engaged(self) -> Modes {
        match self {
            Prompt::EnablingRawMode(_) => Modes::none(),
            Prompt::EnteringAlternateScreen(_) => Modes { raw_mode: true, alternate_screen: false },
            Prompt::DisablingRawMode(_) => Modes { raw_mode: true, alternate_screen: false },
            _ => Modes { raw_mode: true, alternate_screen: true },
        }
    }
}

/// Every run leaves the terminal as it found it.
///
/// Whatever the driver replies, each command of the prompt is in order when
/// it comes, the modes engaged are those of the prompt's state, and when the
/// prompt is over (with an answer, cancelled, or with a failure) no mode is
/// engaged any more: each mode that was entered has been left, once, the
/// alternate screen before raw mode.
pub proof fn lemma_terminal_is_handed_back<E>(is_yes_initial: bool, replies: Seq<Reply<E>>)
    ensures
        session(is_yes_initial, replies).orderly,
        match session(is_yes_initial, replies).step {
            Step::Next(prompt) => {
                &&& session(is_yes_initial, replies).modes == prompt.engaged()
                &&& prompt.engaged().admits(prompt.pending())
            },
            Step::Finished(_) => session(is_yes_initial, replies).modes == Modes::none(),
        },
    decreases replies.len(),
{
    if replies.len() > 0 {
        lemma_terminal_is_handed_back(is_yes_initial, replies.drop_last());
    }
}

/// Whether `outcome` is the failure `failure`, or no failure where there is
/// none.
pub open spec fn outcome_tells<E>(outcome: Outcome<E>, failure: Option<E>) -> bool {
    match failure {
        Some(error) => outcome == Err::<Option<bool>, E>(error),
        None => outcome is Ok,
    }
}

/// No failure is lost, and none is made up.
///
/// When the prompt is over, its outcome is the first failure that the driver
/// reported, if it reported any, and an answer or a cancellation otherwise.
/// Until the first failure the prompt has no outcome but one that a key press
/// decided.
pub proof fn lemma_first_failure_is_the_outcome<E>(is_yes_initial: bool, replies: Seq<Reply<E>>)
    ensures
        match session(is_yes_initial, replies).step {
            Step::Finished(outcome) => outcome_tells(
                outcome,
                session(is_yes_initial, replies).failure,
            ),
            Step::Next(Prompt::LeavingAlternateScreen(outcome)) => outcome_tells(
                outcome,
                session(is_yes_initial, replies).failure,
            ),
            Step::Next(Prompt::DisablingRawMode(outcome)) => outcome_tells(
                outcome,
                session(is_yes_initial, replies).failure,
            ),
            Step::Next(_) => session(is_yes_initial, replies).failure is None,
        },
    decreases replies.len(),
{
    if replies.len() > 0 {
        lemma_first_failure_is_the_outcome(is_yes_initial, replies.drop_last());
    }
}

} // verus!
