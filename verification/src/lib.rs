//! An interactive yes/no prompt for the terminal, with its decisions verified.
//!
//! The prompt shows a question on one line with two check boxes, `Yes` and
//! `No`. The arrow keys move the mark, Enter confirms the marked answer,
//! Escape answers "No", and Ctrl+C cancels.
//!
//! This crate holds everything the prompt decides. It touches no terminal:
//! a driver performs the [`Command`] that the [`Prompt`] asks for and reports
//! back with a [`Reply`].

pub mod key;
pub mod prompt;
pub mod render;
pub mod resolver;
pub mod selection;
pub mod session;

pub use key::{Event, KeyCode, KeyEvent, KeyEventKind, KeyModifiers, Modifier};
pub use prompt::{Command, Outcome, Prompt, Reply, Step};
pub use render::render_line;
pub use resolver::{process_key, KeyAction};
pub use selection::Selection;
