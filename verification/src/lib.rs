//! Hand a shell command off to a new herdr tab, rooted at the directory that is selected in a file
//! tree.
//!
//! The library decides everything about the gesture and performs none of it: it edits the prompt,
//! keeps the session's command history, picks the directory, builds the two herdr command lines and
//! reads the host's answers. Running herdr is the caller's part. A
//! [`Controller`](controller::Controller) says through a [`Step`](controller::runner::Step) which
//! host call comes next, and is told how it went.
//!
//! * [`runner`]: the argument vectors, the tab label, the history and its walk.
//! * [`prompt`]: the one-line editor in which the command is typed.
//! * [`controller`]: the session's state, and what each key and each host answer does to it.
//! * [`laws`]: what holds of the library as a whole.

pub mod controller;
pub mod input;
pub mod launch;
pub mod laws;
pub mod paths;
pub mod prompt;
pub mod runner;
pub mod text;
pub mod tree;
