//! Front-end state of a terminal chat client: a single-line input editor
//! with a character-indexed cursor, the history of submitted lines, and the
//! partition of the terminal area into the client's three panels.

use vstd::prelude::*;

pub mod app;
pub mod input_methods;
pub mod layout;

pub use app::{App, Key, QUIT_CHAR};
pub use layout::{Area, Axis, Rule};

