use vstd::prelude::*;

verus! {

/// State of the chat client's user interface.
pub struct App {
    /// Set once the user has asked to leave.
    pub exit: bool,
    /// Lines submitted so far, oldest first.
    pub message_history: Vec<String>,
    /// The line being edited.
    pub input: String,
    /// Position of the cursor in `input`, counted in characters.
    pub character_index_cursor: usize,
}

/// The character key that leaves the client, beside Esc. It cannot be typed
/// into a line.
pub const QUIT_CHAR: char = 'q';

/// A key press, as far as the client tells keys apart.
#[derive(Clone, Copy, Debug, PartialEq, Eq, Structural)]
pub enum Key {
    /// Leaves the client.
    Esc,
    /// Submits the line.
    Enter,
    /// Types a character; `QUIT_CHAR` leaves the client instead.
    Char(char),
    /// Deletes the character before the cursor.
    Backspace,
    /// Moves the cursor one character to the left.
    Left,
    /// Moves the cursor one character to the right.
    Right,
    /// Any other key, which is ignored.
    Other,
}

impl App {
    /// An empty editor with an empty history.
    pub fn new() -> (r: App)
        ensures
            r.input@ == Seq::<char>::empty(),
            r.character_index_cursor == 0,
            r.message_history@ == Seq::<String>::empty(),
            !r.exit,
    {
        App { exit: false, message_history: Vec::new(), input: String::new(), character_index_cursor: 0 }
    }

    /// `post` is `pre` with the exit flag set and all else kept.
    pub open spec fn exit_set(pre: App, post: App) -> bool {
        &&& post.exit
        &&& post.input@ == pre.input@
        &&& post.character_index_cursor == pre.character_index_cursor
        &&& post.message_history@ == pre.message_history@
    }

    /// `post` is `pre` after `key` was pressed.
    pub open spec fn key_handled(pre: App, post: App, key: Key) -> bool {
        match key {
            Key::Esc => App::exit_set(pre, post),
            Key::Enter => App::message_submitted(pre, post),
            Key::Char(c) => if c == QUIT_CHAR {
                App::exit_set(pre, post)
            } else {
                App::char_entered(pre, post, c)
            },
            Key::Backspace => App::char_deleted(pre, post),
            Key::Left => App::moved(pre, post, false),
            Key::Right => App::moved(pre, post, true),
            Key::Other => post == pre,
        }
    }

    /// Reacts to one key press.
    pub fn handle_key_event(&mut self, key: Key)
        ensures
            App::key_handled(*old(self), *final(self), key),
            old(self).cursor_in_bounds() ==> final(self).cursor_in_bounds(),
    {
        match key {
            Key::Esc => self.exit = true,
            Key::Enter => self.submit_message(),
            Key::Char(to_insert) => {
                if to_insert == QUIT_CHAR {
                    self.exit = true;
                } else {
                    self.enter_char(to_insert);
                }
            },
            Key::Backspace => self.delete_char(),
            Key::Left => self.move_cursor_left(),
            Key::Right => self.move_cursor_right(),
            Key::Other => {},
        }
    }
}

impl Default for App {
    fn default() -> (r: App)
        ensures
            r.input@ == Seq::<char>::empty(),
            r.character_index_cursor == 0,
            r.message_history@ == Seq::<String>::empty(),
            !r.exit,
    {
        App::new()
    }
}

} // verus!
