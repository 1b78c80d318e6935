use vstd::prelude::*;
use vstd::string::*;
use vstd::utf8::encode_utf8;

use crate::app::App;

verus! {

/// `pos` brought into `[0, len]`.
pub open spec fn clamped(pos: int, len: int) -> int {
    if pos < 0 {
        0
    } else if pos > len {
        len
    } else {
        pos
    }
}

/// Where a cursor at `cursor` in a text of `len` characters stands after one
/// step to the right (`right`) or to the left.
pub open spec fn cursor_after_move(cursor: int, len: int, right: bool) -> int {
    if right {
        clamped(cursor + 1, len)
    } else {
        clamped(cursor - 1, len)
    }
}

/// Where the cursor stands after each step of `moves` in turn, `true` being a
/// step to the right.
pub open spec fn cursor_after_moves(cursor: int, len: int, moves: Seq<bool>) -> int
    decreases moves.len(),
{
    if moves.len() == 0 {
        cursor
    } else {
        cursor_after_moves(
            cursor_after_move(cursor, len, moves[0]),
            len,
            moves.subrange(1, moves.len() as int),
        )
    }
}

/// `text` with `c` put before its `cursor`-th character; at the end where the
/// cursor lies past it.
pub open spec fn text_after_insert(text: Seq<char>, cursor: int, c: char) -> Seq<char> {
    let k = clamped(cursor, text.len() as int);
    text.take(k) + seq![c] + text.skip(k)
}

/// The cursor after an insertion: one step to the right in the longer text.
pub open spec fn cursor_after_insert(text: Seq<char>, cursor: int) -> int {
    clamped(cursor + 1, text.len() + 1int)
}

/// `text` without the character just before the cursor; unchanged when the
/// cursor is at the start or more than one place past the end.
pub open spec fn text_after_delete(text: Seq<char>, cursor: int) -> Seq<char> {
    if cursor <= 0 {
        text
    } else {
        text.take(clamped(cursor - 1, text.len() as int)) + text.skip(
            clamped(cursor, text.len() as int),
        )
    }
}

/// The cursor after a deletion: one step to the left in the shorter text.
pub open spec fn cursor_after_delete(text: Seq<char>, cursor: int) -> int {
    if cursor <= 0 {
        cursor
    } else {
        clamped(cursor - 1, text_after_delete(text, cursor).len() as int)
    }
}

/// Relies on `String::push`: the character is appended to the end of the string.
#[verifier::external_body]
fn push_char(s: &mut String, c: char)
    ensures
        final(s)@ == old(s)@.push(c),
{
    s.push(c)
}

impl App {
    /// The cursor lies within the text or right after its last character.
    pub open spec fn cursor_in_bounds(&self) -> bool {
        self.character_index_cursor <= self.input@.len()
    }

    /// `post` is `pre` with the cursor moved one step to the right (`right`) or left.
    pub open spec fn moved(pre: App, post: App, right: bool) -> bool {
        &&& post.input@ == pre.input@
        &&& post.message_history@ == pre.message_history@
        &&& post.exit == pre.exit
        &&& post.character_index_cursor == cursor_after_move(
            pre.character_index_cursor as int,
            pre.input@.len() as int,
            right,
        )
    }

    /// `post` is `pre` with `c` typed at the cursor.
    pub open spec fn char_entered(pre: App, post: App, c: char) -> bool {
        &&& post.input@ == text_after_insert(pre.input@, pre.character_index_cursor as int, c)
        &&& post.character_index_cursor == cursor_after_insert(
            pre.input@,
            pre.character_index_cursor as int,
        )
        &&& post.message_history@ == pre.message_history@
        &&& post.exit == pre.exit
    }

    /// `post` is `pre` after a backspace.
    pub open spec fn char_deleted(pre: App, post: App) -> bool {
        &&& post.input@ == text_after_delete(pre.input@, pre.character_index_cursor as int)
        &&& post.character_index_cursor == cursor_after_delete(
            pre.input@,
            pre.character_index_cursor as int,
        )
        &&& post.message_history@ == pre.message_history@
        &&& post.exit == pre.exit
    }

    /// `post` is `pre` after the line was submitted: the history gains the
    /// line at its end and the editor is emptied.
    pub open spec fn message_submitted(pre: App, post: App) -> bool {
        &&& post.message_history@ == pre.message_history@.push(pre.input)
        &&& post.input@ == Seq::<char>::empty()
        &&& post.character_index_cursor == 0
        &&& post.exit == pre.exit
    }

    /// `new_cursor_pos` bounded by the number of characters of the text.
    pub fn clamp_cursor(&self, new_cursor_pos: usize) -> (r: usize)
        ensures
            r == clamped(new_cursor_pos as int, self.input@.len() as int),
            self.input@.len() <= usize::MAX,
    {
        let n = self.input.as_str().unicode_len();
        if new_cursor_pos < n {
            new_cursor_pos
        } else {
            n
        }
    }

    /// One character to the left, stopping at the start.
    pub fn move_cursor_left(&mut self)
        ensures
            App::moved(*old(self), *final(self), false),
            final(self).cursor_in_bounds(),
    {
        let moved_left = if self.character_index_cursor == 0 {
            0
        } else {
            self.character_index_cursor - 1
        };
        self.character_index_cursor = self.clamp_cursor(moved_left);
    }

    /// One character to the right, stopping after the last character.
    pub fn move_cursor_right(&mut self)
        ensures
            App::moved(*old(self), *final(self), true),
            final(self).cursor_in_bounds(),
    {
        let moved_right = if self.character_index_cursor == usize::MAX {
            usize::MAX
        } else {
            self.character_index_cursor + 1
        };
        self.character_index_cursor = self.clamp_cursor(moved_right);
    }

    /// Offset in bytes, in the UTF-8 encoding of the text, of the character
    /// under the cursor; the length of the whole encoding where the cursor is
    /// at or past the end.
    pub fn byte_index(&self) -> (r: usize)
        ensures
            r == encode_utf8(
                self.input@.take(
                    clamped(self.character_index_cursor as int, self.input@.len() as int),
                ),
            ).len() as usize,
    {
        let k = self.clamp_cursor(self.character_index_cursor);
        self.input.as_str().substring_char(0, k).len()
    }

    /// Puts `new_char` before the cursor and moves the cursor past it.
    pub fn enter_char(&mut self, new_char: char)
        ensures
            App::char_entered(*old(self), *final(self), new_char),
            final(self).cursor_in_bounds(),
            old(self).cursor_in_bounds() ==> final(self).character_index_cursor
                == old(self).character_index_cursor + 1,
    {
        let n = self.input.as_str().unicode_len();
        let k = self.clamp_cursor(self.character_index_cursor);
        let mut text = String::from_str(self.input.as_str().substring_char(0, k));
        push_char(&mut text, new_char);
        text.append(self.input.as_str().substring_char(k, n));
        self.input = text;
        assert(self.input@ =~= text_after_insert(
            old(self).input@,
            old(self).character_index_cursor as int,
            new_char,
        ));
        self.move_cursor_right();
    }

    /// Backspace: removes the character before the cursor and moves the
    /// cursor onto its place; nothing happens with the cursor at the start.
    pub fn delete_char(&mut self)
        ensures
            App::char_deleted(*old(self), *final(self)),
            final(self).cursor_in_bounds(),
            old(self).character_index_cursor == 0 ==> *final(self) == *old(self),
            old(self).cursor_in_bounds() && old(self).input@.len() == 0 ==> *final(self)
                == *old(self),
            old(self).cursor_in_bounds() && old(self).character_index_cursor > 0 ==> {
                &&& final(self).input@ == old(self).input@.remove(
                    old(self).character_index_cursor - 1,
                )
                &&& final(self).character_index_cursor == old(self).character_index_cursor - 1
            },
    {
        if self.character_index_cursor != 0 {
            let n = self.input.as_str().unicode_len();
            let current = self.clamp_cursor(self.character_index_cursor);
            let before = self.clamp_cursor(self.character_index_cursor - 1);
            let mut text = String::from_str(self.input.as_str().substring_char(0, before));
            text.append(self.input.as_str().substring_char(current, n));
            self.input = text;
            self.move_cursor_left();
            assert(old(self).cursor_in_bounds() ==> self.input@ =~= old(self).input@.remove(
                old(self).character_index_cursor - 1,
            ));
        }
    }

    /// Puts the cursor at the start of the text.
    pub fn reset_cursor(&mut self)
        ensures
            final(self).character_index_cursor == 0,
            final(self).input == old(self).input,
            final(self).message_history == old(self).message_history,
            final(self).exit == old(self).exit,
    {
        self.character_index_cursor = 0;
    }

    /// Appends the line to the history, even an empty one, and empties the editor.
    pub fn submit_message(&mut self)
        ensures
            App::message_submitted(*old(self), *final(self)),
            final(self).message_history@.len() == old(self).message_history@.len() + 1,
            final(self).message_history@.last()@ == old(self).input@,
    {
        self.message_history.push(self.input.clone());
        self.input = String::new();
        self.reset_cursor();
    }
}

/// Whatever steps left and right are taken, a cursor that starts within the
/// text stays within it.
pub proof fn lemma_moves_keep_cursor_in_bounds(cursor: int, len: int, moves: Seq<bool>)
    requires
        0 <= cursor <= len,
    ensures
        0 <= cursor_after_moves(cursor, len, moves) <= len,
    decreases moves.len(),
{
    if moves.len() > 0 {
        lemma_moves_keep_cursor_in_bounds(
            cursor_after_move(cursor, len, moves[0]),
            len,
            moves.subrange(1, moves.len() as int),
        );
    }
}

/// A backspace right after typing a character, any character at any cursor
/// position within the text, gives back the text and the cursor as they were.
pub proof fn lemma_delete_undoes_insert(text: Seq<char>, cursor: int, c: char)
    requires
        0 <= cursor <= text.len(),
    ensures
        text_after_delete(
            text_after_insert(text, cursor, c),
            cursor_after_insert(text, cursor),
        ) == text,
        cursor_after_delete(text_after_insert(text, cursor, c), cursor_after_insert(text, cursor))
            == cursor,
{
    let t = text_after_insert(text, cursor, c);
    assert(t.take(cursor) =~= text.take(cursor));
    assert(t.skip(cursor + 1) =~= text.skip(cursor));
    assert(text.take(cursor) + text.skip(cursor) =~= text);
}

} // verus!
