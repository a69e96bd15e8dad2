//! The text input buffer: the line that the user is typing, edited at its end.

use vstd::prelude::*;
use vstd::string::*;
use crate::text::string_of;

verus! {

/// The character that the display form shows at the caret.
pub const CARET_MARK: char = '_';

/// A line of text under edit. The caret always stands behind the last
/// character, so the content alone describes the buffer.
#[derive(Clone, Debug, PartialEq, Eq)]
pub struct InputBuffer {
    content: Vec<char>,
}

impl View for InputBuffer {
    type V = Seq<char>;

    /// The characters typed so far, in order.
    closed spec fn view(&self) -> Seq<char> {
        self.content@
    }
}

impl InputBuffer {
    /// An empty buffer.
    pub fn new() -> (buffer: InputBuffer)
        ensures
            buffer@ == Seq::<char>::empty(),
    {
        InputBuffer { content: Vec::new() }
    }

    /// Puts a character in at the caret, that is at the end.
    pub fn insert(&mut self, c: char)
        ensures
            final(self)@ == old(self)@.push(c),
    {
        self.content.push(c);
    }

    /// Takes out the character before the caret. An empty buffer stays as it is.
    pub fn backspace(&mut self)
        ensures
            old(self)@.len() == 0 ==> final(self)@ == old(self)@,
            old(self)@.len() > 0 ==> final(self)@ == old(self)@.drop_last(),
    {
        let _ = self.content.pop();
    }

    /// Empties the buffer.
    pub fn clear(&mut self)
        ensures
            final(self)@ == Seq::<char>::empty(),
    {
        self.content.clear();
    }

    /// The content as a string. The buffer is left as it is.
    pub fn snapshot(&self) -> (text: String)
        ensures
            text@ == self@,
    {
        string_of(&self.content)
    }

    /// Whether nothing has been typed.
    pub fn is_empty(&self) -> (empty: bool)
        ensures
            empty == (self@.len() == 0),
    {
        self.content.len() == 0
    }

    /// The place of the caret: the number of characters before it.
    pub fn caret(&self) -> (at: usize)
        ensures
            at == self@.len(),
    {
        self.content.len()
    }

    /// The content followed by the caret mark, as a screen shows the buffer.
    pub fn display(&self) -> (text: String)
        ensures
            text@ == self@.push(CARET_MARK),
    {
        let mut text = string_of(&self.content);
        text.push(CARET_MARK);
        text
    }

    /// The characters typed so far.
    pub(crate) fn chars(&self) -> (chars: &Vec<char>)
        ensures
            chars@ == self@,
    {
        &self.content
    }
}

} // verus!
