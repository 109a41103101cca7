use vstd::prelude::*;
use crate::key::Key;

verus! {

/// What the event source hands the editor: a key press or a clock tick.
pub enum InputEvent {
    Input(Key),
    Tick,
}

/// Relies on `String::push`, which appends the character at the end.
#[verifier::external_body]
pub(crate) fn append_char(s: &mut String, c: char)
    ensures
        final(s)@ == old(s)@.push(c),
{
    s.push(c)
}

/// Relies on `String::pop`, which removes and returns the last character, or returns
/// `None` and leaves an empty string as it is.
#[verifier::external_body]
fn remove_last_char(s: &mut String) -> (r: Option<char>)
    ensures
        old(s)@.len() == 0 ==> r is None && final(s)@ == old(s)@,
        old(s)@.len() > 0 ==> r == Some(old(s)@.last()) && final(s)@ == old(s)@.drop_last(),
{
    s.pop()
}

/// The text typed while the editor captures input, with a count of characters typed
/// minus those erased since it was made.
pub struct InputBuffer {
    buffer: String,
    index: usize,
}

impl InputBuffer {
    pub closed spec fn text(&self) -> Seq<char> {
        self.buffer@
    }

    pub closed spec fn count(&self) -> nat {
        self.index as nat
    }

    /// The count is never below the length of the text.
    pub open spec fn wf(&self) -> bool {
        self.text().len() <= self.count()
    }

    pub fn new() -> (r: InputBuffer)
        ensures
            r.text() == Seq::<char>::empty(),
            r.count() == 0,
            r.wf(),
    {
        InputBuffer { buffer: String::new(), index: 0 }
    }

    pub fn get_index(&self) -> (r: usize)
        ensures
            r == self.count(),
    {
        self.index
    }

    pub fn get_buffer(&self) -> (r: String)
        ensures
            r@ == self.text(),
    {
        self.buffer.clone()
    }

    /// Hands out the text and empties the buffer; the count stays.
    pub fn get_buffer_drain(&mut self) -> (r: String)
        requires
            old(self).wf(),
        ensures
            r@ == old(self).text(),
            final(self).text() == Seq::<char>::empty(),
            final(self).count() == old(self).count(),
            final(self).wf(),
    {
        let buffer = self.buffer.clone();
        self.buffer = String::new();
        buffer
    }

    pub fn push_char(&mut self, c: char)
        requires
            old(self).wf(),
            old(self).count() < usize::MAX,
        ensures
            final(self).text() == old(self).text().push(c),
            final(self).count() == old(self).count() + 1,
            final(self).wf(),
    {
        append_char(&mut self.buffer, c);
        self.index += 1;
    }

    /// Erases the last character, if any.
    pub fn pop(&mut self)
        requires
            old(self).wf(),
        ensures
            final(self).wf(),
            old(self).text().len() == 0 ==> final(self).text() == old(self).text() && final(self).count()
                == old(self).count(),
            old(self).text().len() > 0 ==> final(self).text() == old(self).text().drop_last()
                && final(self).count() == old(self).count() - 1,
    {
        if remove_last_char(&mut self.buffer).is_some() {
            self.index -= 1;
        }
    }

    /// Empties the text; the count stays.
    pub fn clear(&mut self)
        requires
            old(self).wf(),
        ensures
            final(self).text() == Seq::<char>::empty(),
            final(self).count() == old(self).count(),
            final(self).wf(),
    {
        self.buffer = String::new();
    }
}

} // verus!
