use vstd::prelude::*;

verus! {

/// The abstract state of a text field: its characters and the cursor,
/// an index into them counted in characters.
pub struct EditState {
    pub text: Seq<char>,
    pub cursor: nat,
}

impl EditState {
    pub open spec fn wf(self) -> bool {
        self.cursor <= self.text.len()
    }

    pub open spec fn insert_char(self, c: char) -> EditState {
        EditState { text: self.text.insert(self.cursor as int, c), cursor: self.cursor + 1 }
    }

    pub open spec fn insert_str(self, s: Seq<char>) -> EditState {
        EditState {
            text: self.text.take(self.cursor as int) + s + self.text.skip(self.cursor as int),
            cursor: self.cursor + s.len(),
        }
    }

    pub open spec fn delete(self) -> EditState {
        if self.cursor < self.text.len() {
            EditState { text: self.text.remove(self.cursor as int), cursor: self.cursor }
        } else {
            self
        }
    }

    pub open spec fn left(self) -> EditState {
        if self.cursor > 0 {
            EditState { text: self.text, cursor: (self.cursor - 1) as nat }
        } else {
            self
        }
    }

    pub open spec fn right(self) -> EditState {
        if self.cursor < self.text.len() {
            EditState { text: self.text, cursor: self.cursor + 1 }
        } else {
            self
        }
    }

    pub open spec fn backspace(self) -> EditState {
        if self.cursor > 0 {
            self.left().delete()
        } else {
            self
        }
    }

    pub open spec fn home(self) -> EditState {
        EditState { text: self.text, cursor: 0 }
    }

    pub open spec fn end(self) -> EditState {
        EditState { text: self.text, cursor: self.text.len() }
    }

    pub open spec fn with_text(s: Seq<char>) -> EditState {
        EditState { text: s, cursor: s.len() }
    }
}

/// Every operation keeps the cursor within `0..=text.len()`, and a fresh
/// field or one whose text was just set starts within it.
pub proof fn lemma_cursor_stays_in_bounds(s: EditState, c: char, t: Seq<char>)
    requires
        s.wf(),
    ensures
        (EditState { text: Seq::empty(), cursor: 0 }).wf(),
        EditState::with_text(t).wf(),
        EditState::with_text(s.text + t).wf(),
        s.insert_char(c).wf(),
        s.insert_str(t).wf(),
        s.delete().wf(),
        s.left().wf(),
        s.right().wf(),
        s.backspace().wf(),
        s.home().wf(),
        s.end().wf(),
{
}

/// Inserting a character and then erasing it with backspace gives back
/// the same text and cursor.
pub proof fn lemma_insert_then_backspace(s: EditState, c: char)
    requires
        s.wf(),
    ensures
        s.insert_char(c).backspace() == s,
{
    let t = s.text.insert(s.cursor as int, c);
    assert(t.remove(s.cursor as int) =~= s.text);
}

/// `home` puts the cursor at the start, and `end` after it puts the cursor
/// at the end of the unchanged text.
pub proof fn lemma_home_then_end(s: EditState)
    ensures
        s.home().cursor == 0,
        s.home().end().cursor == s.text.len(),
        s.home().end().text == s.text,
{
}

#[derive(Clone, Copy, Debug, PartialEq, Eq, Structural)]
pub enum TextFieldError {
    InvalidIndexPosition,
}

impl TextFieldError {
    /// A sentence that describes the error.
    pub fn message(&self) -> (r: String)
        ensures
            r@ == "Invalid index position"@,
    {
        match self {
            TextFieldError::InvalidIndexPosition => String::from_str("Invalid index position"),
        }
    }
}

/// A single-line text buffer with a cursor, addressed by character.
#[derive(Clone, Debug)]
pub struct TextField {
    text: Vec<char>,
    index: usize,
}

impl View for TextField {
    type V = EditState;

    closed spec fn view(&self) -> EditState {
        EditState { text: self.text@, cursor: self.index as nat }
    }
}

/// Relies on String::push: the character is appended at the end.
#[verifier::external_body]
fn push_char(s: &mut String, c: char)
    ensures
        final(s)@ == old(s)@.push(c),
{
    s.push(c)
}

/// The characters of a string, in order.
fn chars_of(s: &String) -> (r: Vec<char>)
    ensures
        r@ == s@,
{
    let n: usize = s.as_str().unicode_len();
    let mut r: Vec<char> = Vec::new();
    let mut i: usize = 0;
    while i < n
        invariant
            n == s@.len(),
            i <= n,
            r@ == s@.take(i as int),
        decreases n - i,
    {
        r.push(s.as_str().get_char(i));
        i = i + 1;
        assert(r@ =~= s@.take(i as int));
    }
    assert(r@ =~= s@);
    r
}

impl Default for TextField {
    fn default() -> (r: TextField)
        ensures
            r@ == (EditState { text: Seq::empty(), cursor: 0 }),
    {
        TextField::new()
    }
}

impl TextField {
    pub fn new() -> (r: TextField)
        ensures
            r@ == (EditState { text: Seq::empty(), cursor: 0 }),
    {
        TextField { text: Vec::new(), index: 0 }
    }

    /// Replaces the contents; the cursor moves to the end.
    pub fn set_text(&mut self, text: &String)
        ensures
            final(self)@ == EditState::with_text(text@),
    {
        self.text = chars_of(text);
        self.index = self.text.len();
    }

    pub fn is_empty(&self) -> (r: bool)
        ensures
            r == (self@.text.len() == 0),
    {
        self.text.len() == 0
    }

    pub fn index(&self) -> (r: usize)
        ensures
            r == self@.cursor,
    {
        self.index
    }

    /// Moves the cursor to `index`, which must not pass the end of the text.
    pub fn set_index(&mut self, index: usize) -> (r: Result<(), TextFieldError>)
        ensures
            r is Ok <==> index <= old(self)@.text.len(),
            r is Ok ==> final(self)@ == (EditState { text: old(self)@.text, cursor: index as nat }),
            r is Err ==> final(self)@ == old(self)@ && r == Err::<(), TextFieldError>(TextFieldError::InvalidIndexPosition),
    {
        if index <= self.text.len() {
            self.index = index;
            Ok(())
        } else {
            Err(TextFieldError::InvalidIndexPosition)
        }
    }

    /// Empties the text; the cursor returns to the start.
    pub fn clear(&mut self)
        ensures
            final(self)@ == (EditState { text: Seq::empty(), cursor: 0 }),
    {
        self.text = Vec::new();
        self.index = 0;
    }

    /// Adds a character at the end of the text; the cursor moves to the end.
    pub fn append_character(&mut self, character: char)
        ensures
            final(self)@ == EditState::with_text(old(self)@.text.push(character)),
    {
        self.text.push(character);
        self.index = self.text.len();
    }

    /// Adds a string at the end of the text; the cursor moves to the end.
    pub fn append_string(&mut self, another_string: &String)
        ensures
            final(self)@ == EditState::with_text(old(self)@.text + another_string@),
    {
        let added = chars_of(another_string);
        let mut i: usize = 0;
        while i < added.len()
            invariant
                i <= added.len(),
                self.text@ == old(self).text@ + added@.take(i as int),
            decreases added.len() - i,
        {
            self.text.push(added[i]);
            i = i + 1;
            assert(self.text@ =~= old(self).text@ + added@.take(i as int));
        }
        assert(added@.take(added.len() as int) =~= added@);
        self.index = self.text.len();
    }

    /// Inserts a character at the cursor and moves the cursor past it.
    pub fn insert_character(&mut self, character: char)
        requires
            old(self)@.wf(),
        ensures
            final(self)@ == old(self)@.insert_char(character),
    {
        self.text.insert(self.index, character);
        let n: usize = self.text.len();
        assert(self.index < n);
        self.index = self.index + 1;
    }

    /// Inserts a string at the cursor and moves the cursor past it.
    pub fn insert_string(&mut self, another_string: &String)
        requires
            old(self)@.wf(),
        ensures
            final(self)@ == old(self)@.insert_str(another_string@),
    {
        let added = chars_of(another_string);
        let ghost start = self.index as int;
        let mut i: usize = 0;
        while i < added.len()
            invariant
                i <= added.len(),
                self.index == start + i,
                self.text@ == old(self).text@.take(start) + added@.take(i as int) + old(self).text@.skip(start),
                0 <= start <= old(self).text@.len(),
            decreases added.len() - i,
        {
            self.text.insert(self.index, added[i]);
            let n: usize = self.text.len();
            assert(self.index < n);
            self.index = self.index + 1;
            i = i + 1;
            assert(self.text@ =~= old(self).text@.take(start) + added@.take(i as int) + old(self).text@.skip(start));
        }
        assert(added@.take(added.len() as int) =~= added@);
    }

    /// Moves the cursor one character to the left, if it is not at the start.
    pub fn left(&mut self)
        ensures
            final(self)@ == old(self)@.left(),
    {
        if self.index > 0 {
            self.index = self.index - 1;
        }
    }

    /// Moves the cursor one character to the right, if it is not at the end.
    pub fn right(&mut self)
        ensures
            final(self)@ == old(self)@.right(),
    {
        if self.index < self.text.len() {
            self.index = self.index + 1;
        }
    }

    /// Removes the character under the cursor, if there is one.
    pub fn delete(&mut self)
        ensures
            final(self)@ == old(self)@.delete(),
    {
        if self.index < self.text.len() {
            self.text.remove(self.index);
        }
    }

    /// Removes the character left of the cursor, if there is one.
    pub fn backspace(&mut self)
        ensures
            final(self)@ == old(self)@.backspace(),
    {
        if self.index > 0 {
            self.left();
            self.delete();
        }
    }

    pub fn end(&mut self)
        ensures
            final(self)@ == old(self)@.end(),
    {
        self.index = self.text.len();
    }

    pub fn home(&mut self)
        ensures
            final(self)@ == old(self)@.home(),
    {
        self.index = 0;
    }

    pub fn text(&self) -> (r: String)
        ensures
            r@ == self@.text,
    {
        let mut r = String::new();
        let mut i: usize = 0;
        while i < self.text.len()
            invariant
                i <= self.text.len(),
                r@ == self.text@.take(i as int),
            decreases self.text.len() - i,
        {
            push_char(&mut r, self.text[i]);
            i = i + 1;
            assert(r@ =~= self.text@.take(i as int));
        }
        assert(r@ =~= self.text@);
        r
    }
}

} // verus!
