//! A single-line text input with a cursor, as edited in every form and
//! search field of the terminal.
use vstd::prelude::*;
use crate::text::{chars_of, string_from_chars};

verus! {

/// The abstract state of an input: its characters and the cursor position,
/// counted in characters from the start.
pub struct InputView {
    pub text: Seq<char>,
    pub cursor: nat,
}

impl InputView {
    /// The cursor never stands past the end of the text.
    pub open spec fn wf(self) -> bool {
        self.cursor <= self.text.len()
    }

    /// Typing `c` inserts it at the cursor and moves the cursor past it
    /// (a text as long as the address space allows takes no more).
    pub open spec fn enter_char(self, c: char) -> InputView {
        if self.text.len() < usize::MAX {
            InputView { text: self.text.insert(self.cursor as int, c), cursor: self.cursor + 1 }
        } else {
            self
        }
    }

    /// Deleting removes the character before the cursor, if there is one.
    pub open spec fn delete_char(self) -> InputView {
        if self.cursor == 0 {
            self
        } else {
            InputView {
                text: self.text.remove(self.cursor - 1),
                cursor: (self.cursor - 1) as nat,
            }
        }
    }

    /// Clearing empties the text and moves the cursor to the start.
    pub open spec fn delete_all_chars(self) -> InputView {
        InputView { text: Seq::empty(), cursor: 0 }
    }

    /// The cursor moves one character left, stopping at the start.
    pub open spec fn move_cursor_left(self) -> InputView {
        InputView { text: self.text, cursor: if self.cursor == 0 { 0 } else { (self.cursor - 1) as nat } }
    }

    /// The cursor moves one character right, stopping at the end.
    pub open spec fn move_cursor_right(self) -> InputView {
        InputView {
            text: self.text,
            cursor: if self.cursor >= self.text.len() { self.text.len() } else { self.cursor + 1 },
        }
    }

    /// A fresh input holding `text`, with the cursor at its end.
    pub open spec fn with_text(text: Seq<char>) -> InputView {
        InputView { text, cursor: text.len() }
    }
}

/// A text input: its characters and a cursor between them.
pub struct Input {
    chars: Vec<char>,
    cursor: usize,
}

impl View for Input {
    type V = InputView;

    closed spec fn view(&self) -> InputView {
        InputView { text: self.chars@, cursor: self.cursor as nat }
    }
}

impl Input {
    #[verifier::type_invariant]
    closed spec fn inv(self) -> bool {
        self.cursor <= self.chars.len()
    }

    /// An empty input.
    pub fn empty() -> (r: Input)
        ensures
            r@ == InputView::with_text(Seq::empty()),
    {
        Input { chars: Vec::new(), cursor: 0 }
    }

    /// An input holding `value`, with the cursor after its last character.
    pub fn new(value: String) -> (r: Input)
        ensures
            r@ == InputView::with_text(value@),
    {
        let chars = chars_of(value.as_str());
        let cursor = chars.len();
        Input { chars, cursor }
    }

    /// An input holding `chars`, with the cursor after the last one.
    pub fn from_chars(chars: Vec<char>) -> (r: Input)
        ensures
            r@ == InputView::with_text(chars@),
    {
        let cursor = chars.len();
        Input { chars, cursor }
    }

    /// The characters of the input.
    pub fn chars(&self) -> (r: &Vec<char>)
        ensures
            r@ == self@.text,
    {
        &self.chars
    }

    /// The text of the input.
    pub fn value(&self) -> (s: String)
        ensures
            s@ == self@.text,
    {
        string_from_chars(&self.chars)
    }

    /// The text hidden: one `*` for each character.
    pub fn secret_value(&self) -> (s: String)
        ensures
            s@ == Seq::new(self@.text.len(), |i: int| '*'),
    {
        let mut stars: Vec<char> = Vec::new();
        let mut i: usize = 0;
        while i < self.chars.len()
            invariant
                i <= self.chars.len(),
                stars@ == Seq::new(i as nat, |j: int| '*'),
            decreases self.chars.len() - i,
        {
            stars.push('*');
            proof {
                assert(stars@ =~= Seq::new((i + 1) as nat, |j: int| '*'));
            }
            i = i + 1;
        }
        string_from_chars(&stars)
    }

    /// The cursor position, in characters.
    pub fn character_index(&self) -> (i: usize)
        ensures
            i == self@.cursor,
            i <= self@.text.len(),
    {
        proof {
            use_type_invariant(self);
        }
        self.cursor
    }

    /// Whether the input holds no character.
    pub fn is_empty(&self) -> (b: bool)
        ensures
            b == (self@.text.len() == 0),
    {
        self.chars.len() == 0
    }

    /// Inserts `c` at the cursor and moves the cursor past it.
    pub fn enter_char(&mut self, c: char)
        ensures
            final(self)@ == old(self)@.enter_char(c),
            final(self)@.wf(),
    {
        proof {
            use_type_invariant(&*self);
        }
        if self.chars.len() < usize::MAX {
            let i = self.cursor;
            let mut chars: Vec<char> = Vec::new();
            self.cursor = 0;
            std::mem::swap(&mut chars, &mut self.chars);
            chars.insert(i, c);
            *self = Input { chars, cursor: i + 1 };
        }
    }

    /// Removes the character before the cursor, if any.
    pub fn delete_char(&mut self)
        ensures
            final(self)@ == old(self)@.delete_char(),
            final(self)@.wf(),
    {
        proof {
            use_type_invariant(&*self);
        }
        if self.cursor > 0 {
            let i = self.cursor - 1;
            let mut chars: Vec<char> = Vec::new();
            self.cursor = 0;
            std::mem::swap(&mut chars, &mut self.chars);
            chars.remove(i);
            *self = Input { chars, cursor: i };
        }
    }

    /// Empties the input.
    pub fn delete_all_chars(&mut self)
        ensures
            final(self)@ == old(self)@.delete_all_chars(),
            final(self)@.wf(),
    {
        *self = Input::empty();
    }

    /// Moves the cursor one character left, stopping at the start.
    pub fn move_cursor_left(&mut self)
        ensures
            final(self)@ == old(self)@.move_cursor_left(),
            final(self)@.wf(),
    {
        proof {
            use_type_invariant(&*self);
        }
        if self.cursor > 0 {
            self.cursor = self.cursor - 1;
        }
    }

    /// Moves the cursor one character right, stopping at the end.
    pub fn move_cursor_right(&mut self)
        ensures
            final(self)@ == old(self)@.move_cursor_right(),
            final(self)@.wf(),
    {
        proof {
            use_type_invariant(&*self);
        }
        if self.cursor < self.chars.len() {
            self.cursor = self.cursor + 1;
        }
    }
}

/// Deleting right after typing a character gives back the input as it was.
pub proof fn lemma_delete_undoes_enter(v: InputView, c: char)
    requires
        v.wf(),
        v.text.len() < usize::MAX,
    ensures
        v.enter_char(c).delete_char() == v,
{
    assert(v.text.insert(v.cursor as int, c).remove(v.cursor as int) =~= v.text);
}

/// Moving the cursor right and then left comes back to the same place,
/// unless the cursor was already at the end.
pub proof fn lemma_right_then_left(v: InputView)
    requires
        v.wf(),
        v.cursor < v.text.len(),
    ensures
        v.move_cursor_right().move_cursor_left() == v,
{
}

/// Every editing step keeps the cursor within the text.
pub proof fn lemma_edits_keep_cursor_in_text(v: InputView, c: char)
    requires
        v.wf(),
    ensures
        v.enter_char(c).wf(),
        v.delete_char().wf(),
        v.delete_all_chars().wf(),
        v.move_cursor_left().wf(),
        v.move_cursor_right().wf(),
{
}

} // verus!
