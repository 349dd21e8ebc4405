//! The editable line: a character sequence with a cursor, and the cursor
//! motions of a line editor.

use vstd::prelude::*;

verus! {

/// Mathematical model of the editable line.
#[verifier::ext_equal]
pub ghost struct BufModel {
    pub chars: Seq<char>,
    pub cursor: nat,
}

impl BufModel {
    /// The cursor always stays inside the line: `0 <= cursor <= len`.
    pub open spec fn wf(self) -> bool {
        self.cursor <= self.chars.len()
    }
}

/// A word character for word motion: an ASCII letter or digit.
pub open spec fn is_word_char(c: char) -> bool {
    (48 <= c as u32 && c as u32 <= 57) || (97 <= c as u32 && c as u32 <= 122) || (65 <= c as u32
        && c as u32 <= 90)
}

/// Cursor position after skipping non-word characters leftwards from `i`.
pub open spec fn skip_gap_back(s: Seq<char>, i: nat) -> nat
    decreases i,
{
    if i > 0 && i <= s.len() && !is_word_char(s[i - 1]) {
        skip_gap_back(s, (i - 1) as nat)
    } else {
        i
    }
}

/// Cursor position after skipping word characters leftwards from `i`.
pub open spec fn skip_word_back(s: Seq<char>, i: nat) -> nat
    decreases i,
{
    if i > 0 && i <= s.len() && is_word_char(s[i - 1]) {
        skip_word_back(s, (i - 1) as nat)
    } else {
        i
    }
}

/// Cursor position after skipping non-word characters rightwards from `i`.
pub open spec fn skip_gap_fwd(s: Seq<char>, i: nat) -> nat
    decreases s.len() - i,
{
    if i < s.len() && !is_word_char(s[i as int]) {
        skip_gap_fwd(s, i + 1)
    } else {
        i
    }
}

/// Cursor position after skipping word characters rightwards from `i`.
pub open spec fn skip_word_fwd(s: Seq<char>, i: nat) -> nat
    decreases s.len() - i,
{
    if i < s.len() && is_word_char(s[i as int]) {
        skip_word_fwd(s, i + 1)
    } else {
        i
    }
}

/// The line after inserting `c` at the cursor.
pub open spec fn insert_model(b: BufModel, c: char) -> BufModel {
    BufModel { chars: b.chars.insert(b.cursor as int, c), cursor: b.cursor + 1 }
}

/// The line after deleting the character before the cursor (no-op at the left
/// edge).
pub open spec fn delete_model(b: BufModel) -> BufModel {
    if b.cursor == 0 {
        b
    } else {
        BufModel { chars: b.chars.remove(b.cursor - 1), cursor: (b.cursor - 1) as nat }
    }
}

/// The line after moving the cursor to the left edge.
pub open spec fn home_model(b: BufModel) -> BufModel {
    BufModel { chars: b.chars, cursor: 0 }
}

/// The line after moving the cursor to the right edge.
pub open spec fn end_model(b: BufModel) -> BufModel {
    BufModel { chars: b.chars, cursor: b.chars.len() }
}

/// The line after moving the cursor one step left, clamped at the edge.
pub open spec fn left_model(b: BufModel) -> BufModel {
    BufModel { chars: b.chars, cursor: if b.cursor > 0 { (b.cursor - 1) as nat } else { 0 } }
}

/// The line after moving the cursor one step right, clamped at the edge.
pub open spec fn right_model(b: BufModel) -> BufModel {
    BufModel {
        chars: b.chars,
        cursor: if b.cursor < b.chars.len() { b.cursor + 1 } else { b.chars.len() },
    }
}

/// The line after a backward word motion: skip the gap, then the word.
pub open spec fn word_backward_model(b: BufModel) -> BufModel {
    BufModel { chars: b.chars, cursor: skip_word_back(b.chars, skip_gap_back(b.chars, b.cursor)) }
}

/// The line after a forward word motion: skip the gap, then the word.
pub open spec fn word_forward_model(b: BufModel) -> BufModel {
    BufModel { chars: b.chars, cursor: skip_word_fwd(b.chars, skip_gap_fwd(b.chars, b.cursor)) }
}

/// The editable character sequence and its cursor.
pub struct TextBuffer {
    pub characters: Vec<char>,
    pub cursor: usize,
}

impl View for TextBuffer {
    type V = BufModel;

    open spec fn view(&self) -> BufModel {
        BufModel { chars: self.characters@, cursor: self.cursor as nat }
    }
}

/// Decides whether `c` is a word character (an ASCII letter or digit).
pub fn word_char(c: char) -> (r: bool)
    ensures
        r == is_word_char(c),
{
    let u = c as u32;
    (48 <= u && u <= 57) || (97 <= u && u <= 122) || (65 <= u && u <= 90)
}

impl TextBuffer {
    /// An empty line with the cursor at its left edge.
    pub fn new() -> (r: TextBuffer)
        ensures
            r@.wf(),
            r@.chars.len() == 0,
            r@.cursor == 0,
    {
        TextBuffer { characters: Vec::new(), cursor: 0 }
    }

    /// Inserts `c` at the cursor and steps the cursor past it.
    pub fn insert(&mut self, c: char)
        requires
            old(self)@.wf(),
            old(self)@.chars.len() < usize::MAX,
        ensures
            final(self)@.wf(),
            final(self)@ == insert_model(old(self)@, c),
    {
        self.characters.insert(self.cursor, c);
        self.cursor = self.cursor + 1;
    }

    /// Deletes the character before the cursor; a no-op at the left edge.
    pub fn delete_before_cursor(&mut self)
        requires
            old(self)@.wf(),
        ensures
            final(self)@.wf(),
            final(self)@ == delete_model(old(self)@),
    {
        if self.cursor == 0 {
            return ;
        }
        self.characters.remove(self.cursor - 1);
        self.cursor = self.cursor - 1;
    }

    /// Moves the cursor to the left edge.
    pub fn move_home(&mut self)
        requires
            old(self)@.wf(),
        ensures
            final(self)@.wf(),
            final(self)@ == home_model(old(self)@),
    {
        self.cursor = 0;
    }

    /// Moves the cursor to the right edge.
    pub fn move_end(&mut self)
        requires
            old(self)@.wf(),
        ensures
            final(self)@.wf(),
            final(self)@ == end_model(old(self)@),
    {
        self.cursor = self.characters.len();
    }

    /// Moves the cursor one step left, clamped at the edge.
    pub fn move_left(&mut self)
        requires
            old(self)@.wf(),
        ensures
            final(self)@.wf(),
            final(self)@ == left_model(old(self)@),
    {
        if self.cursor > 0 {
            self.cursor = self.cursor - 1;
        }
    }

    /// Moves the cursor one step right, clamped at the edge.
    pub fn move_right(&mut self)
        requires
            old(self)@.wf(),
        ensures
            final(self)@.wf(),
            final(self)@ == right_model(old(self)@),
    {
        if self.cursor < self.characters.len() {
            self.cursor = self.cursor + 1;
        }
    }

    /// Moves the cursor to the start of the previous word: first skips the
    /// non-word characters to the left, then the word characters to the left.
    pub fn move_word_backward(&mut self)
        requires
            old(self)@.wf(),
        ensures
            final(self)@.wf(),
            final(self)@ == word_backward_model(old(self)@),
    {
        let ghost s = self@.chars;
        let ghost c0 = self@.cursor;
        while self.cursor > 0 && !word_char(self.characters[self.cursor - 1])
            invariant
                self.characters@ == s,
                self.cursor <= s.len(),
                skip_gap_back(s, c0) == skip_gap_back(s, self.cursor as nat),
            decreases self.cursor,
        {
            self.cursor = self.cursor - 1;
        }
        assert(skip_gap_back(s, self.cursor as nat) == self.cursor as nat);
        let ghost g = self.cursor as nat;
        while self.cursor > 0 && word_char(self.characters[self.cursor - 1])
            invariant
                self.characters@ == s,
                self.cursor <= s.len(),
                skip_word_back(s, g) == skip_word_back(s, self.cursor as nat),
            decreases self.cursor,
        {
            self.cursor = self.cursor - 1;
        }
        assert(skip_word_back(s, self.cursor as nat) == self.cursor as nat);
    }

    /// Moves the cursor past the next word: first skips the non-word
    /// characters to the right, then the word characters to the right.
    pub fn move_word_forward(&mut self)
        requires
            old(self)@.wf(),
        ensures
            final(self)@.wf(),
            final(self)@ == word_forward_model(old(self)@),
    {
        let ghost s = self@.chars;
        let ghost c0 = self@.cursor;
        while self.cursor < self.characters.len() && !word_char(self.characters[self.cursor])
            invariant
                self.characters@ == s,
                self.cursor <= s.len(),
                skip_gap_fwd(s, c0) == skip_gap_fwd(s, self.cursor as nat),
            decreases s.len() - self.cursor,
        {
            self.cursor = self.cursor + 1;
        }
        assert(skip_gap_fwd(s, self.cursor as nat) == self.cursor as nat);
        let ghost g = self.cursor as nat;
        while self.cursor < self.characters.len() && word_char(self.characters[self.cursor])
            invariant
                self.characters@ == s,
                self.cursor <= s.len(),
                skip_word_fwd(s, g) == skip_word_fwd(s, self.cursor as nat),
            decreases s.len() - self.cursor,
        {
            self.cursor = self.cursor + 1;
        }
        assert(skip_word_fwd(s, self.cursor as nat) == self.cursor as nat);
    }
}

/// Moving to the left edge twice in a row leaves the same line as moving once.
pub proof fn lemma_move_home_idempotent(b: BufModel)
    ensures
        home_model(home_model(b)) == home_model(b),
{
}

/// Inserting a character and then deleting before the cursor restores the
/// line exactly.
pub proof fn lemma_insert_delete_round_trip(b: BufModel, c: char)
    requires
        b.wf(),
    ensures
        delete_model(insert_model(b, c)) == b,
{
    let ins = insert_model(b, c);
    assert(ins.cursor > 0);
    assert(ins.chars.remove(ins.cursor - 1) =~= b.chars);
    assert(delete_model(ins) =~= b);
}

} // verus!
