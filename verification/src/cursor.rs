//! An editable line of text with a caret.

use vstd::prelude::*;

verus! {

/// `String::push` appends one character to the end of the string.
pub assume_specification[ String::push ](s: &mut String, c: char)
    ensures
        final(s)@ == old(s)@.push(c),
;

/// The mathematical model of a [`StringCursor`]: the characters and the
/// position of the caret among them.
pub struct Buffer {
    pub text: Seq<char>,
    pub caret: int,
}

/// One editing step on a [`Buffer`].
pub enum Edit {
    Insert(char),
    DeleteLeft,
    DeleteRight,
    MoveLeft,
    MoveRight,
}

impl Buffer {
    /// The caret stands between two characters, before the first or after the last.
    pub open spec fn wf(self) -> bool {
        0 <= self.caret <= self.text.len()
    }

    /// No text, the caret at 0.
    pub open spec fn empty() -> Buffer {
        Buffer { text: Seq::empty(), caret: 0 }
    }

    /// `c` put in at the caret, the caret moved past it.
    pub open spec fn insert(self, c: char) -> Buffer {
        Buffer { text: self.text.insert(self.caret, c), caret: self.caret + 1 }
    }

    /// The character before the caret removed; nothing at the start.
    pub open spec fn delete_left(self) -> Buffer {
        if self.caret > 0 {
            Buffer { text: self.text.remove(self.caret - 1), caret: self.caret - 1 }
        } else {
            self
        }
    }

    /// The character under the caret removed; nothing at the end.
    pub open spec fn delete_right(self) -> Buffer {
        if self.caret < self.text.len() {
            Buffer { text: self.text.remove(self.caret), caret: self.caret }
        } else {
            self
        }
    }

    /// The caret one character to the left; nothing at the start.
    pub open spec fn move_left(self) -> Buffer {
        if self.caret > 0 {
            Buffer { text: self.text, caret: self.caret - 1 }
        } else {
            self
        }
    }

    /// The caret one character to the right; nothing at the end.
    pub open spec fn move_right(self) -> Buffer {
        if self.caret < self.text.len() {
            Buffer { text: self.text, caret: self.caret + 1 }
        } else {
            self
        }
    }

    /// `tail` added at the end, the caret where it was.
    pub open spec fn extend(self, tail: Seq<char>) -> Buffer {
        Buffer { text: self.text + tail, caret: self.caret }
    }

    /// The buffer after one edit.
    pub open spec fn apply(self, edit: Edit) -> Buffer {
        match edit {
            Edit::Insert(c) => self.insert(c),
            Edit::DeleteLeft => self.delete_left(),
            Edit::DeleteRight => self.delete_right(),
            Edit::MoveLeft => self.move_left(),
            Edit::MoveRight => self.move_right(),
        }
    }

    /// The buffer after the edits, applied first to last.
    pub open spec fn apply_all(self, edits: Seq<Edit>) -> Buffer
        decreases edits.len(),
    {
        if edits.len() == 0 {
            self
        } else {
            self.apply_all(edits.drop_last()).apply(edits.last())
        }
    }

    /// The characters before the caret.
    pub open spec fn before(self) -> Seq<char> {
        self.text.subrange(0, self.caret)
    }

    /// The characters from the caret on.
    pub open spec fn after(self) -> Seq<char> {
        self.text.subrange(self.caret, self.text.len() as int)
    }

    /// The character under the caret, if the caret is not at the end.
    pub open spec fn current(self) -> Option<char> {
        if self.caret < self.text.len() {
            Some(self.text[self.caret])
        } else {
            None
        }
    }

    /// The character under the caret, or a space where the caret stands at
    /// the end: what a terminal shows in the caret's cell.
    pub open spec fn cell(self) -> Seq<char> {
        match self.current() {
            Some(c) => seq![c],
            None => seq![' '],
        }
    }

    /// The characters after the one under the caret.
    pub open spec fn rest(self) -> Seq<char> {
        if self.caret < self.text.len() {
            self.text.subrange(self.caret + 1, self.text.len() as int)
        } else {
            Seq::empty()
        }
    }

    /// The same buffer with every character replaced by `mask`.
    pub open spec fn masked(self, mask: char) -> Buffer {
        Buffer { text: Seq::new(self.text.len(), |i: int| mask), caret: self.caret }
    }

    /// By how many characters `edit` makes the text longer: 1 for an
    /// insertion, -1 for a deletion that finds a character, else 0.
    pub open spec fn growth(self, edit: Edit) -> int {
        match edit {
            Edit::Insert(_) => 1,
            Edit::DeleteLeft => if self.caret > 0 { -1 } else { 0 },
            Edit::DeleteRight => if self.caret < self.text.len() { -1 } else { 0 },
            Edit::MoveLeft => 0,
            Edit::MoveRight => 0,
        }
    }

    /// Every edit leaves the caret inside the text, and changes the length
    /// of the text by its growth.
    pub proof fn lemma_apply_wf(self, edit: Edit)
        requires
            self.wf(),
        ensures
            self.apply(edit).wf(),
            self.apply(edit).text.len() == self.text.len() + self.growth(edit),
    {
    }

    /// After any sequence of insertions, deletions and moves the caret is
    /// still within `[0, length]`.
    pub proof fn lemma_apply_all_wf(self, edits: Seq<Edit>)
        requires
            self.wf(),
        ensures
            self.apply_all(edits).wf(),
        decreases edits.len(),
    {
        if edits.len() > 0 {
            self.lemma_apply_all_wf(edits.drop_last());
            self.apply_all(edits.drop_last()).lemma_apply_wf(edits.last());
        }
    }

    /// What each edit does to the text on either side of the caret. The
    /// text is what stands before the caret followed by what stands from it
    /// on. Inserting adds to the end of the first part. Deleting leftwards
    /// takes the last character of the first part, deleting rightwards the
    /// first of the second. A move carries one character from one part to
    /// the other. At the start there is nothing to delete leftwards or to
    /// move over, and at the end nothing rightwards.
    pub proof fn lemma_edits_by_halves(self, c: char)
        requires
            self.wf(),
        ensures
            self.text == self.before() + self.after(),
            self.insert(c).before() == self.before().push(c),
            self.insert(c).after() == self.after(),
            self.caret > 0 ==> self.delete_left().before() == self.before().drop_last(),
            self.caret > 0 ==> self.delete_left().after() == self.after(),
            self.caret == 0 ==> self.delete_left() == self && self.move_left() == self,
            self.caret < self.text.len() ==> self.delete_right().before() == self.before(),
            self.caret < self.text.len() ==> self.delete_right().after()
                == self.after().drop_first(),
            self.caret == self.text.len() ==> self.delete_right() == self && self.move_right()
                == self,
            self.caret > 0 ==> self.move_left().before() == self.before().drop_last(),
            self.caret > 0 ==> self.move_left().after() == seq![self.before().last()]
                + self.after(),
            self.caret < self.text.len() ==> self.move_right().before() == self.before().push(
                self.after().first(),
            ),
            self.caret < self.text.len() ==> self.move_right().after()
                == self.after().drop_first(),
    {
        assert(self.text =~= self.before() + self.after());
        assert(self.insert(c).before() =~= self.before().push(c));
        assert(self.insert(c).after() =~= self.after());
        if self.caret > 0 {
            assert(self.delete_left().before() =~= self.before().drop_last());
            assert(self.delete_left().after() =~= self.after());
            assert(self.move_left().before() =~= self.before().drop_last());
            assert(self.move_left().after() =~= seq![self.before().last()] + self.after());
        }
        if self.caret < self.text.len() {
            assert(self.delete_right().before() =~= self.before());
            assert(self.delete_right().after() =~= self.after().drop_first());
            assert(self.move_right().before() =~= self.before().push(self.after().first()));
            assert(self.move_right().after() =~= self.after().drop_first());
        }
    }

    /// Masking keeps the length of the text and the place of the caret, and
    /// leaves nothing but the mask to be seen.
    pub proof fn lemma_masked_keeps_shape(self, mask: char)
        ensures
            self.masked(mask).text.len() == self.text.len(),
            self.masked(mask).caret == self.caret,
            self.wf() ==> self.masked(mask).wf(),
            forall|i: int| 0 <= i < self.text.len() ==> self.masked(mask).text[i] == mask,
    {
    }
}

/// A line of text being edited, with the caret's position in it.
pub struct StringCursor {
    value: Vec<char>,
    cursor: usize,
}

impl View for StringCursor {
    type V = Buffer;

    closed spec fn view(&self) -> Buffer {
        Buffer { text: self.value@, caret: self.cursor as int }
    }
}

impl StringCursor {
    /// The caret is inside the text.
    pub open spec fn wf(&self) -> bool {
        self@.wf()
    }

    /// An empty buffer with the caret at 0.
    pub fn new() -> (out: StringCursor)
        ensures
            out@ == Buffer::empty(),
            out.wf(),
    {
        StringCursor { value: Vec::new(), cursor: 0 }
    }

    /// The number of characters.
    pub fn len(&self) -> (n: usize)
        ensures
            n == self@.text.len(),
    {
        self.value.len()
    }

    /// Whether there is no text.
    pub fn is_empty(&self) -> (b: bool)
        ensures
            b == (self@.text.len() == 0),
    {
        self.value.len() == 0
    }

    /// The caret's position, counted in characters from the start.
    pub fn cursor(&self) -> (at: usize)
        ensures
            at == self@.caret,
    {
        self.cursor
    }

    /// Puts `c` at the caret and moves the caret past it.
    pub fn insert(&mut self, c: char)
        requires
            old(self).wf(),
        ensures
            final(self)@ == old(self)@.insert(c),
            final(self).wf(),
    {
        self.value.insert(self.cursor, c);
        assert(self.cursor < self.value.len());
        self.cursor = self.cursor + 1;
    }

    /// Removes the character before the caret; does nothing at the start.
    pub fn delete_left(&mut self)
        requires
            old(self).wf(),
        ensures
            final(self)@ == old(self)@.delete_left(),
            final(self).wf(),
    {
        if self.cursor > 0 {
            self.cursor = self.cursor - 1;
            self.value.remove(self.cursor);
        }
    }

    /// Removes the character under the caret; does nothing at the end.
    pub fn delete_right(&mut self)
        requires
            old(self).wf(),
        ensures
            final(self)@ == old(self)@.delete_right(),
            final(self).wf(),
    {
        if self.cursor < self.value.len() {
            self.value.remove(self.cursor);
        }
    }

    /// Moves the caret one character left; stays at the start.
    pub fn move_left(&mut self)
        requires
            old(self).wf(),
        ensures
            final(self)@ == old(self)@.move_left(),
            final(self).wf(),
    {
        if self.cursor > 0 {
            self.cursor = self.cursor - 1;
        }
    }

    /// Appends `tail` to the end of the text; the caret stays where it is.
    pub fn extend(&mut self, tail: &str)
        requires
            old(self).wf(),
        ensures
            final(self)@ == old(self)@.extend(tail@),
            final(self).wf(),
    {
        let mut rest = tail.chars();
        let ghost start = self.value@;
        for c in iter: rest
            invariant
                iter.seq() == tail@,
                self.value@ == start + tail@.subrange(0, iter.index()),
                self.cursor == old(self).cursor,
                start == old(self).value@,
        {
            self.value.push(c);
        }
        assert(tail@.subrange(0, tail@.len() as int) =~= tail@);
    }

    /// The characters from `from` up to `to`.
    fn slice(&self, from: usize, to: usize) -> (out: String)
        requires
            from <= to <= self@.text.len(),
        ensures
            out@ == self@.text.subrange(from as int, to as int),
    {
        let mut out = String::new();
        let mut i: usize = from;
        while i < to
            invariant
                from <= i <= to <= self.value.len(),
                out@ == self.value@.subrange(from as int, i as int),
            decreases to - i,
        {
            out.push(self.value[i]);
            i = i + 1;
        }
        out
    }

    /// The text before the caret.
    pub fn before(&self) -> (out: String)
        requires
            self.wf(),
        ensures
            out@ == self@.before(),
    {
        self.slice(0, self.cursor)
    }

    /// The text from the caret on.
    pub fn after(&self) -> (out: String)
        requires
            self.wf(),
        ensures
            out@ == self@.after(),
    {
        self.slice(self.cursor, self.value.len())
    }

    /// The character under the caret, if the caret is not at the end.
    pub fn current(&self) -> (out: Option<char>)
        requires
            self.wf(),
        ensures
            out == self@.current(),
    {
        if self.cursor < self.value.len() {
            Some(self.value[self.cursor])
        } else {
            None
        }
    }

    /// What the caret's cell shows: the character under it, or a space.
    pub fn cell(&self) -> (out: String)
        requires
            self.wf(),
        ensures
            out@ == self@.cell(),
    {
        let mut out = String::new();
        match self.current() {
            Some(c) => out.push(c),
            None => out.push(' '),
        }
        assert(out@ =~= self@.cell());
        out
    }

    /// The text after the character under the caret.
    pub fn rest(&self) -> (out: String)
        requires
            self.wf(),
        ensures
            out@ == self@.rest(),
    {
        if self.cursor < self.value.len() {
            self.slice(self.cursor + 1, self.value.len())
        } else {
            String::new()
        }
    }

    /// The same line with `mask` in place of every character: as long as
    /// this one, with the caret where this one has it.
    pub fn masked(&self, mask: char) -> (out: StringCursor)
        requires
            self.wf(),
        ensures
            out@ == self@.masked(mask),
            out.wf(),
    {
        let mut value: Vec<char> = Vec::new();
        let mut i: usize = 0;
        while i < self.value.len()
            invariant
                i <= self.value.len(),
                value@ == Seq::new(i as nat, |k: int| mask),
            decreases self.value.len() - i,
        {
            value.push(mask);
            assert(value@ =~= Seq::new((i + 1) as nat, |k: int| mask));
            i = i + 1;
        }
        StringCursor { value, cursor: self.cursor }
    }

    /// The whole text.
    pub fn to_string(&self) -> (out: String)
        ensures
            out@ == self@.text,
    {
        let out = self.slice(0, self.value.len());
        assert(self.value@.subrange(0, self.value@.len() as int) =~= self.value@);
        out
    }

    /// Moves the caret one character right; stays at the end.
    pub fn move_right(&mut self)
        requires
            old(self).wf(),
        ensures
            final(self)@ == old(self)@.move_right(),
            final(self).wf(),
    {
        if self.cursor < self.value.len() {
            self.cursor = self.cursor + 1;
        }
    }
}

impl Default for StringCursor {
    fn default() -> (out: StringCursor)
        ensures
            out@ == Buffer::empty(),
            out.wf(),
    {
        StringCursor::new()
    }
}

} // verus!
