//! The prompt for one choice out of a list.

use vstd::prelude::*;
use crate::interaction::{play, played, Event, Key, PromptInteraction, State};
use crate::theme::{Theme, ThemeState};

verus! {

/// One option of a list: the value it stands for, the label shown for it
/// and a hint shown beside the label while it is highlighted.
#[derive(Clone, PartialEq, Eq, Debug)]
pub struct Item<T> {
    pub value: T,
    pub label: String,
    pub hint: String,
}

/// The highlight after Up: one option higher, or where it was at the top.
pub open spec fn up(index: int) -> int {
    if index > 0 {
        index - 1
    } else {
        index
    }
}

/// The highlight after Down in a list of `len` options: one option lower,
/// or where it was at the bottom.
pub open spec fn down(index: int, len: int) -> int {
    if index + 1 < len {
        index + 1
    } else {
        index
    }
}

/// A move of the highlight.
pub enum Move {
    Up,
    Down,
}

/// The highlight after `moves`, made first to last in a list of `len`
/// options.
pub open spec fn moved(index: int, len: int, moves: Seq<Move>) -> int
    decreases moves.len(),
{
    if moves.len() == 0 {
        index
    } else {
        match moves.last() {
            Move::Up => up(moved(index, len, moves.drop_last())),
            Move::Down => down(moved(index, len, moves.drop_last()), len),
        }
    }
}

/// The highlight does not wrap round: Up at the first option and Down at the
/// last leave it where it is, and a move from inside the list ends inside
/// the list.
pub proof fn lemma_highlight_clamps(index: int, len: int)
    requires
        0 <= index < len,
    ensures
        up(0) == 0,
        down(len - 1, len) == len - 1,
        0 <= up(index) <= index,
        index <= down(index, len) < len,
{
}

/// However many times Up and Down are pressed, in whatever order, the
/// highlight stays on an option of the list.
pub proof fn lemma_highlight_stays_in_list(index: int, len: int, moves: Seq<Move>)
    requires
        0 <= index < len,
    ensures
        0 <= moved(index, len, moves) < len,
    decreases moves.len(),
{
    if moves.len() > 0 {
        lemma_highlight_stays_in_list(index, len, moves.drop_last());
    }
}

/// The lines of `items` in a select prompt whose highlight is on `cursor`.
pub open spec fn option_rows<T>(
    theme: &Theme,
    look: ThemeState,
    items: Seq<Item<T>>,
    cursor: int,
) -> Seq<char>
    decreases items.len(),
{
    if items.len() == 0 {
        Seq::empty()
    } else {
        option_rows(theme, look, items.drop_last(), cursor) + theme.select_item(
            look,
            items.len() - 1 == cursor,
            items.last().label@,
            items.last().hint@,
        )
    }
}

/// A prompt that asks for one of a list of options.
pub struct Select<T> {
    prompt: String,
    items: Vec<Item<T>>,
    cursor: usize,
}

impl<T> Select<T> {
    /// The question.
    pub closed spec fn prompt(&self) -> Seq<char> {
        self.prompt@
    }

    /// The options, in the order in which they were added.
    pub closed spec fn items(&self) -> Seq<Item<T>> {
        self.items@
    }

    /// The index of the highlighted option.
    pub closed spec fn cursor(&self) -> int {
        self.cursor as int
    }

    /// The highlight is on an option of the list, or at 0 while the list is
    /// empty.
    pub open spec fn in_range(&self) -> bool {
        0 <= self.cursor() && (self.cursor() < self.items().len() || self.cursor() == 0)
    }

    /// Whether `next` is this prompt with the highlight on `cursor`.
    pub open spec fn with_cursor(&self, next: &Select<T>, cursor: int) -> bool {
        &&& next.prompt() == self.prompt()
        &&& next.items() == self.items()
        &&& next.cursor() == cursor
    }

    /// A prompt with no options yet.
    pub fn new(prompt: &str) -> (out: Select<T>)
        ensures
            out.in_range(),
            out.prompt() == prompt@,
            out.items() == Seq::<Item<T>>::empty(),
            out.cursor() == 0,
    {
        Select { prompt: prompt.to_owned(), items: Vec::new(), cursor: 0 }
    }

    /// Adds an option to the end of the list.
    pub fn item(self, value: T, label: &str, hint: &str) -> (out: Select<T>)
        requires
            self.in_range(),
        ensures
            out.in_range(),
            out.prompt() == self.prompt(),
            out.cursor() == self.cursor(),
            out.items().len() == self.items().len() + 1,
            out.items().drop_last() == self.items(),
            out.items().last().value == value,
            out.items().last().label@ == label@,
            out.items().last().hint@ == hint@,
    {
        let mut out = self;
        out.items.push(Item { value, label: label.to_owned(), hint: hint.to_owned() });
        assert(out.items@.drop_last() =~= self.items@);
        out
    }

    /// The index of the highlighted option.
    pub fn highlighted(&self) -> (index: usize)
        ensures
            index == self.cursor(),
    {
        self.cursor
    }

    /// The number of options.
    pub fn len(&self) -> (count: usize)
        ensures
            count == self.items().len(),
    {
        self.items.len()
    }
}

impl<T: Clone> Select<T> {
    /// Plays `events` to the prompt as the driver does with the keys it
    /// reads: one after the other until an answer ends the interaction;
    /// events after that are dropped. Gives the state reached.
    /// A prompt without options cannot take Enter.
    pub fn interact(&mut self, events: &Vec<Event>) -> (out: State<T>)
        requires
            old(self).wf(),
            forall|i: int| 0 <= i < events.len() ==> old(self).accepts(#[trigger] events[i]),
        ensures
            final(self).wf(),
            played(*old(self), events@, *final(self), out),
    {
        play(self, events)
    }
}

impl<T: Clone> PromptInteraction<T> for Select<T> {
    open spec fn wf(&self) -> bool {
        self.in_range()
    }

    /// Enter needs an option to submit: a prompt without options takes every
    /// event but that one.
    open spec fn accepts(&self, event: Event) -> bool {
        event == Event::Key(Key::Enter) ==> self.items().len() > 0
    }

    /// Up and Down move the highlight and stop at the ends of the list;
    /// Enter submits a clone of the highlighted option's value; Escape
    /// cancels; nothing else does anything.
    open spec fn step(&self, event: Event, next: &Select<T>, out: State<T>) -> bool {
        match event {
            Event::Key(Key::ArrowUp) => self.with_cursor(next, up(self.cursor())) && out is Active,
            Event::Key(Key::ArrowDown) => self.with_cursor(
                next,
                down(self.cursor(), self.items().len() as int),
            ) && out is Active,
            Event::Key(Key::Enter) => *next == *self && out is Submit && cloned(
                self.items()[self.cursor()].value,
                out->Submit_0,
            ),
            Event::Key(Key::Escape) => *next == *self && out is Cancel,
            _ => *next == *self && out is Active,
        }
    }

    proof fn lemma_step(&self, event: Event, next: &Select<T>, out: State<T>, later: Event) {
    }

    open spec fn frame(&self, state: &State<T>, theme: &Theme) -> Seq<char> {
        theme.header(state.look(), self.prompt()) + option_rows(
            theme,
            state.look(),
            self.items(),
            self.cursor(),
        ) + theme.footer(state.look(), state.message())
    }

    fn render(&self, state: &State<T>, theme: &Theme) -> (out: String) {
        let look = state.theme_state();
        let mut out = theme.format_header(look, self.prompt.as_str());
        let ghost head = out@;
        let mut i: usize = 0;
        assert(self.items@.subrange(0, 0) =~= Seq::empty());
        assert(head + Seq::<char>::empty() =~= head);
        while i < self.items.len()
            invariant
                i <= self.items.len(),
                out@ == head + option_rows(
                    theme,
                    look,
                    self.items@.subrange(0, i as int),
                    self.cursor as int,
                ),
            decreases self.items.len() - i,
        {
            let ghost next = self.items@.subrange(0, i + 1);
            assert(next.drop_last() =~= self.items@.subrange(0, i as int));
            let item = &self.items[i];
            let row = theme.format_select_item(
                look,
                i == self.cursor,
                item.label.as_str(),
                item.hint.as_str(),
            );
            out.append(row.as_str());
            assert(out@ =~= head + option_rows(theme, look, next, self.cursor as int));
            i = i + 1;
        }
        assert(self.items@.subrange(0, self.items@.len() as int) =~= self.items@);
        out.append(theme.format_footer(look, state.error_message()).as_str());
        out
    }

    fn notify(&mut self, event: &Event) -> (out: State<T>) {
        match event {
            Event::Key(key) => match key {
                Key::ArrowUp => {
                    if self.cursor > 0 {
                        self.cursor = self.cursor - 1;
                    }
                },
                Key::ArrowDown => {
                    if self.items.len() - self.cursor > 1 {
                        self.cursor = self.cursor + 1;
                    }
                },
                Key::Enter => {
                    return State::Submit(self.items[self.cursor].value.clone());
                },
                Key::Escape => {
                    return State::Cancel;
                },
                _ => {},
            },
        }
        State::Active
    }
}

} // verus!
