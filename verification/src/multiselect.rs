//! The prompt for any number of choices out of a list.

use vstd::prelude::*;
use crate::interaction::{play, played, Event, Key, PromptInteraction, State};
use crate::select::{down, up, Item};
use crate::theme::{Theme, ThemeState};

verus! {

/// The indices at which `flags` is set, in rising order.
pub open spec fn chosen(flags: Seq<bool>) -> Seq<int>
    decreases flags.len(),
{
    if flags.len() == 0 {
        Seq::empty()
    } else if flags.last() {
        chosen(flags.drop_last()).push(flags.len() - 1)
    } else {
        chosen(flags.drop_last())
    }
}

/// `flags` with the one at `index` turned over; `flags` itself where there
/// is none at `index`.
pub open spec fn toggled(flags: Seq<bool>, index: int) -> Seq<bool> {
    if 0 <= index < flags.len() {
        flags.update(index, !flags[index])
    } else {
        flags
    }
}

/// `flags` after Space on each of `presses`, first to last.
pub open spec fn toggled_all(flags: Seq<bool>, presses: Seq<int>) -> Seq<bool>
    decreases presses.len(),
{
    if presses.len() == 0 {
        flags
    } else {
        toggled(toggled_all(flags, presses.drop_last()), presses.last())
    }
}

/// Whether `values` are clones of the values of `items` at `indices`, one for
/// one and in that order.
pub open spec fn picked<T: Clone>(items: Seq<Item<T>>, indices: Seq<int>, values: Seq<T>) -> bool {
    &&& values.len() == indices.len()
    &&& forall|k: int|
        0 <= k < indices.len() ==> cloned(items[indices[k]].value, #[trigger] values[k])
}

/// The chosen indices are those of the set flags, each once, and they rise.
pub proof fn lemma_chosen_in_list_order(flags: Seq<bool>)
    ensures
        forall|k: int|
            0 <= k < chosen(flags).len() ==> 0 <= #[trigger] chosen(flags)[k] < flags.len()
                && flags[chosen(flags)[k]],
        forall|a: int, b: int|
            0 <= a < b < chosen(flags).len() ==> chosen(flags)[a] < chosen(flags)[b],
        forall|i: int|
            0 <= i < flags.len() && flags[i] ==> exists|k: int|
                0 <= k < chosen(flags).len() && #[trigger] chosen(flags)[k] == i,
    decreases flags.len(),
{
    if flags.len() > 0 {
        let head = flags.drop_last();
        lemma_chosen_in_list_order(head);
        assert forall|i: int| 0 <= i < flags.len() && flags[i] implies exists|k: int|
            0 <= k < chosen(flags).len() && #[trigger] chosen(flags)[k] == i by {
            if i < flags.len() - 1 {
                assert(head[i]);
                let k = choose|k: int| 0 <= k < chosen(head).len() && #[trigger] chosen(head)[k] == i;
                assert(chosen(flags)[k] == i);
            } else {
                assert(chosen(flags)[chosen(flags).len() - 1] == i);
            }
        }
    }
}

/// Space twice on one option leaves the selection as it was.
pub proof fn lemma_toggle_twice(flags: Seq<bool>, index: int)
    ensures
        toggled(toggled(flags, index), index) == flags,
{
    assert(toggled(toggled(flags, index), index) =~= flags);
}

/// Space on two options selects the same whichever comes first.
pub proof fn lemma_toggles_commute(flags: Seq<bool>, first: int, second: int)
    ensures
        toggled(toggled(flags, first), second) == toggled(toggled(flags, second), first),
{
    assert(toggled(toggled(flags, first), second) =~= toggled(toggled(flags, second), first));
}

/// After any presses of Space, an option is selected or not according to
/// how often it was pressed: an odd number of presses turns it over, an
/// even number leaves it.
pub proof fn lemma_toggled_all_by_count(flags: Seq<bool>, presses: Seq<int>, index: int)
    requires
        0 <= index < flags.len(),
    ensures
        toggled_all(flags, presses).len() == flags.len(),
        toggled_all(flags, presses)[index] == (flags[index] != (presses.to_multiset().count(index)
            % 2 == 1)),
    decreases presses.len(),
{
    broadcast use vstd::seq_lib::group_to_multiset_ensures;

    if presses.len() == 0 {
    } else {
        lemma_toggled_all_by_count(flags, presses.drop_last(), index);
        assert(presses.drop_last().push(presses.last()) =~= presses);
    }
}

/// The selection depends on which options were pressed and how often, not
/// on the order of the presses: two runs of presses that are rearrangements
/// of one another select the same options, so a submission lists the same
/// values in the same order after either.
pub proof fn lemma_selection_ignores_order(flags: Seq<bool>, one: Seq<int>, other: Seq<int>)
    requires
        one.to_multiset() == other.to_multiset(),
    ensures
        toggled_all(flags, one) == toggled_all(flags, other),
        chosen(toggled_all(flags, one)) == chosen(toggled_all(flags, other)),
{
    lemma_toggled_all_len(flags, one);
    lemma_toggled_all_len(flags, other);
    assert forall|i: int| 0 <= i < flags.len() implies toggled_all(flags, one)[i] == toggled_all(
        flags,
        other,
    )[i] by {
        lemma_toggled_all_by_count(flags, one, i);
        lemma_toggled_all_by_count(flags, other, i);
    }
    assert(toggled_all(flags, one) =~= toggled_all(flags, other));
}

/// Presses of Space neither add options nor remove any.
pub proof fn lemma_toggled_all_len(flags: Seq<bool>, presses: Seq<int>)
    ensures
        toggled_all(flags, presses).len() == flags.len(),
    decreases presses.len(),
{
    if presses.len() > 0 {
        lemma_toggled_all_len(flags, presses.drop_last());
    }
}

/// The lines of `items` in a multi-select prompt with the selection `flags`
/// and the highlight on `cursor`.
pub open spec fn check_rows<T>(
    theme: &Theme,
    look: ThemeState,
    items: Seq<Item<T>>,
    flags: Seq<bool>,
    cursor: int,
) -> Seq<char>
    decreases items.len(),
{
    if items.len() == 0 {
        Seq::empty()
    } else {
        check_rows(theme, look, items.drop_last(), flags, cursor) + theme.multiselect_item(
            look,
            flags[items.len() - 1],
            items.len() - 1 == cursor,
            items.last().label@,
            items.last().hint@,
        )
    }
}

/// A prompt that asks for any number of a list of options.
pub struct MultiSelect<T> {
    prompt: String,
    items: Vec<Item<T>>,
    selected: Vec<bool>,
    cursor: usize,
}

impl<T> MultiSelect<T> {
    /// The question.
    pub closed spec fn prompt(&self) -> Seq<char> {
        self.prompt@
    }

    /// The options, in the order in which they were added.
    pub closed spec fn items(&self) -> Seq<Item<T>> {
        self.items@
    }

    /// For each option, whether it is selected.
    pub closed spec fn flags(&self) -> Seq<bool> {
        self.selected@
    }

    /// The index of the highlighted option.
    pub closed spec fn cursor(&self) -> int {
        self.cursor as int
    }

    /// There is one flag for each option, and the highlight is on an option
    /// of the list, or at 0 while the list is empty.
    pub open spec fn in_range(&self) -> bool {
        &&& self.flags().len() == self.items().len()
        &&& 0 <= self.cursor()
        &&& self.cursor() < self.items().len() || self.cursor() == 0
    }

    /// Whether `next` is this prompt with the highlight on `cursor` and the
    /// selection `flags`.
    pub open spec fn with_marks(&self, next: &MultiSelect<T>, cursor: int, flags: Seq<bool>) -> bool {
        &&& next.prompt() == self.prompt()
        &&& next.items() == self.items()
        &&& next.cursor() == cursor
        &&& next.flags() == flags
    }

    /// A prompt with no options yet.
    pub fn new(prompt: &str) -> (out: MultiSelect<T>)
        ensures
            out.in_range(),
            out.prompt() == prompt@,
            out.items() == Seq::<Item<T>>::empty(),
            out.flags() == Seq::<bool>::empty(),
            out.cursor() == 0,
    {
        MultiSelect {
            prompt: prompt.to_owned(),
            items: Vec::new(),
            selected: Vec::new(),
            cursor: 0,
        }
    }

    /// Adds an option to the end of the list, not selected.
    pub fn item(self, value: T, label: &str, hint: &str) -> (out: MultiSelect<T>)
        requires
            self.in_range(),
        ensures
            out.in_range(),
            out.prompt() == self.prompt(),
            out.cursor() == self.cursor(),
            out.items().len() == self.items().len() + 1,
            out.items().drop_last() == self.items(),
            out.items().last().value == value,
            out.items().last().label@ == label@,
            out.items().last().hint@ == hint@,
            out.flags() == self.flags().push(false),
    {
        let mut out = self;
        out.items.push(Item { value, label: label.to_owned(), hint: hint.to_owned() });
        out.selected.push(false);
        assert(out.items@.drop_last() =~= self.items@);
        out
    }

    /// The index of the highlighted option.
    pub fn highlighted(&self) -> (index: usize)
        ensures
            index == self.cursor(),
    {
        self.cursor
    }

    /// Whether the option at `index` is selected.
    pub fn is_selected(&self, index: usize) -> (on: bool)
        requires
            self.in_range(),
        ensures
            on == (index < self.flags().len() && self.flags()[index as int]),
    {
        index < self.selected.len() && self.selected[index]
    }
}

impl<T: Clone> MultiSelect<T> {
    /// Clones of the values of the selected options, in the order of the
    /// list.
    pub fn selection(&self) -> (values: Vec<T>)
        requires
            self.in_range(),
        ensures
            picked(self.items(), chosen(self.flags()), values@),
    {
        let mut values: Vec<T> = Vec::new();
        let mut i: usize = 0;
        assert(self.selected@.subrange(0, 0) =~= Seq::empty());
        while i < self.items.len()
            invariant
                i <= self.items.len(),
                self.selected.len() == self.items.len(),
                picked(self.items@, chosen(self.selected@.subrange(0, i as int)), values@),
            decreases self.items.len() - i,
        {
            let ghost seen = self.selected@.subrange(0, i as int);
            let ghost next = self.selected@.subrange(0, i + 1);
            assert(next.drop_last() =~= seen);
            assert(next.last() == self.selected@[i as int]);
            if self.selected[i] {
                values.push(self.items[i].value.clone());
            }
            i = i + 1;
        }
        assert(self.selected@.subrange(0, self.selected@.len() as int) =~= self.selected@);
        values
    }
}

impl<T: Clone> MultiSelect<T> {
    /// Plays `events` to the prompt as the driver does with the keys it
    /// reads: one after the other until an answer ends the interaction;
    /// events after that are dropped. Gives the state reached.
    pub fn interact(&mut self, events: &Vec<Event>) -> (out: State<Vec<T>>)
        requires
            old(self).wf(),
        ensures
            final(self).wf(),
            played(*old(self), events@, *final(self), out),
    {
        play(self, events)
    }
}

impl<T: Clone> PromptInteraction<Vec<T>> for MultiSelect<T> {
    open spec fn wf(&self) -> bool {
        self.in_range()
    }

    /// A multi-select prompt takes every event: with nothing selected, or
    /// nothing to select, Enter submits an empty list.
    open spec fn accepts(&self, event: Event) -> bool {
        true
    }

    /// Up and Down move the highlight and stop at the ends of the list;
    /// Space turns the selection of the highlighted option over; Enter
    /// submits clones of the selected values in the order of the list;
    /// Escape cancels; nothing else does anything.
    open spec fn step(&self, event: Event, next: &MultiSelect<T>, out: State<Vec<T>>) -> bool {
        match event {
            Event::Key(Key::ArrowUp) => self.with_marks(next, up(self.cursor()), self.flags())
                && out is Active,
            Event::Key(Key::ArrowDown) => self.with_marks(
                next,
                down(self.cursor(), self.items().len() as int),
                self.flags(),
            ) && out is Active,
            Event::Key(Key::Char(' ')) => self.with_marks(
                next,
                self.cursor(),
                toggled(self.flags(), self.cursor()),
            ) && out is Active,
            Event::Key(Key::Enter) => *next == *self && out is Submit && picked(
                self.items(),
                chosen(self.flags()),
                out->Submit_0@,
            ),
            Event::Key(Key::Escape) => *next == *self && out is Cancel,
            _ => *next == *self && out is Active,
        }
    }

    proof fn lemma_step(
        &self,
        event: Event,
        next: &MultiSelect<T>,
        out: State<Vec<T>>,
        later: Event,
    ) {
    }

    open spec fn frame(&self, state: &State<Vec<T>>, theme: &Theme) -> Seq<char> {
        theme.header(state.look(), self.prompt()) + check_rows(
            theme,
            state.look(),
            self.items(),
            self.flags(),
            self.cursor(),
        ) + theme.footer(state.look(), state.message())
    }

    fn render(&self, state: &State<Vec<T>>, theme: &Theme) -> (out: String) {
        let look = state.theme_state();
        let mut out = theme.format_header(look, self.prompt.as_str());
        let ghost head = out@;
        let mut i: usize = 0;
        assert(self.items@.subrange(0, 0) =~= Seq::empty());
        assert(head + Seq::<char>::empty() =~= head);
        while i < self.items.len()
            invariant
                i <= self.items.len(),
                self.selected.len() == self.items.len(),
                out@ == head + check_rows(
                    theme,
                    look,
                    self.items@.subrange(0, i as int),
                    self.selected@,
                    self.cursor as int,
                ),
            decreases self.items.len() - i,
        {
            let ghost next = self.items@.subrange(0, i + 1);
            assert(next.drop_last() =~= self.items@.subrange(0, i as int));
            let item = &self.items[i];
            let row = theme.format_multiselect_item(
                look,
                self.selected[i],
                i == self.cursor,
                item.label.as_str(),
                item.hint.as_str(),
            );
            out.append(row.as_str());
            assert(out@ =~= head + check_rows(
                theme,
                look,
                next,
                self.selected@,
                self.cursor as int,
            ));
            i = i + 1;
        }
        assert(self.items@.subrange(0, self.items@.len() as int) =~= self.items@);
        out.append(theme.format_footer(look, state.error_message()).as_str());
        out
    }

    fn notify(&mut self, event: &Event) -> (out: State<Vec<T>>) {
        match event {
            Event::Key(key) => match key {
                Key::ArrowUp => {
                    if self.cursor > 0 {
                        self.cursor = self.cursor - 1;
                    }
                },
                Key::ArrowDown => {
                    if self.items.len() - self.cursor > 1 {
                        self.cursor = self.cursor + 1;
                    }
                },
                Key::Char(' ') => {
                    if self.cursor < self.selected.len() {
                        let on = self.selected[self.cursor];
                        self.selected.set(self.cursor, !on);
                    }
                },
                Key::Enter => {
                    return State::Submit(self.selection());
                },
                Key::Escape => {
                    return State::Cancel;
                },
                _ => {},
            },
        }
        State::Active
    }
}

} // verus!
