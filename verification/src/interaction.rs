//! What a prompt is told and what it answers: key events in, interaction
//! states out.

use vstd::prelude::*;
use crate::lines::{count_lines, height};
use crate::theme::{Theme, ThemeState};

verus! {

/// A key of the keyboard, as the terminal reports it.
#[derive(Clone, Copy, PartialEq, Eq, Structural, Debug, Hash)]
pub enum Key {
    Unknown,
    UnknownEscSeq,
    ArrowLeft,
    ArrowRight,
    ArrowUp,
    ArrowDown,
    Enter,
    Escape,
    Backspace,
    Home,
    End,
    Tab,
    BackTab,
    Alt,
    Del,
    Shift,
    Insert,
    PageUp,
    PageDown,
    Char(char),
    CtrlC,
}

/// Something that happened while a prompt was on screen.
#[derive(Clone, Copy, PartialEq, Eq, Structural, Debug, Hash)]
pub enum Event {
    Key(Key),
}

/// Where an interaction stands after an event.
#[derive(Clone, PartialEq, Eq, Debug)]
pub enum State<T> {
    /// Still taking input.
    Active,
    /// The last attempt to submit was rejected with this message; still
    /// taking input.
    Error(String),
    /// Finished with this value.
    Submit(T),
    /// Given up by the user.
    Cancel,
}

/// A [`State`] with its strings and its value as mathematical values.
pub enum StateView<V> {
    Active,
    Error(Seq<char>),
    Submit(V),
    Cancel,
}

impl<T: View> View for State<T> {
    type V = StateView<T::V>;

    open spec fn view(&self) -> StateView<T::V> {
        match self {
            State::Active => StateView::Active,
            State::Error(message) => StateView::Error(message@),
            State::Submit(value) => StateView::Submit(value@),
            State::Cancel => StateView::Cancel,
        }
    }
}

impl<T> State<T> {
    /// Submit and Cancel end an interaction; Active and Error do not.
    pub open spec fn terminal(&self) -> bool {
        self is Submit || self is Cancel
    }

    /// How a prompt in this state looks.
    pub open spec fn look(&self) -> ThemeState {
        match self {
            State::Active => ThemeState::Active,
            State::Error(_) => ThemeState::Error,
            State::Submit(_) => ThemeState::Submit,
            State::Cancel => ThemeState::Cancel,
        }
    }

    /// The message of the error state; empty in the others.
    pub open spec fn message(&self) -> Seq<char> {
        match self {
            State::Error(message) => message@,
            _ => ""@,
        }
    }

    /// The look that goes with this state.
    pub fn theme_state(&self) -> (look: ThemeState)
        ensures
            look == self.look(),
    {
        match self {
            State::Active => ThemeState::Active,
            State::Error(_) => ThemeState::Error,
            State::Submit(_) => ThemeState::Submit,
            State::Cancel => ThemeState::Cancel,
        }
    }

    /// The message to show under the prompt in this state.
    pub fn error_message(&self) -> (message: &str)
        ensures
            message@ == self.message(),
    {
        match self {
            State::Error(message) => message.as_str(),
            _ => "",
        }
    }

    /// Whether the interaction is over.
    pub fn is_terminal(&self) -> (b: bool)
        ensures
            b == self.terminal(),
    {
        match self {
            State::Submit(_) => true,
            State::Cancel => true,
            _ => false,
        }
    }
}

/// A prompt as the driver sees it: it takes events one at a time and says
/// after each where the interaction stands.
pub trait PromptInteraction<T>: Sized {
    /// The prompt's own invariant.
    spec fn wf(&self) -> bool;

    /// Whether the prompt, as it stands, can be given `event`.
    spec fn accepts(&self, event: Event) -> bool;

    /// Whether `event` may take the prompt from `self` to `next` with the
    /// answer `out`.
    spec fn step(&self, event: Event, next: &Self, out: State<T>) -> bool;

    /// Takes one event. Escape cancels whatever the prompt holds, and leaves
    /// it as it was.
    fn notify(&mut self, event: &Event) -> (out: State<T>)
        requires
            old(self).wf(),
            old(self).accepts(*event),
        ensures
            final(self).wf(),
            old(self).step(*event, final(self), out),
            *event == Event::Key(Key::Escape) ==> out is Cancel && *final(self) == *old(self),
    ;

    /// Escape cancels and changes nothing, and an event that the prompt
    /// could take before a step it can take after it.
    proof fn lemma_step(&self, event: Event, next: &Self, out: State<T>, later: Event)
        requires
            self.step(event, next, out),
        ensures
            event == Event::Key(Key::Escape) ==> out is Cancel && *next == *self,
            self.accepts(later) ==> next.accepts(later),
    ;

    /// What the prompt shows in `state` under `theme`.
    spec fn frame(&self, state: &State<T>, theme: &Theme) -> Seq<char>;

    /// Draws the prompt as it stands. Nothing of the prompt changes.
    fn render(&self, state: &State<T>, theme: &Theme) -> (out: String)
        requires
            self.wf(),
        ensures
            out@ == self.frame(state, theme),
    ;
}

/// Whether `states` and `outs` record a run of `events` through a prompt:
/// `states[i]` and `outs[i]` are the prompt and the state of the
/// interaction before `events[i]`, and the last of each are those after
/// the last event. The interaction starts active. An event that comes
/// while it is not over takes one step; one that comes after it is over
/// changes nothing.
pub open spec fn traced<T, P: PromptInteraction<T>>(
    states: Seq<P>,
    events: Seq<Event>,
    outs: Seq<State<T>>,
) -> bool {
    &&& states.len() == events.len() + 1
    &&& outs.len() == events.len() + 1
    &&& outs[0] is Active
    &&& forall|i: int|
        0 <= i < events.len() ==> if outs[i].terminal() {
            states[i + 1] == states[i] && outs[i + 1] == outs[i]
        } else {
            (#[trigger] states[i]).step(events[i], &states[i + 1], outs[i + 1])
        }
}

/// Whether playing `events` to the prompt `start` may leave it as `end`
/// with the interaction in the state `out`.
pub open spec fn played<T, P: PromptInteraction<T>>(
    start: P,
    events: Seq<Event>,
    end: P,
    out: State<T>,
) -> bool {
    exists|states: Seq<P>, outs: Seq<State<T>>| #[trigger]
        traced(states, events, outs) && states[0] == start && states.last() == end && outs.last()
            == out
}

/// Once an interaction is over, no event changes the prompt or the
/// outcome: from the first state that is Submit or Cancel on, every later
/// state of the prompt and of the interaction is the same.
pub proof fn lemma_over_is_over<T, P: PromptInteraction<T>>(
    states: Seq<P>,
    events: Seq<Event>,
    outs: Seq<State<T>>,
    at: int,
    later: int,
)
    requires
        traced(states, events, outs),
        0 <= at <= later <= events.len(),
        outs[at].terminal(),
    ensures
        states[later] == states[at],
        outs[later] == outs[at],
    decreases later - at,
{
    if at < later {
        lemma_over_is_over(states, events, outs, at, later - 1);
        let _ = states[later - 1];
    }
}

/// Escape ends an interaction that is not over with Cancel, whatever the
/// prompt holds, and leaves the prompt as it was; so does it stay, whatever
/// events follow.
pub proof fn lemma_escape_cancels<T, P: PromptInteraction<T>>(
    states: Seq<P>,
    events: Seq<Event>,
    outs: Seq<State<T>>,
    at: int,
    later: int,
)
    requires
        traced(states, events, outs),
        0 <= at < later <= events.len(),
        events[at] == Event::Key(Key::Escape),
        !outs[at].terminal(),
    ensures
        outs[later] is Cancel,
        states[later] == states[at],
{
    let _ = states[at];
    states[at].lemma_step(events[at], &states[at + 1], outs[at + 1], events[at]);
    lemma_over_is_over(states, events, outs, at + 1, later);
}

/// The driver's record of one interaction: where it stands, and how many
/// lines of the terminal its last frame took.
pub struct Interaction<T> {
    state: State<T>,
    lines: usize,
}

impl<T> Interaction<T> {
    /// Where the interaction stands.
    pub closed spec fn state(&self) -> State<T> {
        self.state
    }

    /// The number of lines that the last frame took.
    pub closed spec fn lines(&self) -> nat {
        self.lines as nat
    }

    /// An interaction that has just begun: active, with nothing on screen.
    pub fn new() -> (out: Interaction<T>)
        ensures
            out.state() is Active,
            out.lines() == 0,
    {
        Interaction { state: State::Active, lines: 0 }
    }

    /// Where the interaction stands.
    pub fn current(&self) -> (state: &State<T>)
        ensures
            *state == self.state(),
    {
        &self.state
    }

    /// Whether the interaction is over, so that no more keys are to be read.
    pub fn is_finished(&self) -> (b: bool)
        ensures
            b == self.state().terminal(),
    {
        self.state.is_terminal()
    }

    /// Ends the record and hands out the state reached.
    pub fn into_state(self) -> (state: State<T>)
        ensures
            state == self.state(),
    {
        self.state
    }

    /// Accounts for a new frame: says how many lines to erase before
    /// `frame` is written, which is what the frame before it took, and
    /// keeps the height of `frame` for the next time.
    pub fn redraw(&mut self, frame: &str) -> (erase: usize)
        ensures
            erase == old(self).lines(),
            final(self).lines() == height(frame@),
            final(self).state() == old(self).state(),
    {
        let erase = self.lines;
        self.lines = count_lines(frame);
        erase
    }

    /// Hands `event` to `prompt` and keeps its answer, unless the
    /// interaction is over: then the event is dropped, and neither the
    /// prompt nor the record changes.
    pub fn feed<P: PromptInteraction<T>>(&mut self, prompt: &mut P, event: &Event)
        requires
            old(prompt).wf(),
            !old(self).state().terminal() ==> old(prompt).accepts(*event),
        ensures
            final(prompt).wf(),
            final(self).lines() == old(self).lines(),
            old(self).state().terminal() ==> final(self).state() == old(self).state()
                && *final(prompt) == *old(prompt),
            !old(self).state().terminal() ==> old(prompt).step(
                *event,
                final(prompt),
                final(self).state(),
            ),
            !old(self).state().terminal() && *event == Event::Key(Key::Escape) ==> {
                &&& final(self).state() is Cancel
                &&& *final(prompt) == *old(prompt)
            },
    {
        if !self.state.is_terminal() {
            self.state = prompt.notify(event);
        }
    }
}

/// Plays `events` to `prompt` as the driver does with the keys it reads:
/// one after the other until an answer ends the interaction. Events after
/// that are dropped.
pub fn play<T, P: PromptInteraction<T>>(prompt: &mut P, events: &Vec<Event>) -> (out: State<T>)
    requires
        old(prompt).wf(),
        forall|i: int| 0 <= i < events.len() ==> old(prompt).accepts(#[trigger] events[i]),
    ensures
        final(prompt).wf(),
        played(*old(prompt), events@, *final(prompt), out),
{
    let mut record: Interaction<T> = Interaction::new();
    let mut i: usize = 0;
    let ghost mut states: Seq<P> = seq![*prompt];
    let ghost mut outs: Seq<State<T>> = seq![record.state()];
    assert(events@.subrange(0, 0) =~= Seq::empty());
    while i < events.len()
        invariant
            i <= events.len(),
            prompt.wf(),
            forall|k: int| 0 <= k < events.len() ==> prompt.accepts(#[trigger] events[k]),
            traced(states, events@.subrange(0, i as int), outs),
            states[0] == *old(prompt),
            states.last() == *prompt,
            outs.last() == record.state(),
        decreases events.len() - i,
    {
        let ghost middle = *prompt;
        let ghost so_far = record.state();
        let ghost seen = events@.subrange(0, i as int);
        let ghost next = events@.subrange(0, i + 1);
        record.feed(prompt, &events[i]);
        proof {
            if !so_far.terminal() {
                assert forall|k: int| 0 <= k < events.len() implies prompt.accepts(
                    #[trigger] events[k],
                ) by {
                    middle.lemma_step(events[i as int], &*prompt, record.state(), events[k]);
                }
            }
            let ghost longer = states.push(*prompt);
            let ghost answers = outs.push(record.state());
            assert forall|k: int| 0 <= k < next.len() implies if answers[k].terminal() {
                longer[k + 1] == longer[k] && answers[k + 1] == answers[k]
            } else {
                (#[trigger] longer[k]).step(next[k], &longer[k + 1], answers[k + 1])
            } by {
                if k < i {
                    let _ = states[k];
                    assert(next[k] == seen[k]);
                }
            }
            states = longer;
            outs = answers;
        }
        i = i + 1;
    }
    assert(events@.subrange(0, events@.len() as int) =~= events@);
    record.into_state()
}

} // verus!
