//! The prompt for a yes or a no.

use vstd::prelude::*;
use crate::interaction::{play, played, Event, Key, PromptInteraction, State};
use crate::theme::Theme;

verus! {

/// What a key does to a confirm prompt.
pub enum Answer {
    /// Submit this value at once, whatever is highlighted.
    Say(bool),
    /// Move the highlight to the other choice.
    Toggle,
    /// Submit the highlighted choice.
    Accept,
    /// Give up.
    Abandon,
    /// Nothing.
    Ignore,
}

/// The meaning of each key: `y` and `n` in either case answer at once, the
/// left and right arrows and Tab toggle, Enter accepts, Escape gives up.
pub open spec fn answer_of(key: Key) -> Answer {
    match key {
        Key::Char('y') | Key::Char('Y') => Answer::Say(true),
        Key::Char('n') | Key::Char('N') => Answer::Say(false),
        Key::ArrowLeft | Key::ArrowRight | Key::Tab => Answer::Toggle,
        Key::Enter => Answer::Accept,
        Key::Escape => Answer::Abandon,
        _ => Answer::Ignore,
    }
}

/// A prompt that asks a question with the answers yes and no.
pub struct Confirm {
    prompt: String,
    input: bool,
}

impl Confirm {
    /// The question.
    pub closed spec fn prompt(&self) -> Seq<char> {
        self.prompt@
    }

    /// The highlighted choice: `true` for yes.
    pub closed spec fn highlight(&self) -> bool {
        self.input
    }

    /// A prompt with "no" highlighted.
    pub fn new(prompt: &str) -> (out: Confirm)
        ensures
            out.prompt() == prompt@,
            out.highlight() == false,
    {
        Confirm { prompt: prompt.to_owned(), input: false }
    }

    /// Sets the choice that is highlighted at the start.
    pub fn initial_value(self, initial_value: bool) -> (out: Confirm)
        ensures
            out.prompt() == self.prompt(),
            out.highlight() == initial_value,
    {
        Confirm { prompt: self.prompt, input: initial_value }
    }

    /// Plays `events` to the prompt as the driver does with the keys it
    /// reads: one after the other until an answer ends the interaction;
    /// events after that are dropped. Gives the state reached.
    pub fn interact(&mut self, events: &Vec<Event>) -> (out: State<bool>)
        ensures
            played(*old(self), events@, *final(self), out),
    {
        play(self, events)
    }

    /// The answer to show: the submitted one once there is one, else the
    /// highlighted one.
    pub open spec fn shown(&self, state: &State<bool>) -> bool {
        match state {
            State::Submit(value) => *value,
            _ => self.highlight(),
        }
    }
}

impl PromptInteraction<bool> for Confirm {
    /// A confirm prompt has no invariant.
    open spec fn wf(&self) -> bool {
        true
    }

    /// A confirm prompt takes every event.
    open spec fn accepts(&self, event: Event) -> bool {
        true
    }

    /// Only a toggle changes the prompt, and it changes the highlight
    /// alone. `y` and `n` submit their own value, Enter the highlighted one.
    open spec fn step(&self, event: Event, next: &Confirm, out: State<bool>) -> bool {
        match event {
            Event::Key(key) => match answer_of(key) {
                Answer::Say(value) => *next == *self && out == State::Submit(value),
                Answer::Toggle => next.prompt() == self.prompt() && next.highlight()
                    == !self.highlight() && out is Active,
                Answer::Accept => *next == *self && out == State::Submit(self.highlight()),
                Answer::Abandon => *next == *self && out is Cancel,
                Answer::Ignore => *next == *self && out is Active,
            },
        }
    }

    proof fn lemma_step(&self, event: Event, next: &Confirm, out: State<bool>, later: Event) {
    }

    open spec fn frame(&self, state: &State<bool>, theme: &Theme) -> Seq<char> {
        theme.header(state.look(), self.prompt()) + theme.confirm_line(
            state.look(),
            self.shown(state),
        ) + theme.footer(state.look(), state.message())
    }

    fn render(&self, state: &State<bool>, theme: &Theme) -> (out: String) {
        let look = state.theme_state();
        let shown = match state {
            State::Submit(value) => *value,
            _ => self.input,
        };
        let mut out = theme.format_header(look, self.prompt.as_str());
        out.append(theme.format_confirm(look, shown).as_str());
        out.append(theme.format_footer(look, state.error_message()).as_str());
        out
    }

    fn notify(&mut self, event: &Event) -> (out: State<bool>) {
        match event {
            Event::Key(key) => match key {
                Key::Char('y') | Key::Char('Y') => {
                    return State::Submit(true);
                },
                Key::Char('n') | Key::Char('N') => {
                    return State::Submit(false);
                },
                Key::ArrowLeft | Key::ArrowRight | Key::Tab => {
                    self.input = !self.input;
                },
                Key::Enter => {
                    return State::Submit(self.input);
                },
                Key::Escape => {
                    return State::Cancel;
                },
                _ => {},
            },
        }
        State::Active
    }
}

} // verus!
