//! The prompt for one line of text.

use vstd::prelude::*;
use crate::cursor::{Buffer, Edit, StringCursor};
use crate::interaction::{play, played, traced, Event, Key, PromptInteraction, State, StateView};
use crate::theme::Theme;
use crate::validate::{answers, verdict_view, FnValidator, Validate};

verus! {

/// `char::is_ascii_control` is true of U+0000 to U+001F and of U+007F, and
/// of no other character.
pub assume_specification[ char::is_ascii_control ](c: &char) -> (b: bool)
    ensures
        b == is_control(*c),
;

/// The ASCII control characters: U+0000 to U+001F, and U+007F.
pub open spec fn is_control(c: char) -> bool {
    c as u32 <= 0x1f || c as u32 == 0x7f
}

/// The edit that a key makes on a line of text, if it makes one.
pub open spec fn edit_of(key: Key) -> Option<Edit> {
    match key {
        Key::Char(c) => if is_control(c) {
            None
        } else {
            Some(Edit::Insert(c))
        },
        Key::Backspace => Some(Edit::DeleteLeft),
        Key::Del => Some(Edit::DeleteRight),
        Key::ArrowLeft => Some(Edit::MoveLeft),
        Key::ArrowRight => Some(Edit::MoveRight),
        _ => None,
    }
}

/// The line after `key`: edited if the key edits, else as it was.
pub open spec fn edited(line: Buffer, key: Key) -> Buffer {
    match edit_of(key) {
        Some(edit) => line.apply(edit),
        None => line,
    }
}

/// What Enter yields for `content` once the validator has said `verdict`.
pub open spec fn settled(content: Seq<char>, verdict: Result<(), Seq<char>>) -> StateView<
    Seq<char>,
> {
    match verdict {
        Ok(_) => StateView::Submit(content),
        Err(message) => StateView::Error(message),
    }
}

/// Turns a validator's verdict on `content` into the state of the
/// interaction: accepted text is submitted, a rejection is shown.
pub fn settle(content: String, verdict: Result<(), String>) -> (out: State<String>)
    ensures
        out@ == settled(content@, verdict_view(verdict)),
{
    match verdict {
        Ok(_) => State::Submit(content),
        Err(message) => State::Error(message),
    }
}

/// A prompt that asks for one line of text.
pub struct Text {
    prompt: String,
    placeholder: StringCursor,
    input: StringCursor,
    validate: Option<Box<dyn Validate>>,
}

impl Text {
    /// The question shown above the input.
    pub closed spec fn prompt(&self) -> Seq<char> {
        self.prompt@
    }

    /// The text shown while nothing has been typed.
    pub closed spec fn hint(&self) -> Buffer {
        self.placeholder@
    }

    /// What has been typed, and where the caret stands in it.
    pub closed spec fn line(&self) -> Buffer {
        self.input@
    }

    /// The check that runs on Enter, if there is one.
    pub closed spec fn validator(&self) -> Option<Box<dyn Validate>> {
        self.validate
    }

    /// Both buffers have their carets inside their texts.
    pub closed spec fn well_formed(&self) -> bool {
        self.input.wf() && self.placeholder.wf()
    }

    /// Whether `other` is this prompt with `line` typed into it.
    pub open spec fn with_line(&self, other: &Text, line: Buffer) -> bool {
        &&& other.prompt() == self.prompt()
        &&& other.hint() == self.hint()
        &&& other.validator() == self.validator()
        &&& other.line() == line
    }

    /// Whether Enter on this prompt may give `out`.
    pub open spec fn submits(&self, out: StateView<Seq<char>>) -> bool {
        match self.validator() {
            None => out == StateView::Submit(self.line().text),
            Some(validator) => exists|verdict: Result<(), Seq<char>>|
                #[trigger] validator.admits(self.line().text, verdict) && out == settled(
                    self.line().text,
                    verdict,
                ),
        }
    }

    /// A prompt with nothing typed, no placeholder and no validator.
    pub fn new(prompt: &str) -> (out: Text)
        ensures
            out.wf(),
            out.prompt() == prompt@,
            out.hint() == Buffer::empty(),
            out.line() == Buffer::empty(),
            out.validator() is None,
    {
        Text {
            prompt: prompt.to_owned(),
            placeholder: StringCursor::new(),
            input: StringCursor::new(),
            validate: None,
        }
    }

    /// Adds `placeholder` to the text shown while the input is empty.
    pub fn placeholder(self, placeholder: &str) -> (out: Text)
        requires
            self.wf(),
        ensures
            out.wf(),
            out.prompt() == self.prompt(),
            out.hint() == self.hint().extend(placeholder@),
            out.line() == self.line(),
            out.validator() == self.validator(),
    {
        let mut out = self;
        out.placeholder.extend(placeholder);
        out
    }

    /// Sets the check that Enter runs on the text before it is submitted.
    pub fn validate<F>(self, validator: F) -> (out: Text) where
        F: Fn(&str) -> Result<(), String> + 'static,

        requires
            self.wf(),
            forall|input: &str| call_requires(validator, (input,)),
        ensures
            out.wf(),
            out.prompt() == self.prompt(),
            out.hint() == self.hint(),
            out.line() == self.line(),
            out.validator() is Some,
            forall|input: Seq<char>, verdict: Result<(), Seq<char>>|
                #[trigger] out.validator()->0.admits(input, verdict) <==> answers(
                    validator,
                    input,
                    verdict,
                ),
    {
        let mut out = self;
        out.validate = Some(Box::new(FnValidator::new(validator)));
        out
    }

    /// Plays `events` to the prompt as the driver does with the keys it
    /// reads: one after the other until an answer ends the interaction;
    /// events after that are dropped. Gives the state reached.
    pub fn interact(&mut self, events: &Vec<Event>) -> (out: State<String>)
        requires
            old(self).wf(),
        ensures
            final(self).wf(),
            played(*old(self), events@, *final(self), out),
    {
        play(self, events)
    }

    /// The question.
    pub fn prompt_text(&self) -> (out: &str)
        ensures
            out@ == self.prompt(),
    {
        self.prompt.as_str()
    }

    /// The line as typed so far.
    pub fn input(&self) -> (out: &StringCursor)
        requires
            self.wf(),
        ensures
            out@ == self.line(),
            out.wf(),
    {
        &self.input
    }
}

impl PromptInteraction<String> for Text {
    open spec fn wf(&self) -> bool {
        self.well_formed()
    }

    /// A text prompt takes every event.
    open spec fn accepts(&self, event: Event) -> bool {
        true
    }

    /// Escape cancels; Enter submits what the validator lets through and
    /// reports what it rejects, the line untouched either way; every other
    /// key edits the line or does nothing, and the prompt stays active.
    open spec fn step(&self, event: Event, next: &Text, out: State<String>) -> bool {
        match event {
            Event::Key(Key::Escape) => *next == *self && out is Cancel,
            Event::Key(Key::Enter) => *next == *self && self.submits(out@),
            Event::Key(key) => self.with_line(next, edited(self.line(), key)) && out is Active,
        }
    }

    proof fn lemma_step(&self, event: Event, next: &Text, out: State<String>, later: Event) {
    }

    open spec fn frame(&self, state: &State<String>, theme: &Theme) -> Seq<char> {
        theme.text_frame(state.look(), state.message(), self.prompt(), self.line(), self.hint())
    }

    fn render(&self, state: &State<String>, theme: &Theme) -> (out: String) {
        theme.render_text(
            state.theme_state(),
            state.error_message(),
            self.prompt.as_str(),
            &self.input,
            &self.placeholder,
        )
    }

    fn notify(&mut self, event: &Event) -> (out: State<String>) {
        match event {
            Event::Key(key) => match key {
                Key::Char(chr) if !chr.is_ascii_control() => {
                    self.input.insert(*chr);
                },
                Key::Backspace => {
                    self.input.delete_left();
                },
                Key::Del => {
                    self.input.delete_right();
                },
                Key::ArrowLeft => {
                    self.input.move_left();
                },
                Key::ArrowRight => {
                    self.input.move_right();
                },
                Key::Enter => {
                    let content = self.input.to_string();
                    if let Some(validator) = &self.validate {
                        let verdict = validator.validate(content.as_str());
                        assert(validator.admits(self.line().text, verdict_view(verdict)));
                        return settle(content, verdict);
                    }
                    return State::Submit(content);
                },
                Key::Escape => {
                    return State::Cancel;
                },
                _ => {},
            },
        }
        State::Active
    }
}

/// With a validator that rejects every line, no run of events submits:
/// the interaction is never in the Submit state, and each Enter that comes
/// while it is not over reports an error and leaves the prompt, its line
/// included, exactly as it was, however often Enter is pressed.
pub proof fn lemma_rejecting_validator_never_submits(
    states: Seq<Text>,
    events: Seq<Event>,
    outs: Seq<State<String>>,
    at: int,
)
    requires
        traced(states, events, outs),
        0 <= at <= events.len(),
        states[0].validator() is Some,
        forall|line: Seq<char>, verdict: Result<(), Seq<char>>| #[trigger]
            states[0].validator()->0.admits(line, verdict) ==> verdict is Err,
    ensures
        !(outs[at] is Submit),
        states[at].validator() == states[0].validator(),
        at < events.len() && events[at] == Event::Key(Key::Enter) && !outs[at].terminal() ==> {
            &&& outs[at + 1] is Error
            &&& states[at + 1] == states[at]
        },
    decreases at,
{
    if at > 0 {
        lemma_rejecting_validator_never_submits(states, events, outs, at - 1);
        let _ = states[at - 1];
    }
    if at < events.len() {
        let _ = states[at];
    }
}

} // verus!
