//! The prompt for a secret: a line of text that is never shown.

use vstd::prelude::*;
use crate::cursor::{Buffer, StringCursor};
use crate::interaction::{play, played, Event, PromptInteraction, State};
use crate::text::Text;
use crate::theme::Theme;
use crate::validate::{answers, Validate};

verus! {

/// A prompt that asks for one line of text and shows a mask glyph in place
/// of each character typed.
pub struct Password {
    text: Text,
    mask: char,
}

impl Password {
    /// The text prompt underneath: it holds the question, the real input and
    /// the validator.
    pub closed spec fn entry(&self) -> Text {
        self.text
    }

    /// The glyph shown in place of each character.
    pub closed spec fn glyph(&self) -> char {
        self.mask
    }

    /// A prompt with nothing typed, no validator and the mask `▪`.
    pub fn new(prompt: &str) -> (out: Password)
        ensures
            out.wf(),
            out.glyph() == '▪',
            out.entry().prompt() == prompt@,
            out.entry().hint() == Buffer::empty(),
            out.entry().line() == Buffer::empty(),
            out.entry().validator() is None,
    {
        Password { text: Text::new(prompt), mask: '▪' }
    }

    /// Plays `events` to the prompt as the driver does with the keys it
    /// reads: one after the other until an answer ends the interaction;
    /// events after that are dropped. Gives the state reached.
    pub fn interact(&mut self, events: &Vec<Event>) -> (out: State<String>)
        requires
            old(self).wf(),
        ensures
            final(self).wf(),
            played(*old(self), events@, *final(self), out),
    {
        play(self, events)
    }

    /// Sets the glyph shown in place of each character.
    pub fn mask(self, mask: char) -> (out: Password)
        ensures
            out.entry() == self.entry(),
            out.glyph() == mask,
    {
        Password { text: self.text, mask }
    }

    /// Sets the check that Enter runs on the text before it is submitted.
    pub fn validate<F>(self, validator: F) -> (out: Password) where
        F: Fn(&str) -> Result<(), String> + 'static,

        requires
            self.wf(),
            forall|input: &str| call_requires(validator, (input,)),
        ensures
            out.wf(),
            out.glyph() == self.glyph(),
            out.entry().prompt() == self.entry().prompt(),
            out.entry().hint() == self.entry().hint(),
            out.entry().line() == self.entry().line(),
            out.entry().validator() is Some,
            forall|input: Seq<char>, verdict: Result<(), Seq<char>>|
                #[trigger] out.entry().validator()->0.admits(input, verdict) <==> answers(
                    validator,
                    input,
                    verdict,
                ),
    {
        Password { text: self.text.validate(validator), mask: self.mask }
    }
}

impl PromptInteraction<String> for Password {
    open spec fn wf(&self) -> bool {
        self.entry().wf()
    }

    /// A password prompt takes every event.
    open spec fn accepts(&self, event: Event) -> bool {
        true
    }

    /// The keys do to the hidden line what they do to a line of text; the
    /// mask stays.
    open spec fn step(&self, event: Event, next: &Password, out: State<String>) -> bool {
        self.entry().step(event, &next.entry(), out) && next.glyph() == self.glyph()
    }

    proof fn lemma_step(&self, event: Event, next: &Password, out: State<String>, later: Event) {
        self.entry().lemma_step(event, &next.entry(), out, later);
    }

    /// The frame of a text prompt whose line is the mask glyph once for each
    /// character typed, the caret where it really is.
    open spec fn frame(&self, state: &State<String>, theme: &Theme) -> Seq<char> {
        theme.text_frame(
            state.look(),
            state.message(),
            self.entry().prompt(),
            self.entry().line().masked(self.glyph()),
            Buffer::empty(),
        )
    }

    fn render(&self, state: &State<String>, theme: &Theme) -> (out: String) {
        let shown = self.text.input().masked(self.mask);
        let nothing = StringCursor::new();
        theme.render_text(
            state.theme_state(),
            state.error_message(),
            self.text.prompt_text(),
            &shown,
            &nothing,
        )
    }

    fn notify(&mut self, event: &Event) -> (out: State<String>) {
        self.text.notify(event)
    }
}

} // verus!
