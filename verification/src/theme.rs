//! The look of the prompts: which glyph and which tone stand for each state,
//! and how the lines of each prompt are put together.

use vstd::prelude::*;
use vstd::string::StringExecFns;
use console::Style;
use crate::cursor::{Buffer, StringCursor};
use crate::lines::{split, split_lines, texts};

verus! {

/// A way of setting text off from its surroundings on a terminal.
#[derive(Clone, Copy, PartialEq, Eq, Structural, Debug)]
pub enum Tone {
    Plain,
    Red,
    Green,
    Yellow,
    Blue,
    Magenta,
    Cyan,
    Dim,
    Reverse,
    Strike,
}

/// The parameter of the escape sequence that switches a tone on.
pub open spec fn sgr(tone: Tone) -> Seq<char> {
    match tone {
        Tone::Plain => Seq::empty(),
        Tone::Red => seq!['3', '1'],
        Tone::Green => seq!['3', '2'],
        Tone::Yellow => seq!['3', '3'],
        Tone::Blue => seq!['3', '4'],
        Tone::Magenta => seq!['3', '5'],
        Tone::Cyan => seq!['3', '6'],
        Tone::Dim => seq!['2'],
        Tone::Reverse => seq!['7'],
        Tone::Strike => seq!['9'],
    }
}

/// `text` in `tone`: between the sequence that switches the tone on and the
/// one that resets the terminal, or bare where colours are off or the tone
/// is plain.
pub open spec fn painted(tone: Tone, text: Seq<char>, colors: bool) -> Seq<char> {
    if colors && tone != Tone::Plain {
        seq!['\x1b', '['] + sgr(tone) + seq!['m'] + text + seq!['\x1b', '[', '0', 'm']
    } else {
        text
    }
}

/// The width of `text` on a terminal, in columns, as
/// `console::measure_text_width` reports it.
pub uninterp spec fn display_width(text: Seq<char>) -> usize;

/// Formats `text` through a `console::Style` that holds the one colour or
/// attribute of `tone`, with styling forced on or off by `colors`. With it on,
/// `console` writes the escape sequence of that colour or attribute, the
/// text, and the reset sequence; with it off, or with no colour or attribute
/// set, the text alone.
#[verifier::external_body]
fn paint(tone: Tone, text: &str, colors: bool) -> (out: String)
    ensures
        out@ == painted(tone, text@, colors),
{
    let style = match tone {
        Tone::Plain => Style::new(),
        Tone::Red => Style::new().red(),
        Tone::Green => Style::new().green(),
        Tone::Yellow => Style::new().yellow(),
        Tone::Blue => Style::new().blue(),
        Tone::Magenta => Style::new().magenta(),
        Tone::Cyan => Style::new().cyan(),
        Tone::Dim => Style::new().dim(),
        Tone::Reverse => Style::new().reverse(),
        Tone::Strike => Style::new().strikethrough(),
    };
    style.force_styling(colors).apply_to(text).to_string()
}

/// Asks `console::colors_enabled` whether colours are in use on standard
/// output. The answer depends on the terminal and on the variables of the
/// process, so nothing is claimed of it.
#[verifier::external_body]
fn colors_enabled() -> bool {
    console::colors_enabled()
}

/// Measures `text` with `console::measure_text_width`, which strips escape
/// sequences and adds up the column widths of what is left.
#[verifier::external_body]
fn text_width(text: &str) -> (width: usize)
    ensures
        width == display_width(text@),
{
    console::measure_text_width(text)
}

/// The state of an interaction as far as its look goes.
#[derive(Clone, Copy, PartialEq, Eq, Structural, Debug)]
pub enum ThemeState {
    Active,
    Cancel,
    Submit,
    Error,
}

/// One tone for each state.
#[derive(Clone, Copy, PartialEq, Eq, Structural, Debug)]
pub struct Palette {
    pub active: Tone,
    pub cancel: Tone,
    pub submit: Tone,
    pub error: Tone,
}

impl Palette {
    /// The tone that stands for `state`.
    pub open spec fn tone(&self, state: ThemeState) -> Tone {
        match state {
            ThemeState::Active => self.active,
            ThemeState::Cancel => self.cancel,
            ThemeState::Submit => self.submit,
            ThemeState::Error => self.error,
        }
    }

    /// The tone that stands for `state`.
    pub fn pick(&self, state: ThemeState) -> (tone: Tone)
        ensures
            tone == self.tone(state),
    {
        match state {
            ThemeState::Active => self.active,
            ThemeState::Cancel => self.cancel,
            ThemeState::Submit => self.submit,
            ThemeState::Error => self.error,
        }
    }
}

/// The glyph that leads a prompt in each state.
pub open spec fn state_glyph(state: ThemeState) -> Seq<char> {
    match state {
        ThemeState::Active => "◆"@,
        ThemeState::Cancel => "■"@,
        ThemeState::Submit => "◇"@,
        ThemeState::Error => "▲"@,
    }
}

/// A theme: whether escape sequences are written at all, and the tones of
/// the bar at the left edge and of the leading symbol in each state.
#[derive(Clone, Copy, PartialEq, Eq, Structural, Debug)]
pub struct Theme {
    pub colors: bool,
    pub bar: Palette,
    pub symbol: Palette,
}

impl Theme {
    /// The built-in look.
    pub open spec fn clack_spec(colors: bool) -> Theme {
        Theme {
            colors,
            bar: Palette {
                active: Tone::Cyan,
                cancel: Tone::Red,
                submit: Tone::Dim,
                error: Tone::Yellow,
            },
            symbol: Palette {
                active: Tone::Cyan,
                cancel: Tone::Red,
                submit: Tone::Green,
                error: Tone::Yellow,
            },
        }
    }

    /// The built-in theme, with colours on or off.
    pub fn clack(colors: bool) -> (theme: Theme)
        ensures
            theme == Theme::clack_spec(colors),
    {
        Theme {
            colors,
            bar: Palette {
                active: Tone::Cyan,
                cancel: Tone::Red,
                submit: Tone::Dim,
                error: Tone::Yellow,
            },
            symbol: Palette {
                active: Tone::Cyan,
                cancel: Tone::Red,
                submit: Tone::Green,
                error: Tone::Yellow,
            },
        }
    }

    /// The built-in theme, with colours as the terminal wants them.
    pub fn detect() -> (theme: Theme)
        ensures
            theme == Theme::clack_spec(theme.colors),
    {
        Theme::clack(colors_enabled())
    }

    /// `text` in `tone`, under this theme's colour setting.
    pub open spec fn tinted(&self, tone: Tone, text: Seq<char>) -> Seq<char> {
        painted(tone, text, self.colors)
    }

    /// Puts `text` in `tone`.
    pub fn tint(&self, tone: Tone, text: &str) -> (out: String)
        ensures
            out@ == self.tinted(tone, text@),
    {
        paint(tone, text, self.colors)
    }

    /// The leading symbol of a prompt in `state`, in its tone.
    pub open spec fn symbol_of(&self, state: ThemeState) -> Seq<char> {
        self.tinted(self.symbol.tone(state), state_glyph(state))
    }

    /// The symbol that leads a prompt in `state`.
    pub fn state_symbol(&self, state: ThemeState) -> (out: String)
        ensures
            out@ == self.symbol_of(state),
    {
        let glyph = match state {
            ThemeState::Active => "◆",
            ThemeState::Cancel => "■",
            ThemeState::Submit => "◇",
            ThemeState::Error => "▲",
        };
        self.tint(self.symbol.pick(state), glyph)
    }

    /// The bar at the left edge of a prompt in `state`, in its tone.
    pub open spec fn bar_of(&self, state: ThemeState) -> Seq<char> {
        self.tinted(self.bar.tone(state), "│"@)
    }

    /// The bar at the left edge of a prompt in `state`.
    pub fn state_bar(&self, state: ThemeState) -> (out: String)
        ensures
            out@ == self.bar_of(state),
    {
        self.tint(self.bar.pick(state), "│")
    }

    /// The first line of a prompt: symbol, two spaces, the question.
    pub open spec fn header(&self, state: ThemeState, prompt: Seq<char>) -> Seq<char> {
        self.symbol_of(state) + "  "@ + prompt + "\n"@
    }

    /// The first line of a prompt: its symbol and its question.
    pub fn format_header(&self, state: ThemeState, prompt: &str) -> (out: String)
        ensures
            out@ == self.header(state, prompt@),
    {
        let mut out = self.state_symbol(state);
        out.append("  ");
        out.append(prompt);
        out.append("\n");
        out
    }

    /// The last line of a prompt: the corner that ends the bar, with a
    /// message beside it in the cancel and error states; in the submit
    /// state the bar goes on instead.
    pub open spec fn footer(&self, state: ThemeState, message: Seq<char>) -> Seq<char> {
        let tone = self.bar.tone(state);
        match state {
            ThemeState::Active => self.tinted(tone, "└"@) + "\n"@,
            ThemeState::Cancel => self.tinted(tone, "└"@) + "  "@ + self.tinted(
                tone,
                "Operation cancelled."@,
            ) + "\n"@,
            ThemeState::Submit => self.tinted(tone, "│"@) + "\n"@,
            ThemeState::Error => self.tinted(tone, "└"@) + "  "@ + self.tinted(tone, message)
                + "\n"@,
        }
    }

    /// The last line of a prompt: the end of the bar, with the error
    /// `message` beside it in the error state.
    pub fn format_footer(&self, state: ThemeState, message: &str) -> (out: String)
        ensures
            out@ == self.footer(state, message@),
    {
        let tone = self.bar.pick(state);
        match state {
            ThemeState::Active => {
                let mut out = self.tint(tone, "└");
                out.append("\n");
                out
            },
            ThemeState::Cancel => {
                let mut out = self.tint(tone, "└");
                out.append("  ");
                out.append(self.tint(tone, "Operation cancelled.").as_str());
                out.append("\n");
                out
            },
            ThemeState::Submit => {
                let mut out = self.tint(tone, "│");
                out.append("\n");
                out
            },
            ThemeState::Error => {
                let mut out = self.tint(tone, "└");
                out.append("  ");
                out.append(self.tint(tone, message).as_str());
                out.append("\n");
                out
            },
        }
    }

    /// The opening block: a corner, the title, and a line of bar.
    pub open spec fn intro(&self, title: Seq<char>) -> Seq<char> {
        let tone = self.bar.tone(ThemeState::Submit);
        self.tinted(tone, "┌"@) + "  "@ + title + "\n"@ + self.tinted(tone, "│"@) + "\n"@
    }

    /// The block that opens a sequence of prompts.
    pub fn format_intro(&self, title: &str) -> (out: String)
        ensures
            out@ == self.intro(title@),
    {
        let tone = self.bar.pick(ThemeState::Submit);
        let mut out = self.tint(tone, "┌");
        out.append("  ");
        out.append(title);
        out.append("\n");
        out.append(self.tint(tone, "│").as_str());
        out.append("\n");
        out
    }

    /// The closing block: a corner, the message, and an empty line.
    pub open spec fn outro(&self, message: Seq<char>) -> Seq<char> {
        let tone = self.bar.tone(ThemeState::Submit);
        self.tinted(tone, "└"@) + "  "@ + message + "\n"@ + "\n"@
    }

    /// The block that closes a sequence of prompts.
    pub fn format_outro(&self, message: &str) -> (out: String)
        ensures
            out@ == self.outro(message@),
    {
        let tone = self.bar.pick(ThemeState::Submit);
        let mut out = self.tint(tone, "└");
        out.append("  ");
        out.append(message);
        out.append("\n");
        out.append("\n");
        out
    }

    /// The closing block of a sequence that was given up: as the closing
    /// block, the message in the tone of cancellation.
    pub open spec fn outro_cancel(&self, message: Seq<char>) -> Seq<char> {
        self.tinted(self.bar.tone(ThemeState::Submit), "└"@) + "  "@ + self.tinted(
            self.bar.tone(ThemeState::Cancel),
            message,
        ) + "\n"@ + "\n"@
    }

    /// The block that closes a sequence of prompts that was given up.
    pub fn format_outro_cancel(&self, message: &str) -> (out: String)
        ensures
            out@ == self.outro_cancel(message@),
    {
        let mut out = self.tint(self.bar.pick(ThemeState::Submit), "└");
        out.append("  ");
        out.append(self.tint(self.bar.pick(ThemeState::Cancel), message).as_str());
        out.append("\n");
        out.append("\n");
        out
    }
}

impl ThemeState {
    /// Whether the prompt still takes input in this state.
    pub open spec fn editing(&self) -> bool {
        *self == ThemeState::Active || *self == ThemeState::Error
    }

    /// Whether the prompt still takes input in this state.
    pub fn is_editing(&self) -> (b: bool)
        ensures
            b == self.editing(),
    {
        match self {
            ThemeState::Active => true,
            ThemeState::Error => true,
            _ => false,
        }
    }

    /// The tone of an answer once the prompt is over: dimmed when submitted,
    /// struck through when cancelled.
    pub open spec fn settled_tone(&self) -> Tone {
        if *self == ThemeState::Cancel {
            Tone::Strike
        } else {
            Tone::Dim
        }
    }

    /// The tone of an answer once the prompt is over.
    pub fn answer_tone(&self) -> (tone: Tone)
        ensures
            tone == self.settled_tone(),
    {
        match self {
            ThemeState::Cancel => Tone::Strike,
            _ => Tone::Dim,
        }
    }
}

impl Theme {
    /// The start of every line under the header: the bar and two spaces.
    pub open spec fn margin(&self, state: ThemeState) -> Seq<char> {
        self.bar_of(state) + "  "@
    }

    /// The bar and the two spaces that start a line under the header.
    pub fn format_margin(&self, state: ThemeState) -> (out: String)
        ensures
            out@ == self.margin(state),
    {
        let mut out = self.state_bar(state);
        out.append("  ");
        out
    }

    /// The line that echoes the input.
    pub open spec fn input_line(&self, state: ThemeState, line: Buffer) -> Seq<char> {
        if state.editing() {
            self.margin(state) + line.before() + self.tinted(Tone::Reverse, line.cell())
                + line.rest() + "\n"@
        } else {
            self.margin(state) + self.tinted(state.settled_tone(), line.text) + "\n"@
        }
    }

    /// The line that echoes the input: with the caret's cell reversed while
    /// the prompt takes input, in the tone of a settled answer once it is
    /// over.
    pub fn format_input(&self, state: ThemeState, input: &StringCursor) -> (out: String)
        requires
            input.wf(),
        ensures
            out@ == self.input_line(state, input@),
    {
        let mut out = self.format_margin(state);
        if state.is_editing() {
            out.append(input.before().as_str());
            out.append(self.tint(Tone::Reverse, input.cell().as_str()).as_str());
            out.append(input.rest().as_str());
        } else {
            out.append(self.tint(state.answer_tone(), input.to_string().as_str()).as_str());
        }
        out.append("\n");
        out
    }

    /// The line that shows the placeholder `hint` in place of the input.
    pub open spec fn placeholder_line(&self, state: ThemeState, hint: Seq<char>) -> Seq<char> {
        let shown = Buffer { text: hint, caret: 0 };
        self.margin(state) + self.tinted(Tone::Reverse, shown.cell()) + self.tinted(
            Tone::Dim,
            shown.rest(),
        ) + "\n"@
    }

    /// The line that shows the placeholder: dimmed, with the caret on its
    /// first character.
    pub fn format_placeholder(&self, state: ThemeState, placeholder: &StringCursor) -> (out:
        String)
        requires
            placeholder.wf(),
        ensures
            out@ == self.placeholder_line(state, placeholder@.text),
    {
        let text = placeholder.to_string();
        let mut shown = StringCursor::new();
        shown.extend(text.as_str());
        assert(shown@.text =~= placeholder@.text);
        let mut out = self.format_margin(state);
        out.append(self.tint(Tone::Reverse, shown.cell().as_str()).as_str());
        out.append(self.tint(Tone::Dim, shown.rest().as_str()).as_str());
        out.append("\n");
        out
    }

    /// Whether the placeholder stands in for the input: while the prompt
    /// takes input, nothing is typed and there is a placeholder.
    pub open spec fn shows_placeholder(state: ThemeState, line: Buffer, hint: Buffer) -> bool {
        state.editing() && line.text.len() == 0 && hint.text.len() > 0
    }

    /// A text prompt in full: header, then the placeholder where it stands
    /// in for the input, else the input, then the footer.
    pub open spec fn text_frame(
        &self,
        state: ThemeState,
        message: Seq<char>,
        prompt: Seq<char>,
        line: Buffer,
        hint: Buffer,
    ) -> Seq<char> {
        self.header(state, prompt) + (if Self::shows_placeholder(state, line, hint) {
            self.placeholder_line(state, hint.text)
        } else {
            self.input_line(state, line)
        }) + self.footer(state, message)
    }

    /// A text prompt in full: header, input or placeholder, footer.
    pub fn render_text(
        &self,
        state: ThemeState,
        message: &str,
        prompt: &str,
        input: &StringCursor,
        placeholder: &StringCursor,
    ) -> (out: String)
        requires
            input.wf(),
            placeholder.wf(),
        ensures
            out@ == self.text_frame(state, message@, prompt@, input@, placeholder@),
    {
        let mut out = self.format_header(state, prompt);
        if state.is_editing() && input.is_empty() && !placeholder.is_empty() {
            out.append(self.format_placeholder(state, placeholder).as_str());
        } else {
            out.append(self.format_input(state, input).as_str());
        }
        out.append(self.format_footer(state, message).as_str());
        out
    }

    /// A radio button with its label: filled and green where `on`, hollow
    /// and dimmed where not.
    pub open spec fn radio(&self, on: bool, label: Seq<char>) -> Seq<char> {
        if on {
            self.tinted(Tone::Green, "●"@) + " "@ + label
        } else {
            self.tinted(Tone::Dim, "○"@) + " "@ + self.tinted(Tone::Dim, label)
        }
    }

    /// A radio button with its label.
    pub fn format_radio(&self, on: bool, label: &str) -> (out: String)
        ensures
            out@ == self.radio(on, label@),
    {
        if on {
            let mut out = self.tint(Tone::Green, "●");
            out.append(" ");
            out.append(label);
            out
        } else {
            let mut out = self.tint(Tone::Dim, "○");
            out.append(" ");
            out.append(self.tint(Tone::Dim, label).as_str());
            out
        }
    }

    /// The word for an answer to a yes-or-no question.
    pub open spec fn word(yes: bool) -> Seq<char> {
        if yes {
            "Yes"@
        } else {
            "No"@
        }
    }

    /// The line of a confirm prompt.
    pub open spec fn confirm_line(&self, state: ThemeState, yes: bool) -> Seq<char> {
        if state.editing() {
            self.margin(state) + self.radio(yes, "Yes"@) + " / "@ + self.radio(!yes, "No"@)
                + "\n"@
        } else {
            self.margin(state) + self.tinted(state.settled_tone(), Self::word(yes)) + "\n"@
        }
    }

    /// The line of a confirm prompt: both choices with the highlighted one
    /// marked while it takes input, the answer alone once it is over.
    pub fn format_confirm(&self, state: ThemeState, yes: bool) -> (out: String)
        ensures
            out@ == self.confirm_line(state, yes),
    {
        let mut out = self.format_margin(state);
        if state.is_editing() {
            out.append(self.format_radio(yes, "Yes").as_str());
            out.append(" / ");
            out.append(self.format_radio(!yes, "No").as_str());
        } else {
            let word = if yes {
                "Yes"
            } else {
                "No"
            };
            out.append(self.tint(state.answer_tone(), word).as_str());
        }
        out.append("\n");
        out
    }

    /// A hint in brackets after a label, dimmed; nothing where there is no
    /// hint.
    pub open spec fn aside(&self, hint: Seq<char>) -> Seq<char> {
        if hint.len() == 0 {
            Seq::empty()
        } else {
            " "@ + self.tinted(Tone::Dim, "("@ + hint + ")"@)
        }
    }

    /// A hint in brackets, to stand after a label.
    pub fn format_aside(&self, hint: &str) -> (out: String)
        ensures
            out@ == self.aside(hint@),
    {
        if hint.is_empty() {
            String::new()
        } else {
            let mut inner = String::from_str("(");
            inner.append(hint);
            inner.append(")");
            let mut out = String::from_str(" ");
            out.append(self.tint(Tone::Dim, inner.as_str()).as_str());
            out
        }
    }

    /// The line of one option of a select prompt.
    pub open spec fn select_item(
        &self,
        state: ThemeState,
        highlighted: bool,
        label: Seq<char>,
        hint: Seq<char>,
    ) -> Seq<char> {
        if state.editing() {
            self.margin(state) + self.radio(highlighted, label) + (if highlighted {
                self.aside(hint)
            } else {
                Seq::empty()
            }) + "\n"@
        } else if highlighted {
            self.margin(state) + self.tinted(state.settled_tone(), label) + "\n"@
        } else {
            Seq::empty()
        }
    }

    /// The line of one option of a select prompt. While the prompt takes
    /// input every option has a line, and the highlighted one shows its
    /// hint; once it is over only the highlighted option is left.
    pub fn format_select_item(
        &self,
        state: ThemeState,
        highlighted: bool,
        label: &str,
        hint: &str,
    ) -> (out: String)
        ensures
            out@ == self.select_item(state, highlighted, label@, hint@),
    {
        if state.is_editing() {
            let mut out = self.format_margin(state);
            out.append(self.format_radio(highlighted, label).as_str());
            if highlighted {
                out.append(self.format_aside(hint).as_str());
            } else {
                assert(out@ + Seq::<char>::empty() =~= out@);
            }
            out.append("\n");
            out
        } else if highlighted {
            let mut out = self.format_margin(state);
            out.append(self.tint(state.answer_tone(), label).as_str());
            out.append("\n");
            out
        } else {
            String::new()
        }
    }

    /// A checkbox with its label: filled where selected, outlined where
    /// not; in cyan where highlighted, dimmed where neither.
    pub open spec fn checkbox(&self, selected: bool, highlighted: bool, label: Seq<char>) -> Seq<
        char,
    > {
        if selected {
            self.tinted(Tone::Green, "◼"@) + " "@ + (if highlighted {
                label
            } else {
                self.tinted(Tone::Dim, label)
            })
        } else if highlighted {
            self.tinted(Tone::Cyan, "◻"@) + " "@ + label
        } else {
            self.tinted(Tone::Dim, "◻"@) + " "@ + self.tinted(Tone::Dim, label)
        }
    }

    /// A checkbox with its label.
    pub fn format_checkbox(&self, selected: bool, highlighted: bool, label: &str) -> (out: String)
        ensures
            out@ == self.checkbox(selected, highlighted, label@),
    {
        if selected {
            let mut out = self.tint(Tone::Green, "◼");
            out.append(" ");
            if highlighted {
                out.append(label);
            } else {
                out.append(self.tint(Tone::Dim, label).as_str());
            }
            out
        } else if highlighted {
            let mut out = self.tint(Tone::Cyan, "◻");
            out.append(" ");
            out.append(label);
            out
        } else {
            let mut out = self.tint(Tone::Dim, "◻");
            out.append(" ");
            out.append(self.tint(Tone::Dim, label).as_str());
            out
        }
    }

    /// The line of one option of a multi-select prompt.
    pub open spec fn multiselect_item(
        &self,
        state: ThemeState,
        selected: bool,
        highlighted: bool,
        label: Seq<char>,
        hint: Seq<char>,
    ) -> Seq<char> {
        if state.editing() {
            self.margin(state) + self.checkbox(selected, highlighted, label) + (if highlighted {
                self.aside(hint)
            } else {
                Seq::empty()
            }) + "\n"@
        } else if selected {
            self.margin(state) + self.tinted(state.settled_tone(), label) + "\n"@
        } else {
            Seq::empty()
        }
    }

    /// The line of one option of a multi-select prompt. While the prompt
    /// takes input every option has a line; once it is over only the
    /// selected ones are left.
    pub fn format_multiselect_item(
        &self,
        state: ThemeState,
        selected: bool,
        highlighted: bool,
        label: &str,
        hint: &str,
    ) -> (out: String)
        ensures
            out@ == self.multiselect_item(state, selected, highlighted, label@, hint@),
    {
        if state.is_editing() {
            let mut out = self.format_margin(state);
            out.append(self.format_checkbox(selected, highlighted, label).as_str());
            if highlighted {
                out.append(self.format_aside(hint).as_str());
            } else {
                assert(out@ + Seq::<char>::empty() =~= out@);
            }
            out.append("\n");
            out
        } else if selected {
            let mut out = self.format_margin(state);
            out.append(self.tint(state.answer_tone(), label).as_str());
            out.append("\n");
            out
        } else {
            String::new()
        }
    }
}

/// `count` copies of `c`.
pub open spec fn run_of(c: char, count: nat) -> Seq<char> {
    Seq::new(count, |i: int| c)
}

/// A string of `count` copies of `c`.
pub fn repeat(c: char, count: usize) -> (out: String)
    ensures
        out@ == run_of(c, count as nat),
{
    let mut out = String::new();
    let mut i: usize = 0;
    assert(out@ =~= run_of(c, 0));
    while i < count
        invariant
            i <= count,
            out@ == run_of(c, i as nat),
        decreases count - i,
    {
        out.push(c);
        assert(out@ =~= run_of(c, (i + 1) as nat));
        i = i + 1;
    }
    out
}

/// The width of the widest of `lines`, 0 where there are none.
pub open spec fn widest(lines: Seq<Seq<char>>) -> usize
    decreases lines.len(),
{
    if lines.len() == 0 {
        0
    } else {
        let head = widest(lines.drop_last());
        let last = display_width(lines.last());
        if head >= last {
            head
        } else {
            last
        }
    }
}

/// No line is wider than the widest.
pub proof fn lemma_widest_bounds(lines: Seq<Seq<char>>, i: int)
    requires
        0 <= i < lines.len(),
    ensures
        display_width(lines[i]) <= widest(lines),
    decreases lines.len(),
{
    if i < lines.len() - 1 {
        lemma_widest_bounds(lines.drop_last(), i);
    }
}

/// The width of the widest of `lines`.
pub fn widest_line(lines: &Vec<String>) -> (width: usize)
    ensures
        width == widest(texts(lines@)),
{
    let mut width: usize = 0;
    let mut i: usize = 0;
    assert(texts(lines@).subrange(0, 0) =~= Seq::empty());
    while i < lines.len()
        invariant
            i <= lines.len(),
            width == widest(texts(lines@).subrange(0, i as int)),
        decreases lines.len() - i,
    {
        let ghost next = texts(lines@).subrange(0, i + 1);
        assert(next.drop_last() =~= texts(lines@).subrange(0, i as int));
        assert(next.last() == lines@[i as int]@);
        let here = text_width(lines[i].as_str());
        if here > width {
            width = here;
        }
        i = i + 1;
    }
    assert(texts(lines@).subrange(0, lines@.len() as int) =~= texts(lines@));
    width
}

impl Theme {
    /// The rows of a log message after the first: each of `lines` behind
    /// the bar.
    pub open spec fn rows(&self, lines: Seq<Seq<char>>) -> Seq<char>
        decreases lines.len(),
    {
        if lines.len() == 0 {
            Seq::empty()
        } else {
            self.rows(lines.drop_last()) + (self.margin(ThemeState::Submit) + lines.last()
                + "\n"@)
        }
    }

    /// A message of the log.
    pub open spec fn log(&self, text: Seq<char>, symbol: Seq<char>) -> Seq<char> {
        let lines = split(text);
        symbol + "  "@ + lines[0] + "\n"@ + self.rows(lines.skip(1)) + (self.bar_of(
            ThemeState::Submit,
        ) + "\n"@)
    }

    /// A message of the log: the symbol and the first line of `text`, the
    /// other lines behind the bar, and an empty line of bar to close.
    pub fn format_log(&self, text: &str, symbol: &str) -> (out: String)
        ensures
            out@ == self.log(text@, symbol@),
    {
        let lines = split_lines(text);
        let ghost all = texts(lines@);
        let mut out = String::from_str(symbol);
        out.append("  ");
        out.append(lines[0].as_str());
        out.append("\n");
        let ghost base = out@;
        let mut i: usize = 1;
        assert(all.skip(1).subrange(0, 0) =~= Seq::empty());
        assert(base + self.rows(Seq::empty()) =~= base);
        while i < lines.len()
            invariant
                1 <= i <= lines.len(),
                all == texts(lines@),
                out@ == base + self.rows(all.skip(1).subrange(0, i - 1)),
            decreases lines.len() - i,
        {
            let ghost seen = all.skip(1).subrange(0, i - 1);
            let ghost next = all.skip(1).subrange(0, i as int);
            assert(next.drop_last() =~= seen);
            assert(next.last() == lines@[i as int]@);
            let row = self.format_margin(ThemeState::Submit);
            out.append(row.as_str());
            out.append(lines[i].as_str());
            out.append("\n");
            assert(out@ =~= base + self.rows(next));
            i = i + 1;
        }
        assert(all.skip(1).subrange(0, lines@.len() - 1) =~= all.skip(1));
        let ghost rows = out@;
        out.append(self.state_bar(ThemeState::Submit).as_str());
        out.append("\n");
        assert(out@ =~= rows + (self.bar_of(ThemeState::Submit) + "\n"@));
        out
    }

    /// One row inside the frame of a note: `line`, padded with spaces to
    /// `width` columns, between two bars.
    pub open spec fn note_row(&self, line: Seq<char>, width: usize) -> Seq<char> {
        self.margin(ThemeState::Submit) + line + run_of(
            ' ',
            (width - display_width(line)) as nat,
        ) + "  "@ + self.bar_of(ThemeState::Submit) + "\n"@
    }

    /// An empty row inside the frame of a note.
    pub open spec fn note_gap(&self, width: usize) -> Seq<char> {
        self.margin(ThemeState::Submit) + run_of(' ', width as nat) + "  "@ + self.bar_of(
            ThemeState::Submit,
        ) + "\n"@
    }

    /// The rows of `lines` inside the frame of a note.
    pub open spec fn note_rows(&self, lines: Seq<Seq<char>>, width: usize) -> Seq<char>
        decreases lines.len(),
    {
        if lines.len() == 0 {
            Seq::empty()
        } else {
            self.note_rows(lines.drop_last(), width) + self.note_row(lines.last(), width)
        }
    }

    /// The width of the frame of a note: that of its widest line, or of its
    /// title where that is wider.
    pub open spec fn note_width(prompt: Seq<char>, message: Seq<char>) -> usize {
        let lines = widest(split(message));
        let title = display_width(prompt);
        if lines >= title {
            lines
        } else {
            title
        }
    }

    /// A note: a title and the lines of a message in a frame.
    pub open spec fn note(&self, is_outro: bool, prompt: Seq<char>, message: Seq<char>) -> Seq<
        char,
    > {
        let tone = self.bar.tone(ThemeState::Submit);
        let width = Self::note_width(prompt, message);
        let corner = if is_outro {
            "└"@
        } else {
            "├"@
        };
        self.symbol_of(ThemeState::Submit) + "  "@ + prompt + " "@ + self.tinted(
            tone,
            run_of('─', (width - display_width(prompt)) as nat) + "─╮"@,
        ) + "\n"@ + self.note_gap(width) + self.note_rows(split(message), width)
            + self.note_gap(width) + (self.tinted(
            tone,
            corner + run_of('─', width as nat) + "────╯"@,
        ) + "\n"@)
    }

    /// An empty row inside the frame of a note.
    fn format_note_gap(&self, width: usize) -> (out: String)
        ensures
            out@ == self.note_gap(width),
    {
        let mut out = self.format_margin(ThemeState::Submit);
        out.append(repeat(' ', width).as_str());
        out.append("  ");
        out.append(self.state_bar(ThemeState::Submit).as_str());
        out.append("\n");
        out
    }

    /// One row inside the frame of a note.
    fn format_note_row(&self, line: &str, width: usize) -> (out: String)
        requires
            display_width(line@) <= width,
        ensures
            out@ == self.note_row(line@, width),
    {
        let mut out = self.format_margin(ThemeState::Submit);
        out.append(line);
        out.append(repeat(' ', width - text_width(line)).as_str());
        out.append("  ");
        out.append(self.state_bar(ThemeState::Submit).as_str());
        out.append("\n");
        out
    }

    /// A note: `prompt` as the title of a frame drawn round the lines of
    /// `message`, the frame as wide as the widest of them. Where the note
    /// closes a sequence of prompts the frame ends the bar, else the bar
    /// goes on below it.
    pub fn format_note(&self, is_outro: bool, prompt: &str, message: &str) -> (out: String)
        ensures
            out@ == self.note(is_outro, prompt@, message@),
    {
        let tone = self.bar.pick(ThemeState::Submit);
        let lines = split_lines(message);
        let ghost all = texts(lines@);
        let inner = widest_line(&lines);
        let title = text_width(prompt);
        let width = if inner >= title {
            inner
        } else {
            title
        };
        let mut rule = repeat('─', width - title);
        rule.append("─╮");
        let mut out = self.state_symbol(ThemeState::Submit);
        out.append("  ");
        out.append(prompt);
        out.append(" ");
        out.append(self.tint(tone, rule.as_str()).as_str());
        out.append("\n");
        out.append(self.format_note_gap(width).as_str());
        let ghost base = out@;
        let mut i: usize = 0;
        assert(all.subrange(0, 0) =~= Seq::empty());
        assert(base + self.note_rows(Seq::empty(), width) =~= base);
        while i < lines.len()
            invariant
                i <= lines.len(),
                all == texts(lines@),
                widest(all) <= width,
                out@ == base + self.note_rows(all.subrange(0, i as int), width),
            decreases lines.len() - i,
        {
            let ghost next = all.subrange(0, i + 1);
            assert(next.drop_last() =~= all.subrange(0, i as int));
            assert(next.last() == lines@[i as int]@);
            proof {
                lemma_widest_bounds(all, i as int);
            }
            out.append(self.format_note_row(lines[i].as_str(), width).as_str());
            assert(out@ =~= base + self.note_rows(next, width));
            i = i + 1;
        }
        assert(all.subrange(0, lines@.len() as int) =~= all);
        out.append(self.format_note_gap(width).as_str());
        let ghost above = out@;
        let mut floor = String::from_str(
            if is_outro {
                "└"
            } else {
                "├"
            },
        );
        floor.append(repeat('─', width).as_str());
        floor.append("────╯");
        out.append(self.tint(tone, floor.as_str()).as_str());
        out.append("\n");
        assert(out@ =~= above + (self.tinted(tone, floor@) + "\n"@));
        out
    }

    /// The symbol of a remark.
    pub open spec fn remark_mark(&self) -> Seq<char> {
        self.tinted(self.bar.tone(ThemeState::Submit), "├"@)
    }

    /// The symbol of a remark in the log.
    pub fn remark_symbol(&self) -> (out: String)
        ensures
            out@ == self.remark_mark(),
    {
        self.tint(self.bar.pick(ThemeState::Submit), "├")
    }

    /// The symbol of a piece of information.
    pub open spec fn info_mark(&self) -> Seq<char> {
        self.tinted(Tone::Blue, "●"@)
    }

    /// The symbol of a piece of information in the log.
    pub fn info_symbol(&self) -> (out: String)
        ensures
            out@ == self.info_mark(),
    {
        self.tint(Tone::Blue, "●")
    }

    /// The symbol of a warning.
    pub open spec fn warning_mark(&self) -> Seq<char> {
        self.tinted(Tone::Yellow, "▲"@)
    }

    /// The symbol of a warning in the log.
    pub fn warning_symbol(&self) -> (out: String)
        ensures
            out@ == self.warning_mark(),
    {
        self.tint(Tone::Yellow, "▲")
    }

    /// The symbol of an error.
    pub open spec fn error_mark(&self) -> Seq<char> {
        self.tinted(Tone::Red, "■"@)
    }

    /// The symbol of an error in the log.
    pub fn error_symbol(&self) -> (out: String)
        ensures
            out@ == self.error_mark(),
    {
        self.tint(Tone::Red, "■")
    }

    /// The symbol of a success.
    pub open spec fn active_mark(&self) -> Seq<char> {
        self.tinted(Tone::Green, "◆"@)
    }

    /// The symbol of a success in the log.
    pub fn active_symbol(&self) -> (out: String)
        ensures
            out@ == self.active_mark(),
    {
        self.tint(Tone::Green, "◆")
    }

    /// The symbol of a finished step.
    pub open spec fn submit_mark(&self) -> Seq<char> {
        self.tinted(Tone::Green, "◇"@)
    }

    /// The symbol of a finished step in the log.
    pub fn submit_symbol(&self) -> (out: String)
        ensures
            out@ == self.submit_mark(),
    {
        self.tint(Tone::Green, "◇")
    }
}

} // verus!
