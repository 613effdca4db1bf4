//! Interactive terminal prompts: the state machines that turn key events into
//! results, the editable text buffer beneath them, and the theme that draws
//! each prompt as text.
//!
//! Nothing here touches the terminal. A prompt is told of each key with
//! `notify` and drawn with `render`; the banners and log messages are
//! returned as text for the caller to write.

use vstd::prelude::*;

pub mod confirm;
pub mod cursor;
pub mod interaction;
pub mod lines;
pub mod log;
pub mod multiselect;
pub mod password;
pub mod select;
pub mod spinner;
pub mod text;
pub mod theme;
pub mod validate;

pub use crate::confirm::Confirm;
pub use crate::interaction::{Event, Key, PromptInteraction, State};
pub use crate::multiselect::MultiSelect;
pub use crate::password::Password;
pub use crate::select::Select;
pub use crate::spinner::Spinner;
pub use crate::text::Text;
pub use crate::theme::{Theme, ThemeState};
pub use crate::validate::Validate;

verus! {

/// The header of a sequence of prompts.
pub fn intro(theme: &Theme, title: &str) -> (out: String)
    ensures
        out@ == theme.intro(title@),
{
    theme.format_intro(title)
}

/// The footer of a sequence of prompts.
pub fn outro(theme: &Theme, message: &str) -> (out: String)
    ensures
        out@ == theme.outro(message@),
{
    theme.format_outro(message)
}

/// The footer of a sequence of prompts that was given up.
pub fn outro_cancel(theme: &Theme, message: &str) -> (out: String)
    ensures
        out@ == theme.outro_cancel(message@),
{
    theme.format_outro_cancel(message)
}

/// A framed note that ends a sequence of prompts.
pub fn outro_note(theme: &Theme, prompt: &str, message: &str) -> (out: String)
    ensures
        out@ == theme.note(true, prompt@, message@),
{
    theme.format_note(true, prompt, message)
}

/// A framed note among the prompts.
pub fn note(theme: &Theme, prompt: &str, message: &str) -> (out: String)
    ensures
        out@ == theme.note(false, prompt@, message@),
{
    theme.format_note(false, prompt, message)
}

/// A new prompt for a line of text.
pub fn input(prompt: &str) -> (out: Text)
    ensures
        out.wf(),
        out.prompt() == prompt@,
        out.hint() == crate::cursor::Buffer::empty(),
        out.line() == crate::cursor::Buffer::empty(),
        out.validator() is None,
{
    Text::new(prompt)
}

/// A new prompt for a secret.
pub fn password(prompt: &str) -> (out: Password)
    ensures
        out.wf(),
        out.glyph() == '▪',
        out.entry().prompt() == prompt@,
        out.entry().hint() == crate::cursor::Buffer::empty(),
        out.entry().line() == crate::cursor::Buffer::empty(),
        out.entry().validator() is None,
{
    Password::new(prompt)
}

/// A new prompt for one choice out of a list, the list still empty.
pub fn select<T: Clone + Eq>(prompt: &str) -> (out: Select<T>)
    ensures
        out.in_range(),
        out.prompt() == prompt@,
        out.items() == Seq::<crate::select::Item<T>>::empty(),
        out.cursor() == 0,
{
    Select::new(prompt)
}

/// A new prompt for any number of choices out of a list, the list still
/// empty.
pub fn multiselect<T: Clone + Eq>(prompt: &str) -> (out: MultiSelect<T>)
    ensures
        out.in_range(),
        out.prompt() == prompt@,
        out.items() == Seq::<crate::select::Item<T>>::empty(),
        out.flags() == Seq::<bool>::empty(),
        out.cursor() == 0,
{
    MultiSelect::new(prompt)
}

/// A new prompt for a yes or a no, with "no" highlighted.
pub fn confirm(prompt: &str) -> (out: Confirm)
    ensures
        out.prompt() == prompt@,
        out.highlight() == false,
{
    Confirm::new(prompt)
}

/// A new spinner, at rest.
pub fn spinner() -> (out: Spinner)
    ensures
        out.wf(),
        out.frame_index() == 0,
        out.message() == Seq::<char>::empty(),
        out.status() == crate::spinner::Status::Stopped,
{
    Spinner::new()
}

} // verus!
