//! The spinner: a line that turns while work goes on and freezes when it
//! ends.

use vstd::prelude::*;
use crate::theme::{Theme, ThemeState, Tone};

verus! {

/// What a spinner is doing.
#[derive(Clone, Copy, PartialEq, Eq, Structural, Debug)]
pub enum Status {
    /// Turning.
    Running,
    /// Ended well, or not started yet.
    Stopped,
    /// Ended because the work was given up.
    Cancelled,
    /// Ended because the work failed.
    Error,
}

/// The number of frames in one turn.
pub const FRAMES: usize = 4;

/// The glyph of each frame of the turn.
pub open spec fn frame_glyph(frame: int) -> Seq<char> {
    if frame == 0 {
        "◒"@
    } else if frame == 1 {
        "◐"@
    } else if frame == 2 {
        "◓"@
    } else {
        "◑"@
    }
}

/// The look of the symbol that a spinner freezes on.
pub open spec fn final_look(status: Status) -> ThemeState {
    match status {
        Status::Cancelled => ThemeState::Cancel,
        Status::Error => ThemeState::Error,
        _ => ThemeState::Submit,
    }
}

/// A spinner: the frame it shows, the message beside it and whether it is
/// turning.
pub struct Spinner {
    frame: usize,
    message: String,
    status: Status,
}

impl Spinner {
    /// The index of the frame shown.
    pub closed spec fn frame_index(&self) -> int {
        self.frame as int
    }

    /// The message beside the glyph.
    pub closed spec fn message(&self) -> Seq<char> {
        self.message@
    }

    /// What the spinner is doing.
    pub closed spec fn status(&self) -> Status {
        self.status
    }

    /// The frame is one of the turn.
    pub open spec fn wf(&self) -> bool {
        0 <= self.frame_index() < FRAMES
    }

    /// A spinner at rest, with no message.
    pub fn new() -> (out: Spinner)
        ensures
            out.wf(),
            out.frame_index() == 0,
            out.message() == Seq::<char>::empty(),
            out.status() == Status::Stopped,
    {
        Spinner { frame: 0, message: String::new(), status: Status::Stopped }
    }

    /// What the spinner is doing.
    pub fn current_status(&self) -> (status: Status)
        ensures
            status == self.status(),
    {
        self.status
    }

    /// Starts the turn from its first frame, with `message` beside it.
    pub fn start(&mut self, message: &str)
        ensures
            final(self).wf(),
            final(self).frame_index() == 0,
            final(self).message() == message@,
            final(self).status() == Status::Running,
    {
        self.frame = 0;
        self.message = message.to_owned();
        self.status = Status::Running;
    }

    /// Ends the turn with `status` and `message`; the frame stays.
    fn finish(&mut self, status: Status, message: &str)
        ensures
            final(self).frame_index() == old(self).frame_index(),
            final(self).message() == message@,
            final(self).status() == status,
    {
        self.message = message.to_owned();
        self.status = status;
    }

    /// Freezes the spinner on the symbol of success, with `message`.
    pub fn stop(&mut self, message: &str)
        ensures
            final(self).frame_index() == old(self).frame_index(),
            final(self).message() == message@,
            final(self).status() == Status::Stopped,
    {
        self.finish(Status::Stopped, message);
    }

    /// Freezes the spinner on the symbol of cancellation, with `message`.
    pub fn cancel(&mut self, message: &str)
        ensures
            final(self).frame_index() == old(self).frame_index(),
            final(self).message() == message@,
            final(self).status() == Status::Cancelled,
    {
        self.finish(Status::Cancelled, message);
    }

    /// Freezes the spinner on the symbol of failure, with `message`.
    pub fn error(&mut self, message: &str)
        ensures
            final(self).frame_index() == old(self).frame_index(),
            final(self).message() == message@,
            final(self).status() == Status::Error,
    {
        self.finish(Status::Error, message);
    }

    /// One beat of the timer: a running spinner goes on to the next frame,
    /// and from the last to the first; a spinner at rest stays as it is.
    pub fn tick(&mut self)
        requires
            old(self).wf(),
        ensures
            final(self).wf(),
            final(self).message() == old(self).message(),
            final(self).status() == old(self).status(),
            final(self).frame_index() == if old(self).status() == Status::Running {
                (old(self).frame_index() + 1) % (FRAMES as int)
            } else {
                old(self).frame_index()
            },
    {
        if self.status == Status::Running {
            self.frame = (self.frame + 1) % FRAMES;
        }
    }

    /// What the spinner shows: the glyph of its frame while it runs, the
    /// symbol of its ending once it rests, and its message.
    pub open spec fn frame(&self, theme: &Theme) -> Seq<char> {
        (if self.status() == Status::Running {
            theme.tinted(Tone::Magenta, frame_glyph(self.frame_index()))
        } else {
            theme.symbol_of(final_look(self.status()))
        }) + "  "@ + self.message() + "\n"@
    }

    /// Draws the spinner as it stands.
    pub fn render(&self, theme: &Theme) -> (out: String)
        ensures
            out@ == self.frame(theme),
    {
        let mut out = match self.status {
            Status::Running => {
                let glyph = if self.frame == 0 {
                    "◒"
                } else if self.frame == 1 {
                    "◐"
                } else if self.frame == 2 {
                    "◓"
                } else {
                    "◑"
                };
                theme.tint(Tone::Magenta, glyph)
            },
            Status::Stopped => theme.state_symbol(ThemeState::Submit),
            Status::Cancelled => theme.state_symbol(ThemeState::Cancel),
            Status::Error => theme.state_symbol(ThemeState::Error),
        };
        out.append("  ");
        out.append(self.message.as_str());
        out.append("\n");
        out
    }
}

impl Default for Spinner {
    fn default() -> (out: Spinner)
        ensures
            out.wf(),
            out.frame_index() == 0,
            out.message() == Seq::<char>::empty(),
            out.status() == Status::Stopped,
    {
        Spinner::new()
    }
}

} // verus!
