use cliclack::spinner;
use cliclack::spinner::{Spinner, Status};
use cliclack::theme::Theme;

#[test]
fn spinner_starts_at_rest() {
    let spinner = spinner();
    assert_eq!(spinner.current_status(), Status::Stopped);
    let other = Spinner::default();
    assert_eq!(other.current_status(), Status::Stopped);
    assert_eq!(other.render(&Theme::clack(false)), "◇  \n");
}

#[test]
fn spinner_turns_through_its_frames() {
    let theme = Theme::clack(false);
    let mut spinner = Spinner::new();
    spinner.start("Installing...");
    assert_eq!(spinner.current_status(), Status::Running);
    let mut frames = Vec::new();
    for _ in 0..9 {
        frames.push(spinner.render(&theme));
        spinner.tick();
    }
    let expected: Vec<String> = ["◒", "◐", "◓", "◑", "◒", "◐", "◓", "◑", "◒"]
        .iter()
        .map(|glyph| format!("{glyph}  Installing...\n"))
        .collect();
    assert_eq!(frames, expected);
}

#[test]
fn spinner_in_colour() {
    let theme = Theme::clack(true);
    let mut spinner = Spinner::new();
    spinner.start("Working");
    spinner.tick();
    assert_eq!(spinner.render(&theme), "\x1b[35m◐\x1b[0m  Working\n");
    spinner.stop("Done");
    assert_eq!(spinner.render(&theme), "\x1b[32m◇\x1b[0m  Done\n");
}

#[test]
fn spinner_freezes_when_stopped() {
    let theme = Theme::clack(false);
    let mut spinner = Spinner::new();
    spinner.start("Installing...");
    spinner.tick();
    spinner.stop("Installation complete");
    assert_eq!(spinner.current_status(), Status::Stopped);
    let frozen = spinner.render(&theme);
    assert_eq!(frozen, "◇  Installation complete\n");
    spinner.tick();
    spinner.tick();
    assert_eq!(spinner.render(&theme), frozen);
}

#[test]
fn spinner_stop_modes_choose_the_glyph() {
    let theme = Theme::clack(false);
    let mut cancelled = Spinner::new();
    cancelled.start("Installing...");
    cancelled.cancel("Given up");
    assert_eq!(cancelled.current_status(), Status::Cancelled);
    assert_eq!(cancelled.render(&theme), "■  Given up\n");
    let mut failed = Spinner::new();
    failed.start("Installing...");
    failed.error("Disk full");
    assert_eq!(failed.current_status(), Status::Error);
    assert_eq!(failed.render(&theme), "▲  Disk full\n");
}

#[test]
fn spinner_restarts_from_the_first_frame() {
    let theme = Theme::clack(false);
    let mut spinner = Spinner::new();
    spinner.start("One");
    spinner.tick();
    spinner.tick();
    spinner.stop("Done");
    spinner.start("Two");
    assert_eq!(spinner.render(&theme), "◒  Two\n");
}
