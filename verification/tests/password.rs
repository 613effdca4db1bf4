use cliclack::interaction::{Event, Key, PromptInteraction, State};
use cliclack::password;
use cliclack::password::Password;
use cliclack::theme::Theme;

#[test]
fn password_ab_shows_two_masks_and_submits_ab() {
    let mut prompt = Password::new("Secret?");
    assert_eq!(prompt.notify(&Event::Key(Key::Char('a'))), State::Active);
    assert_eq!(prompt.notify(&Event::Key(Key::Char('b'))), State::Active);
    let theme = Theme::clack(false);
    assert_eq!(
        prompt.render(&State::Active, &theme),
        "◆  Secret?\n│  ▪▪ \n└\n"
    );
    assert_eq!(
        prompt.notify(&Event::Key(Key::Enter)),
        State::Submit("ab".to_string())
    );
    assert_eq!(
        prompt.render(&State::Submit("ab".to_string()), &theme),
        "◇  Secret?\n│  ▪▪\n│\n"
    );
}

#[test]
fn password_mask_can_be_chosen() {
    let mut prompt = password("Secret?").mask('*');
    for c in "abc".chars() {
        prompt.notify(&Event::Key(Key::Char(c)));
    }
    prompt.notify(&Event::Key(Key::ArrowLeft));
    let theme = Theme::clack(true);
    assert_eq!(
        prompt.render(&State::Active, &theme),
        "\x1b[36m◆\x1b[0m  Secret?\n\x1b[36m│\x1b[0m  **\x1b[7m*\x1b[0m\n\x1b[36m└\x1b[0m\n"
    );
}

#[test]
fn password_edits_like_text() {
    let mut prompt = Password::new("Secret?");
    let mut events: Vec<Event> = "abcd".chars().map(|c| Event::Key(Key::Char(c))).collect();
    events.push(Event::Key(Key::ArrowLeft));
    events.push(Event::Key(Key::Backspace));
    events.push(Event::Key(Key::Del));
    events.push(Event::Key(Key::Char('x')));
    events.push(Event::Key(Key::Enter));
    assert_eq!(prompt.interact(&events), State::Submit("abx".to_string()));
}

#[test]
fn password_validator_rejects_and_keeps_the_input() {
    let mut prompt = Password::new("Secret?").validate(|line: &str| {
        if line.len() < 3 {
            Err("Too short".to_string())
        } else {
            Ok(())
        }
    });
    prompt.notify(&Event::Key(Key::Char('a')));
    prompt.notify(&Event::Key(Key::Char('b')));
    assert_eq!(
        prompt.notify(&Event::Key(Key::Enter)),
        State::Error("Too short".to_string())
    );
    let theme = Theme::clack(false);
    assert_eq!(
        prompt.render(&State::Error("Too short".to_string()), &theme),
        "▲  Secret?\n│  ▪▪ \n└  Too short\n"
    );
    prompt.notify(&Event::Key(Key::Char('c')));
    assert_eq!(
        prompt.notify(&Event::Key(Key::Enter)),
        State::Submit("abc".to_string())
    );
}

#[test]
fn password_escape_cancels() {
    let mut prompt = Password::new("Secret?");
    prompt.notify(&Event::Key(Key::Char('a')));
    assert_eq!(prompt.notify(&Event::Key(Key::Escape)), State::Cancel);
    let theme = Theme::clack(false);
    assert_eq!(
        prompt.render(&State::Cancel, &theme),
        "■  Secret?\n│  ▪\n└  Operation cancelled.\n"
    );
}
