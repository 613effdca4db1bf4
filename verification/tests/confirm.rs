use cliclack::confirm;
use cliclack::confirm::Confirm;
use cliclack::interaction::{Event, Key, PromptInteraction, State};
use cliclack::theme::Theme;

#[test]
fn confirm_y_submits_true_at_once() {
    let mut prompt = Confirm::new("Sure?");
    assert_eq!(
        prompt.notify(&Event::Key(Key::Char('y'))),
        State::Submit(true)
    );
}

#[test]
fn confirm_letters_answer_whatever_is_highlighted() {
    for (key, value) in [('y', true), ('Y', true), ('n', false), ('N', false)] {
        for initial in [true, false] {
            let mut prompt = Confirm::new("Sure?").initial_value(initial);
            assert_eq!(
                prompt.notify(&Event::Key(Key::Char(key))),
                State::Submit(value)
            );
        }
    }
}

#[test]
fn confirm_enter_submits_the_highlight() {
    let mut no = confirm("Sure?");
    assert_eq!(no.notify(&Event::Key(Key::Enter)), State::Submit(false));
    let mut yes = Confirm::new("Sure?").initial_value(true);
    assert_eq!(yes.notify(&Event::Key(Key::Enter)), State::Submit(true));
}

#[test]
fn confirm_arrows_and_tab_toggle() {
    for key in [Key::ArrowLeft, Key::ArrowRight, Key::Tab] {
        let mut prompt = Confirm::new("Sure?");
        assert_eq!(prompt.notify(&Event::Key(key)), State::Active);
        assert_eq!(prompt.notify(&Event::Key(Key::Enter)), State::Submit(true));
        let mut twice = Confirm::new("Sure?");
        assert_eq!(twice.notify(&Event::Key(key)), State::Active);
        assert_eq!(twice.notify(&Event::Key(key)), State::Active);
        assert_eq!(twice.notify(&Event::Key(Key::Enter)), State::Submit(false));
    }
}

#[test]
fn confirm_other_keys_do_nothing() {
    let mut prompt = Confirm::new("Sure?");
    for key in [Key::Char('x'), Key::ArrowUp, Key::ArrowDown, Key::Backspace, Key::Char(' ')] {
        assert_eq!(prompt.notify(&Event::Key(key)), State::Active);
    }
    assert_eq!(prompt.notify(&Event::Key(Key::Enter)), State::Submit(false));
}

#[test]
fn confirm_escape_cancels_and_later_events_are_dropped() {
    let mut prompt = Confirm::new("Sure?");
    let events = vec![
        Event::Key(Key::Tab),
        Event::Key(Key::Escape),
        Event::Key(Key::Tab),
        Event::Key(Key::Char('y')),
    ];
    assert_eq!(prompt.interact(&events), State::Cancel);
    let theme = Theme::clack(false);
    assert_eq!(
        prompt.render(&State::Cancel, &theme),
        "■  Sure?\n│  Yes\n└  Operation cancelled.\n"
    );
}

#[test]
fn confirm_render_marks_the_highlight() {
    let theme = Theme::clack(false);
    let mut prompt = Confirm::new("Sure?");
    assert_eq!(
        prompt.render(&State::Active, &theme),
        "◆  Sure?\n│  ○ Yes / ● No\n└\n"
    );
    prompt.notify(&Event::Key(Key::ArrowLeft));
    assert_eq!(
        prompt.render(&State::Active, &theme),
        "◆  Sure?\n│  ● Yes / ○ No\n└\n"
    );
    let colour = Theme::clack(true);
    assert_eq!(
        prompt.render(&State::Active, &colour),
        "\x1b[36m◆\x1b[0m  Sure?\n\x1b[36m│\x1b[0m  \x1b[32m●\x1b[0m Yes / \x1b[2m○\x1b[0m \x1b[2mNo\x1b[0m\n\x1b[36m└\x1b[0m\n"
    );
}

#[test]
fn confirm_render_shows_the_submitted_answer() {
    let theme = Theme::clack(false);
    let prompt = Confirm::new("Sure?");
    assert_eq!(
        prompt.render(&State::Submit(true), &theme),
        "◇  Sure?\n│  Yes\n│\n"
    );
    assert_eq!(
        prompt.render(&State::Submit(false), &theme),
        "◇  Sure?\n│  No\n│\n"
    );
}
