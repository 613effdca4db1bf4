use cliclack::confirm::Confirm;
use cliclack::interaction::{play, Event, Interaction, Key, PromptInteraction, State};
use cliclack::select::Select;
use cliclack::text::Text;
use cliclack::theme::{Theme, ThemeState};

#[test]
fn states_know_whether_they_end_the_interaction() {
    assert!(!State::<u8>::Active.is_terminal());
    assert!(!State::<u8>::Error("x".to_string()).is_terminal());
    assert!(State::Submit(1u8).is_terminal());
    assert!(State::<u8>::Cancel.is_terminal());
}

#[test]
fn states_know_their_look_and_message() {
    assert_eq!(State::<u8>::Active.theme_state(), ThemeState::Active);
    assert_eq!(State::<u8>::Error("x".to_string()).theme_state(), ThemeState::Error);
    assert_eq!(State::Submit(1u8).theme_state(), ThemeState::Submit);
    assert_eq!(State::<u8>::Cancel.theme_state(), ThemeState::Cancel);
    assert_eq!(State::<u8>::Error("x".to_string()).error_message(), "x");
    assert_eq!(State::<u8>::Active.error_message(), "");
    assert_eq!(State::Submit(1u8).error_message(), "");
}

#[test]
fn a_new_interaction_is_active_with_nothing_on_screen() {
    let mut record: Interaction<String> = Interaction::new();
    assert_eq!(*record.current(), State::Active);
    assert!(!record.is_finished());
    assert_eq!(record.redraw("a\nb\n"), 0);
}

#[test]
fn redraw_erases_what_the_last_frame_took() {
    let mut record: Interaction<String> = Interaction::new();
    assert_eq!(record.redraw("◆  Name?\n│  \n└\n"), 0);
    assert_eq!(record.redraw("◆  Name?\n│  a\n└\n"), 3);
    assert_eq!(record.redraw("▲  Name?\n│  a\n│  more\n└  Bad\n"), 3);
    assert_eq!(record.redraw("x"), 4);
    assert_eq!(record.redraw(""), 1);
    assert_eq!(record.redraw(""), 0);
}

#[test]
fn feed_hands_events_on_until_the_end() {
    let mut prompt = Text::new("Name?");
    let mut record: Interaction<String> = Interaction::new();
    record.feed(&mut prompt, &Event::Key(Key::Char('a')));
    assert_eq!(*record.current(), State::Active);
    assert!(!record.is_finished());
    record.feed(&mut prompt, &Event::Key(Key::Enter));
    assert_eq!(*record.current(), State::Submit("a".to_string()));
    assert!(record.is_finished());
    record.feed(&mut prompt, &Event::Key(Key::Char('b')));
    record.feed(&mut prompt, &Event::Key(Key::Escape));
    assert_eq!(*record.current(), State::Submit("a".to_string()));
    assert_eq!(prompt.input().to_string(), "a");
    assert_eq!(record.into_state(), State::Submit("a".to_string()));
}

#[test]
fn feed_after_escape_changes_nothing() {
    let mut prompt = Text::new("Name?");
    let mut record: Interaction<String> = Interaction::new();
    record.feed(&mut prompt, &Event::Key(Key::Char('a')));
    record.feed(&mut prompt, &Event::Key(Key::Escape));
    assert_eq!(*record.current(), State::Cancel);
    for key in [Key::Char('b'), Key::Backspace, Key::Enter, Key::ArrowLeft] {
        record.feed(&mut prompt, &Event::Key(key));
        assert_eq!(*record.current(), State::Cancel);
        assert_eq!(prompt.input().to_string(), "a");
        assert_eq!(prompt.input().cursor(), 1);
    }
}

#[test]
fn feed_goes_on_after_an_error() {
    let mut prompt = Text::new("Name?").validate(|line: &str| {
        if line.is_empty() {
            Err("Value is required!".to_string())
        } else {
            Ok(())
        }
    });
    let mut record: Interaction<String> = Interaction::new();
    record.feed(&mut prompt, &Event::Key(Key::Enter));
    assert_eq!(*record.current(), State::Error("Value is required!".to_string()));
    assert!(!record.is_finished());
    record.feed(&mut prompt, &Event::Key(Key::Char('a')));
    assert_eq!(*record.current(), State::Active);
    record.feed(&mut prompt, &Event::Key(Key::Enter));
    assert_eq!(*record.current(), State::Submit("a".to_string()));
}

#[test]
fn a_whole_interaction_frame_by_frame() {
    let theme = Theme::clack(false);
    let mut prompt = Confirm::new("Sure?");
    let mut record: Interaction<bool> = Interaction::new();
    let mut written = Vec::new();
    let mut keys = vec![Key::Tab, Key::Enter, Key::Tab].into_iter();
    loop {
        let frame = prompt.render(record.current(), &theme);
        let erase = record.redraw(&frame);
        written.push((erase, frame));
        if record.is_finished() {
            break;
        }
        let key = keys.next().unwrap();
        record.feed(&mut prompt, &Event::Key(key));
    }
    assert_eq!(
        written,
        vec![
            (0, "◆  Sure?\n│  ○ Yes / ● No\n└\n".to_string()),
            (3, "◆  Sure?\n│  ● Yes / ○ No\n└\n".to_string()),
            (3, "◇  Sure?\n│  Yes\n│\n".to_string()),
        ]
    );
    assert_eq!(record.into_state(), State::Submit(true));
}

#[test]
fn play_runs_any_prompt() {
    let mut prompt = Select::new("Pick").item(1u8, "One", "").item(2u8, "Two", "");
    let events = vec![
        Event::Key(Key::ArrowDown),
        Event::Key(Key::Enter),
        Event::Key(Key::ArrowUp),
    ];
    assert_eq!(play(&mut prompt, &events), State::Submit(2));
    assert_eq!(prompt.highlighted(), 1);
}
