use cliclack::cursor::StringCursor;
use cliclack::theme::{repeat, widest_line, Palette, Theme, ThemeState, Tone};
use cliclack::{intro, note, outro, outro_cancel, outro_note};

#[test]
fn tint_wraps_text_in_the_escape_of_each_tone() {
    let theme = Theme::clack(true);
    let cases = [
        (Tone::Red, "31"),
        (Tone::Green, "32"),
        (Tone::Yellow, "33"),
        (Tone::Blue, "34"),
        (Tone::Magenta, "35"),
        (Tone::Cyan, "36"),
        (Tone::Dim, "2"),
        (Tone::Reverse, "7"),
        (Tone::Strike, "9"),
    ];
    for (tone, code) in cases {
        assert_eq!(theme.tint(tone, "x y"), format!("\x1b[{code}mx y\x1b[0m"));
    }
    assert_eq!(theme.tint(Tone::Plain, "x y"), "x y");
}

#[test]
fn tint_without_colours_leaves_text_bare() {
    let theme = Theme::clack(false);
    for tone in [
        Tone::Plain,
        Tone::Red,
        Tone::Green,
        Tone::Yellow,
        Tone::Blue,
        Tone::Magenta,
        Tone::Cyan,
        Tone::Dim,
        Tone::Reverse,
        Tone::Strike,
    ] {
        assert_eq!(theme.tint(tone, "x y"), "x y");
    }
}

#[test]
fn tint_of_empty_text_still_switches_the_tone() {
    let theme = Theme::clack(true);
    assert_eq!(theme.tint(Tone::Red, ""), "\x1b[31m\x1b[0m");
}

#[test]
fn clack_theme_has_the_built_in_palettes() {
    let theme = Theme::clack(true);
    assert!(theme.colors);
    assert_eq!(
        theme.bar,
        Palette { active: Tone::Cyan, cancel: Tone::Red, submit: Tone::Dim, error: Tone::Yellow }
    );
    assert_eq!(
        theme.symbol,
        Palette { active: Tone::Cyan, cancel: Tone::Red, submit: Tone::Green, error: Tone::Yellow }
    );
    assert_eq!(theme.bar.pick(ThemeState::Error), Tone::Yellow);
    assert_eq!(theme.symbol.pick(ThemeState::Submit), Tone::Green);
}

#[test]
fn detected_theme_is_the_built_in_one() {
    let theme = Theme::detect();
    assert_eq!(theme, Theme::clack(theme.colors));
}

#[test]
fn state_symbols_and_bars() {
    let plain = Theme::clack(false);
    assert_eq!(plain.state_symbol(ThemeState::Active), "◆");
    assert_eq!(plain.state_symbol(ThemeState::Cancel), "■");
    assert_eq!(plain.state_symbol(ThemeState::Submit), "◇");
    assert_eq!(plain.state_symbol(ThemeState::Error), "▲");
    assert_eq!(plain.state_bar(ThemeState::Active), "│");
    let colour = Theme::clack(true);
    assert_eq!(colour.state_symbol(ThemeState::Active), "\x1b[36m◆\x1b[0m");
    assert_eq!(colour.state_symbol(ThemeState::Cancel), "\x1b[31m■\x1b[0m");
    assert_eq!(colour.state_symbol(ThemeState::Submit), "\x1b[32m◇\x1b[0m");
    assert_eq!(colour.state_symbol(ThemeState::Error), "\x1b[33m▲\x1b[0m");
    assert_eq!(colour.state_bar(ThemeState::Submit), "\x1b[2m│\x1b[0m");
    assert_eq!(colour.state_bar(ThemeState::Error), "\x1b[33m│\x1b[0m");
}

#[test]
fn a_theme_of_ones_own_changes_the_tones() {
    let mut theme = Theme::clack(true);
    theme.symbol = Palette {
        active: Tone::Magenta,
        cancel: Tone::Magenta,
        submit: Tone::Magenta,
        error: Tone::Magenta,
    };
    assert_eq!(theme.state_symbol(ThemeState::Active), "\x1b[35m◆\x1b[0m");
    assert_eq!(
        theme.format_header(ThemeState::Submit, "Q"),
        "\x1b[35m◇\x1b[0m  Q\n"
    );
    assert_eq!(theme.state_bar(ThemeState::Active), "\x1b[36m│\x1b[0m");
}

#[test]
fn header_and_footer() {
    let theme = Theme::clack(false);
    assert_eq!(theme.format_header(ThemeState::Active, "Name?"), "◆  Name?\n");
    assert_eq!(theme.format_footer(ThemeState::Active, ""), "└\n");
    assert_eq!(theme.format_footer(ThemeState::Active, "ignored"), "└\n");
    assert_eq!(theme.format_footer(ThemeState::Submit, ""), "│\n");
    assert_eq!(
        theme.format_footer(ThemeState::Cancel, ""),
        "└  Operation cancelled.\n"
    );
    assert_eq!(theme.format_footer(ThemeState::Error, "Bad"), "└  Bad\n");
    let colour = Theme::clack(true);
    assert_eq!(
        colour.format_footer(ThemeState::Error, "Bad"),
        "\x1b[33m└\x1b[0m  \x1b[33mBad\x1b[0m\n"
    );
}

#[test]
fn input_line_in_each_state() {
    let theme = Theme::clack(true);
    let mut line = StringCursor::new();
    line.extend("abc");
    line.move_right();
    assert_eq!(
        theme.format_input(ThemeState::Active, &line),
        "\x1b[36m│\x1b[0m  a\x1b[7mb\x1b[0mc\n"
    );
    assert_eq!(
        theme.format_input(ThemeState::Error, &line),
        "\x1b[33m│\x1b[0m  a\x1b[7mb\x1b[0mc\n"
    );
    assert_eq!(
        theme.format_input(ThemeState::Submit, &line),
        "\x1b[2m│\x1b[0m  \x1b[2mabc\x1b[0m\n"
    );
    assert_eq!(
        theme.format_input(ThemeState::Cancel, &line),
        "\x1b[31m│\x1b[0m  \x1b[9mabc\x1b[0m\n"
    );
    let empty = StringCursor::new();
    assert_eq!(
        theme.format_input(ThemeState::Active, &empty),
        "\x1b[36m│\x1b[0m  \x1b[7m \x1b[0m\n"
    );
}

#[test]
fn intro_and_outro_blocks() {
    let plain = Theme::clack(false);
    assert_eq!(intro(&plain, "create-my-app"), "┌  create-my-app\n│\n");
    assert_eq!(outro(&plain, "You're all set!"), "└  You're all set!\n\n");
    assert_eq!(outro_cancel(&plain, "Bye"), "└  Bye\n\n");
    let colour = Theme::clack(true);
    assert_eq!(
        intro(&colour, "create-my-app"),
        "\x1b[2m┌\x1b[0m  create-my-app\n\x1b[2m│\x1b[0m\n"
    );
    assert_eq!(outro(&colour, "Done"), "\x1b[2m└\x1b[0m  Done\n\n");
    assert_eq!(
        outro_cancel(&colour, "Bye"),
        "\x1b[2m└\x1b[0m  \x1b[31mBye\x1b[0m\n\n"
    );
}

#[test]
fn repeat_makes_a_run() {
    assert_eq!(repeat('─', 0), "");
    assert_eq!(repeat('─', 3), "───");
    assert_eq!(repeat(' ', 2), "  ");
}

#[test]
fn widest_line_measures_columns_not_characters() {
    assert_eq!(widest_line(&Vec::new()), 0);
    assert_eq!(widest_line(&vec!["ab".to_string(), "abcd".to_string(), "a".to_string()]), 4);
    assert_eq!(widest_line(&vec!["日本".to_string(), "abc".to_string()]), 4);
    assert_eq!(widest_line(&vec!["\x1b[31mred\x1b[0m".to_string()]), 3);
}

#[test]
fn note_frames_the_message() {
    let theme = Theme::clack(false);
    assert_eq!(
        note(&theme, "Next steps", "cd app\nnpm install"),
        "◇  Next steps ──╮\n│               │\n│  cd app       │\n│  npm install  │\n│               │\n├───────────────╯\n"
    );
    assert_eq!(
        outro_note(&theme, "Next steps", "cd app\nnpm install"),
        "◇  Next steps ──╮\n│               │\n│  cd app       │\n│  npm install  │\n│               │\n└───────────────╯\n"
    );
}

#[test]
fn note_is_as_wide_as_its_title_when_that_is_wider() {
    let theme = Theme::clack(false);
    assert_eq!(
        note(&theme, "A long title", "hi"),
        "◇  A long title ─╮\n│                │\n│  hi            │\n│                │\n├────────────────╯\n"
    );
}

#[test]
fn note_pads_by_columns() {
    let theme = Theme::clack(false);
    assert_eq!(
        note(&theme, "T", "日本\nabcd"),
        "◇  T ────╮\n│        │\n│  日本  │\n│  abcd  │\n│        │\n├────────╯\n"
    );
}

#[test]
fn note_in_colour() {
    let theme = Theme::clack(true);
    let bar = "\x1b[2m│\x1b[0m";
    let expected = format!(
        "\x1b[32m◇\x1b[0m  T \x1b[2m──╮\x1b[0m\n{bar}      {bar}\n{bar}  ab  {bar}\n{bar}      {bar}\n\x1b[2m├──────╯\x1b[0m\n"
    );
    assert_eq!(note(&theme, "T", "ab"), expected);
}

#[test]
fn option_lines() {
    let theme = Theme::clack(false);
    assert_eq!(
        theme.format_select_item(ThemeState::Active, true, "One", "first"),
        "│  ● One (first)\n"
    );
    assert_eq!(
        theme.format_select_item(ThemeState::Active, false, "One", "first"),
        "│  ○ One\n"
    );
    assert_eq!(theme.format_select_item(ThemeState::Submit, false, "One", ""), "");
    assert_eq!(
        theme.format_multiselect_item(ThemeState::Active, true, true, "One", ""),
        "│  ◼ One\n"
    );
    assert_eq!(
        theme.format_multiselect_item(ThemeState::Submit, false, true, "One", ""),
        ""
    );
    assert_eq!(theme.format_confirm(ThemeState::Error, true), "│  ● Yes / ○ No\n");
    assert_eq!(theme.format_aside(""), "");
    assert_eq!(theme.format_aside("x"), " (x)");
}
