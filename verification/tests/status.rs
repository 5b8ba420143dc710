use tui_apps::editor::{EditingMode, Screen};
use tui_apps::status::{editing_label, key_hint, pair_line, screen_label, Color, KEY_COLUMNS};

#[test]
fn screen_label_names_the_screen() {
    assert_eq!(screen_label(Screen::Main).text, "Normal Mode");
    assert_eq!(screen_label(Screen::Main).color, Color::Green);
    assert_eq!(screen_label(Screen::Editing).text, "Editing Mode");
    assert_eq!(screen_label(Screen::Editing).color, Color::Yellow);
    assert_eq!(screen_label(Screen::Exiting).text, "Exiting");
    assert_eq!(screen_label(Screen::Exiting).color, Color::LightRed);
}

#[test]
fn editing_label_names_the_active_buffer() {
    assert_eq!(editing_label(Some(EditingMode::Key)).text, "Editing JSON Key");
    assert_eq!(editing_label(Some(EditingMode::Key)).color, Color::Green);
    assert_eq!(editing_label(Some(EditingMode::Value)).text, "Editing JSON Value");
    assert_eq!(editing_label(Some(EditingMode::Value)).color, Color::LightGreen);
    assert_eq!(editing_label(None).text, "Not Editing Anything");
    assert_eq!(editing_label(None).color, Color::DarkGray);
}

#[test]
fn key_hint_lists_the_keys() {
    assert_eq!(key_hint(Screen::Main).text, "(q) to quit / (e) to make new pair");
    assert_eq!(
        key_hint(Screen::Editing).text,
        "(ESC) to cancel / (Tab) to switch boxes/enter to complete"
    );
    assert_eq!(key_hint(Screen::Exiting).text, "(q) to quit / (e) to make new pair");
    for screen in [Screen::Main, Screen::Editing, Screen::Exiting] {
        assert_eq!(key_hint(screen).color, Color::Red);
    }
}

#[test]
fn pair_line_pads_the_key() {
    assert_eq!(KEY_COLUMNS, 25);
    assert_eq!(pair_line("name", "alice"), "name                      : alice");
    assert_eq!(pair_line("name", "alice"), format!("{: <25} : {}", "name", "alice"));
    assert_eq!(pair_line("", ""), format!("{: <25} : {}", "", ""));
    assert_eq!(pair_line("", "").chars().count(), 28);
}

#[test]
fn pair_line_counts_characters() {
    let key = "cl\u{e9}\u{4e2d}";
    assert_eq!(pair_line(key, "v"), format!("{: <25} : {}", key, "v"));
    assert_eq!(pair_line(key, "v").chars().count(), 29);
}

#[test]
fn pair_line_keeps_long_keys_whole() {
    let exact = "abcdefghijklmnopqrstuvwxy";
    assert_eq!(exact.len(), 25);
    assert_eq!(pair_line(exact, "1"), "abcdefghijklmnopqrstuvwxy : 1");
    let long = "abcdefghijklmnopqrstuvwxyz0123";
    assert_eq!(pair_line(long, "1"), "abcdefghijklmnopqrstuvwxyz0123 : 1");
    assert_eq!(pair_line(long, "1"), format!("{: <25} : {}", long, "1"));
    let short = "abcdefghijklmnopqrstuvwx";
    assert_eq!(pair_line(short, "1"), "abcdefghijklmnopqrstuvwx  : 1");
}
