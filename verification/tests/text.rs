use manifold::platform::char_key;
use manifold::text::{is_whitespace, split_words, string_of, to_chars};
use manifold::ui::{cursor_column, format_number, status_line, tab_label};
use manifold::{content_height, App, EventStream, KeyCode, ManPage, RenderError};
use std::time::Duration;

#[test]
fn whitespace_is_what_the_standard_library_calls_whitespace() {
    for code in 0u32..=0x10ffff {
        if let Some(c) = char::from_u32(code) {
            assert_eq!(is_whitespace(c), c.is_whitespace(), "U+{code:04X}");
        }
    }
}

#[test]
fn words_are_split_as_the_standard_library_splits_them() {
    for line in [
        "",
        " ",
        "man",
        "man ls",
        "  man   2\tread  ",
        "\u{a0}a\u{2003}b\u{3000}",
        "naïve café",
        "a\nb\r\nc",
        "x",
        " x",
        "x ",
    ] {
        let expected: Vec<String> = line.split_whitespace().map(str::to_string).collect();
        assert_eq!(split_words(line), expected, "{line:?}");
    }
}

#[test]
fn words_of_a_command_line() {
    assert_eq!(split_words("man 2 read"), vec!["man", "2", "read"]);
    assert_eq!(split_words(" \t "), Vec::<String>::new());
}

#[test]
fn characters_and_strings_convert_both_ways() {
    let chars = to_chars("héllo wörld");
    assert_eq!(chars.len(), 11);
    assert_eq!(chars[1], 'é');
    assert_eq!(string_of(&chars, 0, 5), "héllo");
    assert_eq!(string_of(&chars, 6, 11), "wörld");
    assert_eq!(string_of(&chars, 3, 3), "");
    assert_eq!(to_chars(""), Vec::<char>::new());
}

#[test]
fn content_height_leaves_two_rows_out() {
    assert_eq!(content_height(0), 0);
    assert_eq!(content_height(1), 0);
    assert_eq!(content_height(2), 0);
    assert_eq!(content_height(3), 1);
    assert_eq!(content_height(24), 22);
    assert_eq!(content_height(u16::MAX), 65533);
}

#[test]
fn cursor_stands_behind_the_typed_text() {
    assert_eq!(cursor_column(0, 80, 0), 1);
    assert_eq!(cursor_column(0, 80, 5), 6);
    assert_eq!(cursor_column(0, 80, 78), 79);
    assert_eq!(cursor_column(0, 80, 79), 79);
    assert_eq!(cursor_column(0, 80, 500), 79);
    assert_eq!(cursor_column(10, 20, 3), 14);
    assert_eq!(cursor_column(10, 20, 30), 29);
    assert_eq!(cursor_column(10, 0, 3), 10);
    assert_eq!(cursor_column(10, 1, 0), 10);
    assert_eq!(cursor_column(65000, 1000, usize::MAX), u16::MAX);
    assert_eq!(cursor_column(65000, 1000, 2), 65003);
    assert_eq!(cursor_column(u16::MAX, 5, 0), u16::MAX);
}

#[test]
fn control_turns_a_character_into_a_control_key() {
    assert_eq!(char_key('c', true), KeyCode::Ctrl('c'));
    assert_eq!(char_key('c', false), KeyCode::Char('c'));
}

#[test]
fn an_event_stream_keeps_its_tick_rate() {
    let stream = EventStream::new(Duration::from_millis(200));
    assert_eq!(stream.tick_rate(), Duration::from_millis(200));
}

#[test]
fn numbers_are_written_in_decimal() {
    for n in [0u128, 1, 9, 10, 11, 99, 100, 101, 12345, 1_000_000, u64::MAX as u128, u128::MAX] {
        assert_eq!(format_number(n), n.to_string());
    }
    assert_eq!(format_number(407), "407");
}

#[test]
fn tab_labels_hold_the_title() {
    assert_eq!(tab_label(&ManPage::new("ls", None)), " ls ");
    assert_eq!(
        tab_label(&ManPage::new("read", Some("2".to_string()))),
        " read(2) "
    );
}

#[test]
fn the_status_line_follows_the_mode() {
    let lines: Vec<String> = (0..50).map(|row| format!("row {row}")).collect();
    let mut app = App::new("ls", Some("1".to_string()));
    assert_eq!(status_line(&app), "ls(1)  line 1");
    app.apply_show(80, 10, Ok(lines)).unwrap();
    app.scroll_down(11, 10);
    assert_eq!(status_line(&app), "ls(1)  line 12");
    app.apply_open(
        "cat",
        None,
        80,
        10,
        Err(RenderError::CommandFailed("gone".to_string())),
    )
    .unwrap();
    assert_eq!(status_line(&app), "command failed: gone");
    assert_eq!(status_line(&App::empty()), "  line 1");
}
