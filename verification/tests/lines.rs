use manifold::args::found_any_page;
use manifold::render::{command_failure, safe_width};
use manifold::text::{has_char, split_lines, trim_text};
use manifold::RenderError;

const TEXTS: [&str; 16] = [
    "",
    "\n",
    "\r\n",
    "a",
    "a\n",
    "a\r\n",
    "a\r",
    "a\nb",
    "a\n\nb\n",
    "a\r\n\r\nb",
    "\r",
    "a\r\r\n",
    "\n\n",
    "LS(1)\n\nNAME\n       ls - list\n",
    "  spaced  \n\ttab\t\n",
    "é\nü\r\nß",
];

#[test]
fn lines_are_split_as_the_standard_library_splits_them() {
    for text in TEXTS {
        let expected: Vec<String> = text.lines().map(str::to_string).collect();
        assert_eq!(split_lines(text), expected, "{text:?}");
    }
}

#[test]
fn lines_of_a_rendered_page() {
    assert_eq!(
        split_lines("NAME\r\n  ls\n\nSEE ALSO"),
        vec!["NAME", "  ls", "", "SEE ALSO"]
    );
    assert_eq!(split_lines("one\n"), vec!["one"]);
    assert_eq!(split_lines(""), Vec::<String>::new());
}

#[test]
fn text_is_trimmed_as_the_standard_library_trims_it() {
    for text in TEXTS {
        assert_eq!(trim_text(text), text.trim(), "{text:?}");
    }
    for text in [" a b ", "\u{a0}x\u{3000}", "   ", "x", " x", "x ", "\n\tman: no entry\n"] {
        assert_eq!(trim_text(text), text.trim(), "{text:?}");
    }
}

#[test]
fn a_failed_command_reports_what_it_wrote_or_how_it_ended() {
    assert_eq!(
        command_failure("No manual entry for foo\n", "exit status: 16"),
        RenderError::CommandFailed("No manual entry for foo".to_string())
    );
    assert_eq!(
        command_failure("  \n", "exit status: 16"),
        RenderError::CommandFailed("man exited with exit status: 16".to_string())
    );
    assert_eq!(
        command_failure("", "signal: 9"),
        RenderError::CommandFailed("man exited with signal: 9".to_string())
    );
}

#[test]
fn the_renderer_is_asked_for_at_least_one_column() {
    assert_eq!(safe_width(0), 1);
    assert_eq!(safe_width(1), 1);
    assert_eq!(safe_width(80), 80);
    assert_eq!(safe_width(u16::MAX), u16::MAX);
}

#[test]
fn a_printed_path_means_that_a_page_was_found() {
    assert!(found_any_page("/usr/share/man/man1/ls.1.gz\n"));
    assert!(found_any_page(
        "No manual entry for nothere\n/usr/share/man/man1/man.1.gz\n"
    ));
    assert!(!found_any_page("No manual entry for nothere in section 1\n"));
    assert!(!found_any_page(""));
    assert!(!found_any_page("  \n\n"));
    for text in TEXTS {
        let expected = text
            .lines()
            .any(|line| !line.trim().is_empty() && line.contains('/'));
        assert_eq!(found_any_page(text), expected);
    }
    assert!(has_char("a-b", '-'));
    assert!(!has_char("a-b", '+'));
}
