use manifold::{
    parse_command, Action, App, ManRenderer, Mode, ParsedCommand, RenderError, SectionProbe,
    UpdateOutcome, ValidationError,
};
use manifold::command::parse_with;
use manifold::ui::{status_line, tab_bar, TabLabel};
use std::cell::Cell;

struct StubRenderer {
    calls: Cell<usize>,
}

impl StubRenderer {
    fn new() -> Self {
        Self {
            calls: Cell::new(0),
        }
    }
}

impl ManRenderer for StubRenderer {
    fn render(
        &self,
        name: &str,
        _section: Option<&str>,
        width: u16,
    ) -> Result<Vec<String>, RenderError> {
        let next = self.calls.get() + 1;
        self.calls.set(next);
        let line = format!("{name}:{width}");
        Ok(vec![line; 50])
    }
}

struct LinesRenderer {
    lines: Vec<String>,
}

impl LinesRenderer {
    fn new(lines: Vec<String>) -> Self {
        Self { lines }
    }
}

impl ManRenderer for LinesRenderer {
    fn render(
        &self,
        _name: &str,
        _section: Option<&str>,
        _width: u16,
    ) -> Result<Vec<String>, RenderError> {
        Ok(self.lines.clone())
    }
}

/// Renders every page but the one called `doesnotexist`; a page called
/// `broken` makes the renderer itself fail.
struct PickyRenderer;

impl ManRenderer for PickyRenderer {
    fn render(
        &self,
        name: &str,
        section: Option<&str>,
        _width: u16,
    ) -> Result<Vec<String>, RenderError> {
        match name {
            "doesnotexist" => Err(RenderError::CommandFailed(
                "No manual entry for doesnotexist".to_string(),
            )),
            "broken" => Err(RenderError::Io("pipe closed".to_string())),
            _ => Ok(vec![
                format!("{name} {}", section.unwrap_or("-"));
                30
            ]),
        }
    }
}

/// Takes a first argument made of digits for a section.
struct DigitProbe;

impl SectionProbe for DigitProbe {
    fn section_has_any_pages(
        &self,
        section: &str,
        _pages: &[String],
    ) -> Result<bool, ValidationError> {
        Ok(!section.is_empty() && section.chars().all(|c| c.is_ascii_digit()))
    }
}

struct BrokenProbe;

impl SectionProbe for BrokenProbe {
    fn section_has_any_pages(
        &self,
        _section: &str,
        _pages: &[String],
    ) -> Result<bool, ValidationError> {
        Err(ValidationError::Io("probe failed".to_string()))
    }
}

fn strings(items: &[&str]) -> Vec<String> {
    items.iter().map(|item| item.to_string()).collect()
}

fn numbered(count: usize) -> Vec<String> {
    (0..count).map(|idx| format!("line {idx}")).collect()
}

fn submit(app: &mut App, line: &str, renderer: &dyn ManRenderer, width: u16, height: usize) {
    let probe = DigitProbe;
    app.update(Action::EnterCommandMode, renderer, &probe, width, height)
        .unwrap();
    for ch in line.chars() {
        app.update(Action::CommandChar(ch), renderer, &probe, width, height)
            .unwrap();
    }
    app.update(Action::CommandSubmit, renderer, &probe, width, height)
        .unwrap();
}

fn max_scroll(app: &App, height: usize) -> usize {
    app.lines().len().saturating_sub(height.max(1))
}

#[test]
fn parses_commands() {
    let probe = DigitProbe;
    assert_eq!(
        parse_command("man ls", &probe),
        ParsedCommand::Man {
            pages: vec!["ls".to_string()],
            section: None,
        }
    );
    assert_eq!(
        parse_command("man 2 read", &probe),
        ParsedCommand::Man {
            pages: vec!["read".to_string()],
            section: Some("2".to_string()),
        }
    );
    assert_eq!(parse_command("quit", &probe), ParsedCommand::Quit);
    assert_eq!(parse_command("q", &probe), ParsedCommand::Quit);
    assert_eq!(parse_command("wipe", &probe), ParsedCommand::Wipe);
    assert_eq!(parse_command("w", &probe), ParsedCommand::Wipe);
    assert_eq!(parse_command("", &probe), ParsedCommand::Empty);
    assert_eq!(
        parse_command("bogus", &probe),
        ParsedCommand::Unknown("bogus".to_string())
    );
}

#[test]
fn switches_tabs_and_preserves_scroll() {
    let renderer = StubRenderer::new();
    let probe = DigitProbe;
    let mut app = App::new("open", None);
    let width: u16 = 80;
    let height: usize = 10;
    app.update(
        Action::Resize(width, height as u16),
        &renderer,
        &probe,
        width,
        height,
    )
    .unwrap();
    app.update(Action::ScrollDown(3), &renderer, &probe, width, height)
        .unwrap();
    app.update(Action::EnterCommandMode, &renderer, &probe, width, height)
        .unwrap();
    for ch in "man ls".chars() {
        app.update(Action::CommandChar(ch), &renderer, &probe, width, height)
            .unwrap();
    }
    app.update(Action::CommandSubmit, &renderer, &probe, width, height)
        .unwrap();
    assert_eq!(app.tabs().len(), 2);
    assert_eq!(app.active_index(), 1);
    assert_eq!(app.scroll(), 0);

    app.update(Action::TabLeft, &renderer, &probe, width, height)
        .unwrap();
    assert_eq!(app.active_index(), 0);
    assert_eq!(app.scroll(), 3);

    app.update(Action::TabRight, &renderer, &probe, width, height)
        .unwrap();
    assert_eq!(app.active_index(), 1);
}

#[test]
fn search_centers_and_navigates() {
    let mut lines = Vec::new();
    for idx in 0..40 {
        if idx == 10 || idx == 30 {
            lines.push(format!("foo line {idx}"));
        } else {
            lines.push(format!("line {idx}"));
        }
    }
    let renderer = LinesRenderer::new(lines);
    let probe = DigitProbe;
    let mut app = App::new("open", None);
    let width: u16 = 80;
    let height: usize = 10;
    app.update(
        Action::Resize(width, height as u16),
        &renderer,
        &probe,
        width,
        height,
    )
    .unwrap();

    app.update(Action::EnterSearchMode, &renderer, &probe, width, height)
        .unwrap();
    for ch in "foo".chars() {
        app.update(Action::SearchChar(ch), &renderer, &probe, width, height)
            .unwrap();
    }
    app.update(Action::SearchSubmit, &renderer, &probe, width, height)
        .unwrap();
    assert_eq!(app.scroll(), 5);

    app.update(Action::SearchNext, &renderer, &probe, width, height)
        .unwrap();
    assert_eq!(app.scroll(), 25);

    app.update(Action::SearchClear, &renderer, &probe, width, height)
        .unwrap();
    let scroll = app.scroll();
    app.update(Action::SearchNext, &renderer, &probe, width, height)
        .unwrap();
    assert_eq!(app.scroll(), scroll);
}

#[test]
fn command_table() {
    let probe = DigitProbe;
    assert_eq!(parse_command("help", &probe), ParsedCommand::Help);
    assert_eq!(parse_command("h", &probe), ParsedCommand::Help);
    assert_eq!(parse_command("   ", &probe), ParsedCommand::Empty);
    assert_eq!(parse_command("  quit  ", &probe), ParsedCommand::Quit);
    assert_eq!(parse_command("\tw\n", &probe), ParsedCommand::Wipe);
    assert_eq!(
        parse_command("Quit", &probe),
        ParsedCommand::Unknown("Quit".to_string())
    );
    assert_eq!(
        parse_command("man", &probe),
        ParsedCommand::Unknown("man".to_string())
    );
    assert_eq!(
        parse_command("bogus with words", &probe),
        ParsedCommand::Unknown("bogus".to_string())
    );
    assert_eq!(
        parse_command("man ls cat", &probe),
        ParsedCommand::Man {
            pages: strings(&["ls", "cat"]),
            section: None,
        }
    );
    assert_eq!(
        parse_command("man 3 printf scanf", &probe),
        ParsedCommand::Man {
            pages: strings(&["printf", "scanf"]),
            section: Some("3".to_string()),
        }
    );
}

#[test]
fn a_failing_probe_makes_every_word_a_page() {
    assert_eq!(
        parse_command("man 2 read", &BrokenProbe),
        ParsedCommand::Man {
            pages: strings(&["2", "read"]),
            section: None,
        }
    );
    assert_eq!(
        parse_command("man ls", &BrokenProbe),
        ParsedCommand::Man {
            pages: strings(&["ls"]),
            section: None,
        }
    );
}

#[test]
fn parse_with_takes_the_answer_as_given() {
    assert_eq!(
        parse_with("man 2 read", Ok(true)),
        ParsedCommand::Man {
            pages: strings(&["read"]),
            section: Some("2".to_string()),
        }
    );
    assert_eq!(
        parse_with("man 2 read", Ok(false)),
        ParsedCommand::Man {
            pages: strings(&["2", "read"]),
            section: None,
        }
    );
    assert_eq!(
        parse_with("man 2 read", Err(ValidationError::Io("x".to_string()))),
        ParsedCommand::Man {
            pages: strings(&["2", "read"]),
            section: None,
        }
    );
    assert_eq!(parse_with("man read", Ok(true)), ParsedCommand::Man {
        pages: strings(&["read"]),
        section: None,
    });
    assert_eq!(parse_with("q", Ok(true)), ParsedCommand::Quit);
}

#[test]
fn batch_open_goes_on_after_a_page_that_is_not_found() {
    let mut app = App::empty();
    let pages = strings(&["ls", "doesnotexist", "cat"]);
    app.open_pages(&pages, None, &PickyRenderer, 80, 10).unwrap();
    assert_eq!(app.tabs().len(), 2);
    assert_eq!(app.tabs()[0].name(), "ls");
    assert_eq!(app.tabs()[1].name(), "cat");
    assert_eq!(app.active_index(), 1);
    assert_eq!(app.title(), "cat");
    assert_eq!(
        app.status(),
        Some("command failed: No manual entry for doesnotexist")
    );
}

#[test]
fn batch_open_through_the_command_line() {
    let mut app = App::empty();
    submit(&mut app, "man ls doesnotexist cat", &PickyRenderer, 80, 10);
    assert_eq!(app.tabs().len(), 2);
    assert_eq!(app.active_index(), 1);
    assert_eq!(app.title(), "cat");
    assert!(app.status().unwrap().contains("doesnotexist"));
    assert_eq!(*app.mode(), Mode::Normal);
}

#[test]
fn opens_a_page_with_its_section() {
    let mut app = App::empty();
    submit(&mut app, "man 2 read", &PickyRenderer, 80, 10);
    assert_eq!(app.tabs().len(), 1);
    assert_eq!(app.tabs()[0].name(), "read");
    assert_eq!(app.tabs()[0].section(), Some("2"));
    assert_eq!(app.title(), "read(2)");
    assert_eq!(app.lines()[0], "read 2");
    assert_eq!(app.status(), None);
}

#[test]
fn a_page_that_is_not_found_leaves_the_tabs_as_they_were() {
    let mut app = App::empty();
    submit(&mut app, "man doesnotexist", &PickyRenderer, 80, 10);
    assert_eq!(app.tabs().len(), 0);
    assert_eq!(app.active_index(), 0);
    assert!(app.status().is_some());

    submit(&mut app, "man ls", &PickyRenderer, 80, 10);
    submit(&mut app, "man cat", &PickyRenderer, 80, 10);
    app.update(Action::TabLeft, &PickyRenderer, &DigitProbe, 80, 10)
        .unwrap();
    assert_eq!(app.active_index(), 0);
    submit(&mut app, "man doesnotexist", &PickyRenderer, 80, 10);
    assert_eq!(app.tabs().len(), 2);
    assert_eq!(app.active_index(), 1);
    assert_eq!(
        app.status(),
        Some("command failed: No manual entry for doesnotexist")
    );

    app.update(Action::GoBottom, &PickyRenderer, &DigitProbe, 80, 10)
        .unwrap();
    assert_eq!(app.scroll(), 20);
    let before: Vec<(String, usize, Vec<String>)> = app
        .tabs()
        .iter()
        .map(|page| (page.title(), page.scroll, page.lines().to_vec()))
        .collect();
    submit(&mut app, "man doesnotexist", &PickyRenderer, 80, 25);
    let after: Vec<(String, usize, Vec<String>)> = app
        .tabs()
        .iter()
        .map(|page| (page.title(), page.scroll, page.lines().to_vec()))
        .collect();
    assert_eq!(after, before);
    assert_eq!(app.active_index(), 1);
    assert_eq!(app.scroll(), 20);
}

#[test]
fn a_broken_renderer_ends_the_batch_and_is_handed_back() {
    let mut app = App::empty();
    let pages = strings(&["ls", "broken", "cat"]);
    let result = app.open_pages(&pages, None, &PickyRenderer, 80, 10);
    assert_eq!(result, Err(RenderError::Io("pipe closed".to_string())));
    assert_eq!(app.tabs().len(), 2);
    assert_eq!(app.tabs()[1].name(), "broken");
    assert_eq!(app.active_index(), 1);
    assert_eq!(app.status(), None);

    let mut app = App::empty();
    let probe = DigitProbe;
    app.update(Action::EnterCommandMode, &PickyRenderer, &probe, 80, 10)
        .unwrap();
    for ch in "man broken".chars() {
        app.update(Action::CommandChar(ch), &PickyRenderer, &probe, 80, 10)
            .unwrap();
    }
    assert_eq!(
        app.update(Action::CommandSubmit, &PickyRenderer, &probe, 80, 10),
        Err(RenderError::Io("pipe closed".to_string()))
    );
}

#[test]
fn apply_open_follows_the_answer() {
    let mut app = App::new("first", None);
    app.apply_open("second", Some("7".to_string()), 80, 10, Ok(numbered(5)))
        .unwrap();
    assert_eq!(app.tabs().len(), 2);
    assert_eq!(app.active_index(), 1);
    assert_eq!(app.title(), "second(7)");
    assert_eq!(app.lines().len(), 5);

    let missing = app.apply_open(
        "third",
        None,
        80,
        10,
        Err(RenderError::CommandFailed("nothing".to_string())),
    );
    assert_eq!(missing, Ok(()));
    assert_eq!(app.tabs().len(), 2);
    assert_eq!(app.active_index(), 1);
    assert_eq!(app.status(), Some("command failed: nothing"));

    let broken = app.apply_open(
        "fourth",
        None,
        80,
        10,
        Err(RenderError::Utf8("bad byte".to_string())),
    );
    assert_eq!(broken, Err(RenderError::Utf8("bad byte".to_string())));
    assert_eq!(app.tabs().len(), 3);
    assert_eq!(app.active_index(), 2);
}

#[test]
fn apply_show_follows_the_answer() {
    let mut app = App::new("page", None);
    assert_eq!(app.apply_show(80, 10, Ok(numbered(100))), Ok(()));
    assert_eq!(app.lines().len(), 100);
    app.go_bottom(10);
    assert_eq!(app.scroll(), 90);

    assert_eq!(
        app.apply_show(
            40,
            20,
            Err(RenderError::CommandFailed("gone".to_string()))
        ),
        Err(RenderError::CommandFailed("gone".to_string()))
    );
    assert_eq!(app.lines().len(), 100);
    assert_eq!(app.scroll(), 90);
    assert_eq!(app.status(), None);

    assert_eq!(
        app.apply_show(40, 20, Err(RenderError::Io("dead".to_string()))),
        Err(RenderError::Io("dead".to_string()))
    );
    assert_eq!(app.scroll(), 90);
    assert_eq!(app.apply_show(80, 20, Err(RenderError::Io("unused".to_string()))), Ok(()));
    assert_eq!(app.scroll(), 80);
    assert_eq!(app.apply_show(40, 20, Ok(numbered(30))), Ok(()));
    assert_eq!(app.lines().len(), 30);
    assert_eq!(app.scroll(), 10);
    assert_eq!(app.tabs()[0].line_count(), 30);
}

/// Renders at a width of 80 columns and fails at any other: with
/// `CommandFailed` below it, with `Io` above it.
struct FussyRenderer;

impl ManRenderer for FussyRenderer {
    fn render(
        &self,
        _name: &str,
        _section: Option<&str>,
        width: u16,
    ) -> Result<Vec<String>, RenderError> {
        if width == 80 {
            Ok(numbered(100))
        } else if width < 80 {
            Err(RenderError::CommandFailed("too narrow".to_string()))
        } else {
            Err(RenderError::Io("too wide".to_string()))
        }
    }
}

#[test]
fn resize_active_hands_every_error_back() {
    let mut app = App::new("page", None);
    assert_eq!(app.resize_active(&FussyRenderer, 80, 10), Ok(()));
    app.go_bottom(10);
    assert_eq!(app.scroll(), 90);

    assert_eq!(
        app.resize_active(&FussyRenderer, 40, 50),
        Err(RenderError::CommandFailed("too narrow".to_string()))
    );
    assert_eq!(app.lines().len(), 100);
    assert_eq!(app.scroll(), 90);
    assert_eq!(app.status(), None);

    assert_eq!(
        app.resize_active(&FussyRenderer, 120, 50),
        Err(RenderError::Io("too wide".to_string()))
    );
    assert_eq!(app.scroll(), 90);

    assert_eq!(app.resize_active(&FussyRenderer, 80, 50), Ok(()));
    assert_eq!(app.scroll(), 50);
    assert_eq!(App::empty().resize_active(&FussyRenderer, 40, 50), Ok(()));
}

#[test]
fn close_active_hands_every_error_back() {
    let mut app = App::empty();
    app.open_pages(&strings(&["a", "b"]), None, &FussyRenderer, 80, 10)
        .unwrap();
    assert_eq!(
        app.close_active(&FussyRenderer, 40, 10),
        Err(RenderError::CommandFailed("too narrow".to_string()))
    );
    assert_eq!(app.tabs().len(), 1);
    assert_eq!(app.title(), "a");
    assert_eq!(app.status(), None);
}

#[test]
fn update_turns_a_recoverable_error_into_the_status_message() {
    let probe = DigitProbe;
    let mut app = App::new("page", None);
    app.update(Action::Resize(80, 12), &FussyRenderer, &probe, 80, 10)
        .unwrap();
    app.update(Action::GoBottom, &FussyRenderer, &probe, 80, 10)
        .unwrap();
    assert_eq!(app.scroll(), 90);

    assert_eq!(
        app.update(Action::Resize(40, 52), &FussyRenderer, &probe, 40, 50),
        Ok(UpdateOutcome::Continue)
    );
    assert_eq!(app.status(), Some("command failed: too narrow"));
    assert_eq!(app.lines().len(), 100);
    assert_eq!(app.scroll(), 50);

    assert_eq!(
        app.update(Action::TabLeft, &FussyRenderer, &probe, 40, 50),
        Ok(UpdateOutcome::Continue)
    );
    assert_eq!(app.status(), Some("command failed: too narrow"));

    assert_eq!(
        app.update(Action::Resize(120, 52), &FussyRenderer, &probe, 120, 50),
        Err(RenderError::Io("too wide".to_string()))
    );
    assert_eq!(app.status(), Some("command failed: too narrow"));
    assert_eq!(
        app.update(Action::TabRight, &FussyRenderer, &probe, 120, 50),
        Err(RenderError::Io("too wide".to_string()))
    );
    assert_eq!(app.status(), None);

    submit(&mut app, "man other", &FussyRenderer, 80, 50);
    assert_eq!(app.tabs().len(), 2);
    app.update(Action::EnterCommandMode, &FussyRenderer, &probe, 40, 50)
        .unwrap();
    app.update(Action::CommandChar('w'), &FussyRenderer, &probe, 40, 50)
        .unwrap();
    assert_eq!(
        app.update(Action::CommandSubmit, &FussyRenderer, &probe, 40, 50),
        Ok(UpdateOutcome::Continue)
    );
    assert_eq!(app.tabs().len(), 1);
    assert_eq!(app.status(), Some("command failed: too narrow"));
}

#[test]
fn scroll_bound_holds_after_every_action() {
    let renderer = LinesRenderer::new(numbered(37));
    let probe = DigitProbe;
    let mut app = App::new("open", None);
    let width: u16 = 80;
    let mut height: usize = 10;
    let actions = [
        Action::Resize(80, 12),
        Action::ScrollDown(5),
        Action::PageDown,
        Action::PageDown,
        Action::PageDown,
        Action::PageDown,
        Action::HalfPageUp,
        Action::ScrollUp(2),
        Action::GoBottom,
        Action::Resize(80, 32),
        Action::HalfPageDown,
        Action::PageUp,
        Action::GoBottom,
        Action::Resize(80, 52),
        Action::ScrollDown(usize::MAX),
        Action::Resize(80, 2),
        Action::GoBottom,
        Action::ScrollDown(usize::MAX),
        Action::ScrollUp(usize::MAX),
        Action::GoTop,
    ];
    for action in actions {
        if let Action::Resize(_, rows) = action {
            height = manifold::content_height(rows);
        }
        app.update(action, &renderer, &probe, width, height)
            .unwrap();
        assert!(app.scroll() <= max_scroll(&app, height), "{action:?}");
    }
    assert_eq!(app.scroll(), 0);
}

#[test]
fn scrolling_is_exact() {
    let renderer = LinesRenderer::new(numbered(100));
    let probe = DigitProbe;
    let mut app = App::new("open", None);
    let mut step = |app: &mut App, action: Action| {
        app.update(action, &renderer, &probe, 80, 10).unwrap();
        app.scroll()
    };
    assert_eq!(step(&mut app, Action::Resize(80, 12)), 0);
    assert_eq!(step(&mut app, Action::ScrollDown(7)), 7);
    assert_eq!(step(&mut app, Action::ScrollUp(3)), 4);
    assert_eq!(step(&mut app, Action::ScrollUp(30)), 0);
    assert_eq!(step(&mut app, Action::PageDown), 10);
    assert_eq!(step(&mut app, Action::HalfPageDown), 15);
    assert_eq!(step(&mut app, Action::HalfPageUp), 10);
    assert_eq!(step(&mut app, Action::PageUp), 0);
    assert_eq!(step(&mut app, Action::GoBottom), 90);
    assert_eq!(step(&mut app, Action::ScrollDown(1)), 90);
    assert_eq!(step(&mut app, Action::GoTop), 0);
}

#[test]
fn a_viewport_without_rows_counts_as_one_row() {
    let renderer = LinesRenderer::new(numbered(5));
    let probe = DigitProbe;
    let mut app = App::new("open", None);
    app.update(Action::Resize(80, 0), &renderer, &probe, 80, 0)
        .unwrap();
    app.update(Action::GoBottom, &renderer, &probe, 80, 0)
        .unwrap();
    assert_eq!(app.scroll(), 4);
    app.update(Action::HalfPageUp, &renderer, &probe, 80, 0)
        .unwrap();
    assert_eq!(app.scroll(), 3);
    app.update(Action::PageUp, &renderer, &probe, 80, 0).unwrap();
    assert_eq!(app.scroll(), 3);
    app.update(Action::HalfPageDown, &renderer, &probe, 80, 0)
        .unwrap();
    assert_eq!(app.scroll(), 4);
}

#[test]
fn an_empty_session_takes_every_action() {
    let renderer = StubRenderer::new();
    let probe = DigitProbe;
    let mut app = App::empty();
    let actions = [
        Action::Resize(80, 24),
        Action::ScrollUp(1),
        Action::ScrollDown(1),
        Action::PageUp,
        Action::PageDown,
        Action::HalfPageUp,
        Action::HalfPageDown,
        Action::GoTop,
        Action::GoBottom,
        Action::TabLeft,
        Action::TabRight,
        Action::EnterSearchMode,
        Action::SearchChar('x'),
        Action::SearchBackspace,
        Action::SearchSubmit,
        Action::SearchNext,
        Action::SearchPrev,
        Action::SearchClear,
        Action::SearchCancel,
        Action::CommandSubmit,
        Action::EnterHelpMode,
        Action::ExitHelpMode,
    ];
    for action in actions {
        assert_eq!(
            app.update(action, &renderer, &probe, 80, 22),
            Ok(UpdateOutcome::Continue)
        );
        assert_eq!(app.tabs().len(), 0);
        assert_eq!(app.active_index(), 0);
    }
    assert_eq!(renderer.calls.get(), 0);
    assert_eq!(app.title(), "");
    assert_eq!(app.lines().len(), 0);
    assert_eq!(app.scroll(), 0);
    assert_eq!(app.search_query(), None);
    submit(&mut app, "wipe", &renderer, 80, 22);
    assert_eq!(app.tabs().len(), 0);
}

#[test]
fn tab_index_stays_valid() {
    let renderer = StubRenderer::new();
    let probe = DigitProbe;
    let mut app = App::empty();
    let check = |app: &App| {
        assert!(app.tabs().is_empty() && app.active_index() == 0
            || app.active_index() < app.tabs().len());
    };
    for line in ["man a", "man b c", "wipe", "man d", "wipe", "wipe", "wipe", "wipe", "man e f g"] {
        submit(&mut app, line, &renderer, 80, 10);
        check(&app);
        app.update(Action::TabRight, &renderer, &probe, 80, 10)
            .unwrap();
        check(&app);
        app.update(Action::TabLeft, &renderer, &probe, 80, 10)
            .unwrap();
        app.update(Action::TabLeft, &renderer, &probe, 80, 10)
            .unwrap();
        check(&app);
    }
    assert_eq!(app.tabs().len(), 3);
}

#[test]
fn tabs_cycle_in_both_directions() {
    let renderer = StubRenderer::new();
    let probe = DigitProbe;
    let mut app = App::empty();
    submit(&mut app, "man a b c", &renderer, 80, 10);
    assert_eq!(app.active_index(), 2);
    let mut turn = |app: &mut App, action: Action| {
        app.update(action, &renderer, &probe, 80, 10).unwrap();
        app.active_index()
    };
    assert_eq!(turn(&mut app, Action::TabRight), 0);
    assert_eq!(turn(&mut app, Action::TabRight), 1);
    assert_eq!(turn(&mut app, Action::TabLeft), 0);
    assert_eq!(turn(&mut app, Action::TabLeft), 2);
}

#[test]
fn wipe_closes_the_active_tab() {
    let renderer = StubRenderer::new();
    let mut app = App::empty();
    submit(&mut app, "man a b c", &renderer, 80, 10);
    app.update(Action::TabLeft, &renderer, &DigitProbe, 80, 10)
        .unwrap();
    assert_eq!(app.title(), "b");
    submit(&mut app, "wipe", &renderer, 80, 10);
    assert_eq!(app.tabs().len(), 2);
    assert_eq!(app.title(), "c");
    assert_eq!(app.active_index(), 1);
    submit(&mut app, "w", &renderer, 80, 10);
    assert_eq!(app.title(), "a");
    assert_eq!(app.active_index(), 0);
    submit(&mut app, "w", &renderer, 80, 10);
    assert_eq!(app.tabs().len(), 0);
    assert_eq!(app.active_index(), 0);
}

#[test]
fn close_active_shows_the_next_tab_at_the_current_width() {
    let renderer = StubRenderer::new();
    let mut app = App::empty();
    app.open_pages(&strings(&["a", "b"]), None, &renderer, 80, 10)
        .unwrap();
    assert_eq!(renderer.calls.get(), 2);
    app.close_active(&renderer, 60, 10).unwrap();
    assert_eq!(app.title(), "a");
    assert_eq!(app.lines()[0], "a:60");
    assert_eq!(renderer.calls.get(), 3);
}

#[test]
fn quit_ends_the_session_and_nothing_else_does() {
    let renderer = StubRenderer::new();
    let probe = DigitProbe;
    let mut app = App::new("open", None);
    assert_eq!(
        app.update(Action::Quit, &renderer, &probe, 80, 10),
        Ok(UpdateOutcome::Quit)
    );
    for line in ["quit", "q", "q now"] {
        app.update(Action::EnterCommandMode, &renderer, &probe, 80, 10)
            .unwrap();
        for ch in line.chars() {
            app.update(Action::CommandChar(ch), &renderer, &probe, 80, 10)
                .unwrap();
        }
        assert_eq!(
            app.update(Action::CommandSubmit, &renderer, &probe, 80, 10),
            Ok(UpdateOutcome::Quit)
        );
    }
    for line in ["", "bogus", "help", "wipe", "quitx"] {
        app.update(Action::EnterCommandMode, &renderer, &probe, 80, 10)
            .unwrap();
        for ch in line.chars() {
            app.update(Action::CommandChar(ch), &renderer, &probe, 80, 10)
                .unwrap();
        }
        assert_eq!(
            app.update(Action::CommandSubmit, &renderer, &probe, 80, 10),
            Ok(UpdateOutcome::Continue)
        );
    }
}

#[test]
fn an_unknown_command_becomes_the_status_message() {
    let renderer = StubRenderer::new();
    let probe = DigitProbe;
    let mut app = App::new("open", None);
    submit(&mut app, "bogus arg", &renderer, 80, 10);
    assert_eq!(app.status(), Some("unknown command: bogus"));
    assert_eq!(app.tabs().len(), 1);
    assert_eq!(*app.mode(), Mode::Normal);

    app.update(Action::Resize(80, 12), &renderer, &probe, 80, 10)
        .unwrap();
    assert_eq!(app.status(), Some("unknown command: bogus"));
    app.update(Action::Quit, &renderer, &probe, 80, 10).unwrap();
    assert_eq!(app.status(), Some("unknown command: bogus"));
    app.update(Action::ScrollDown(1), &renderer, &probe, 80, 10)
        .unwrap();
    assert_eq!(app.status(), None);
}

#[test]
fn command_line_is_edited_character_by_character() {
    let renderer = StubRenderer::new();
    let probe = DigitProbe;
    let mut app = App::new("open", None);
    let mut step = |app: &mut App, action: Action| {
        app.update(action, &renderer, &probe, 80, 10).unwrap();
        app.mode().clone()
    };
    let command = |line: &str| Mode::Command {
        line: line.to_string(),
    };
    assert_eq!(step(&mut app, Action::CommandChar('x')), Mode::Normal);
    assert_eq!(step(&mut app, Action::EnterCommandMode), command(""));
    assert_eq!(step(&mut app, Action::CommandBackspace), command(""));
    assert_eq!(step(&mut app, Action::CommandChar('q')), command("q"));
    assert_eq!(step(&mut app, Action::CommandChar('u')), command("qu"));
    assert_eq!(step(&mut app, Action::SearchChar('z')), command("qu"));
    assert_eq!(step(&mut app, Action::CommandBackspace), command("q"));
    assert_eq!(step(&mut app, Action::CommandChar('é')), command("qé"));
    assert_eq!(step(&mut app, Action::CommandBackspace), command("q"));
    assert_eq!(step(&mut app, Action::CommandCancel), Mode::Normal);
    assert_eq!(step(&mut app, Action::EnterCommandMode), command(""));
}

#[test]
fn a_submit_takes_the_line_that_is_being_typed() {
    let renderer = StubRenderer::new();
    let probe = DigitProbe;
    let mut app = App::new("open", None);
    app.update(Action::EnterSearchMode, &renderer, &probe, 80, 10)
        .unwrap();
    for ch in "quit".chars() {
        app.update(Action::SearchChar(ch), &renderer, &probe, 80, 10)
            .unwrap();
    }
    assert_eq!(
        app.update(Action::CommandSubmit, &renderer, &probe, 80, 10),
        Ok(UpdateOutcome::Quit)
    );
    assert_eq!(*app.mode(), Mode::Normal);

    app.update(Action::EnterSearchMode, &renderer, &probe, 80, 10)
        .unwrap();
    for ch in "bogus".chars() {
        app.update(Action::SearchChar(ch), &renderer, &probe, 80, 10)
            .unwrap();
    }
    assert_eq!(
        app.update(Action::CommandSubmit, &renderer, &probe, 80, 10),
        Ok(UpdateOutcome::Continue)
    );
    assert_eq!(app.status(), Some("unknown command: bogus"));
    assert_eq!(*app.mode(), Mode::Normal);

    assert_eq!(
        app.update(Action::CommandSubmit, &renderer, &probe, 80, 10),
        Ok(UpdateOutcome::Continue)
    );
    assert_eq!(app.status(), None);
    app.update(Action::EnterHelpMode, &renderer, &probe, 80, 10)
        .unwrap();
    assert_eq!(
        app.update(Action::CommandSubmit, &renderer, &probe, 80, 10),
        Ok(UpdateOutcome::Continue)
    );
    assert_eq!(*app.mode(), Mode::Normal);
}

#[test]
fn help_mode_is_entered_and_left() {
    let renderer = StubRenderer::new();
    let probe = DigitProbe;
    let mut app = App::new("open", None);
    app.update(Action::EnterHelpMode, &renderer, &probe, 80, 10)
        .unwrap();
    assert_eq!(*app.mode(), Mode::Help);
    app.update(Action::ExitHelpMode, &renderer, &probe, 80, 10)
        .unwrap();
    assert_eq!(*app.mode(), Mode::Normal);
    submit(&mut app, "help", &renderer, 80, 10);
    assert_eq!(*app.mode(), Mode::Help);
    app.update(Action::ExitHelpMode, &renderer, &probe, 80, 10)
        .unwrap();
    app.update(Action::EnterCommandMode, &renderer, &probe, 80, 10)
        .unwrap();
    app.update(Action::ExitHelpMode, &renderer, &probe, 80, 10)
        .unwrap();
    assert_eq!(
        *app.mode(),
        Mode::Command {
            line: String::new()
        }
    );
}

#[test]
fn search_is_incremental_and_cancel_restores_the_query() {
    let mut lines = numbered(60);
    lines[20] = "alpha beta".to_string();
    lines[40] = "alpha".to_string();
    lines[50] = "beta".to_string();
    let renderer = LinesRenderer::new(lines);
    let probe = DigitProbe;
    let mut app = App::new("open", None);
    let mut step = |app: &mut App, action: Action| {
        app.update(action, &renderer, &probe, 80, 10).unwrap();
    };
    step(&mut app, Action::Resize(80, 12));
    step(&mut app, Action::EnterSearchMode);
    assert_eq!(
        *app.mode(),
        Mode::Search {
            line: String::new(),
            previous: None
        }
    );
    for ch in "alph".chars() {
        step(&mut app, Action::SearchChar(ch));
    }
    assert_eq!(app.search_query(), Some("alph"));
    assert_eq!(app.scroll(), 15);
    assert_eq!(app.tabs()[0].search_matches().len(), 2);
    step(&mut app, Action::SearchSubmit);
    assert_eq!(*app.mode(), Mode::Normal);
    assert_eq!(app.search_query(), Some("alph"));

    step(&mut app, Action::EnterSearchMode);
    assert_eq!(
        *app.mode(),
        Mode::Search {
            line: String::new(),
            previous: Some("alph".to_string())
        }
    );
    for ch in "beta".chars() {
        step(&mut app, Action::SearchChar(ch));
    }
    assert_eq!(app.search_query(), Some("beta"));
    assert_eq!(app.scroll(), 15);
    step(&mut app, Action::SearchBackspace);
    assert_eq!(app.search_query(), Some("bet"));
    step(&mut app, Action::SearchCancel);
    assert_eq!(*app.mode(), Mode::Normal);
    assert_eq!(app.search_query(), Some("alph"));
    assert_eq!(app.scroll(), 15);

    step(&mut app, Action::SearchClear);
    assert_eq!(app.search_query(), None);
    step(&mut app, Action::EnterSearchMode);
    step(&mut app, Action::SearchChar('b'));
    assert_eq!(app.search_query(), Some("b"));
    step(&mut app, Action::SearchBackspace);
    assert_eq!(app.search_query(), None);
    step(&mut app, Action::SearchChar('b'));
    step(&mut app, Action::SearchCancel);
    assert_eq!(app.search_query(), None);
    assert_eq!(*app.mode(), Mode::Normal);
}

#[test]
fn search_navigation_wraps_and_centers() {
    let mut lines = numbered(100);
    for row in [3, 48, 97] {
        lines[row] = format!("needle {row}");
    }
    let renderer = LinesRenderer::new(lines);
    let probe = DigitProbe;
    let mut app = App::new("open", None);
    let height: usize = 20;
    let mut step = |app: &mut App, action: Action| {
        app.update(action, &renderer, &probe, 80, height).unwrap();
        (app.tabs()[0].search_index(), app.scroll())
    };
    step(&mut app, Action::Resize(80, 22));
    step(&mut app, Action::EnterSearchMode);
    for ch in "needle".chars() {
        step(&mut app, Action::SearchChar(ch));
    }
    assert_eq!(step(&mut app, Action::SearchSubmit), (Some(0), 0));
    assert_eq!(step(&mut app, Action::SearchNext), (Some(1), 38));
    assert_eq!(step(&mut app, Action::SearchNext), (Some(2), 80));
    assert_eq!(step(&mut app, Action::SearchNext), (Some(0), 0));
    assert_eq!(step(&mut app, Action::SearchPrev), (Some(2), 80));
    assert_eq!(step(&mut app, Action::SearchPrev), (Some(1), 38));
}

#[test]
fn a_search_starts_at_the_scroll_position_and_wraps_to_the_first_hit() {
    let mut lines = numbered(100);
    lines[10] = "needle".to_string();
    lines[60] = "needle".to_string();
    let renderer = LinesRenderer::new(lines);
    let probe = DigitProbe;
    let mut app = App::new("open", None);
    let mut step = |app: &mut App, action: Action| {
        app.update(action, &renderer, &probe, 80, 10).unwrap();
    };
    step(&mut app, Action::Resize(80, 12));
    step(&mut app, Action::ScrollDown(30));
    step(&mut app, Action::EnterSearchMode);
    step(&mut app, Action::SearchChar('d'));
    assert_eq!(app.tabs()[0].search_index(), Some(1));
    assert_eq!(app.scroll(), 55);
    step(&mut app, Action::SearchCancel);
    step(&mut app, Action::GoBottom);
    assert_eq!(app.scroll(), 90);
    step(&mut app, Action::EnterSearchMode);
    step(&mut app, Action::SearchChar('d'));
    assert_eq!(app.tabs()[0].search_index(), Some(0));
    assert_eq!(app.scroll(), 5);
}

#[test]
fn startup_arguments() {
    let renderer = StubRenderer::new();
    let mut app = App::empty();
    app.open_args(&[], &renderer, &DigitProbe, 80, 10).unwrap();
    assert_eq!(app.tabs().len(), 0);
    assert_eq!(renderer.calls.get(), 0);

    app.open_args(&strings(&["ls"]), &renderer, &BrokenProbe, 80, 10)
        .unwrap();
    assert_eq!(app.tabs().len(), 1);
    assert_eq!(app.title(), "ls");

    let mut app = App::empty();
    app.open_args(&strings(&["2", "read", "write"]), &renderer, &DigitProbe, 80, 10)
        .unwrap();
    assert_eq!(app.tabs().len(), 2);
    assert_eq!(app.tabs()[0].section(), Some("2"));
    assert_eq!(app.title(), "write(2)");

    let mut app = App::empty();
    app.open_args(&strings(&["ls", "cat"]), &renderer, &DigitProbe, 80, 10)
        .unwrap();
    assert_eq!(app.tabs().len(), 2);
    assert_eq!(app.tabs()[0].section(), None);
    assert_eq!(app.title(), "cat");

    let mut app = App::empty();
    app.open_args(&strings(&["2", "read"]), &renderer, &BrokenProbe, 80, 10)
        .unwrap();
    assert_eq!(app.tabs().len(), 2);
    assert_eq!(app.tabs()[0].name(), "2");
}

#[test]
fn a_new_session_has_one_tab_that_is_not_rendered() {
    let app = App::new("open", Some("2".to_string()));
    assert_eq!(app.tabs().len(), 1);
    assert_eq!(app.active_index(), 0);
    assert_eq!(app.title(), "open(2)");
    assert_eq!(app.lines().len(), 0);
    assert_eq!(app.scroll(), 0);
    assert_eq!(*app.mode(), Mode::Normal);
    assert_eq!(app.search_query(), None);
    assert_eq!(app.status(), None);
}

#[test]
fn resize_renders_again_only_for_another_width() {
    let renderer = StubRenderer::new();
    let probe = DigitProbe;
    let mut app = App::new("open", None);
    app.update(Action::Resize(80, 12), &renderer, &probe, 80, 10)
        .unwrap();
    assert_eq!(renderer.calls.get(), 1);
    assert_eq!(app.lines()[0], "open:80");
    app.update(Action::Resize(80, 30), &renderer, &probe, 80, 28)
        .unwrap();
    assert_eq!(renderer.calls.get(), 1);
    app.update(Action::Resize(100, 30), &renderer, &probe, 100, 28)
        .unwrap();
    assert_eq!(renderer.calls.get(), 2);
    assert_eq!(app.lines()[0], "open:100");
    app.resize_active(&renderer, 100, 28).unwrap();
    assert_eq!(renderer.calls.get(), 2);
    app.clamp_scroll(28);
    assert_eq!(app.scroll(), 0);
}

#[test]
fn the_status_line_shows_the_line_that_is_typed() {
    let renderer = StubRenderer::new();
    let probe = DigitProbe;
    let mut app = App::new("open", None);
    app.update(Action::EnterCommandMode, &renderer, &probe, 80, 10)
        .unwrap();
    assert_eq!(status_line(&app), ":");
    for ch in "man ls".chars() {
        app.update(Action::CommandChar(ch), &renderer, &probe, 80, 10)
            .unwrap();
    }
    assert_eq!(status_line(&app), ":man ls");
    app.update(Action::CommandCancel, &renderer, &probe, 80, 10)
        .unwrap();
    app.update(Action::EnterSearchMode, &renderer, &probe, 80, 10)
        .unwrap();
    app.update(Action::SearchChar('x'), &renderer, &probe, 80, 10)
        .unwrap();
    assert_eq!(status_line(&app), "/x");
    app.update(Action::SearchCancel, &renderer, &probe, 80, 10)
        .unwrap();
    app.update(Action::EnterHelpMode, &renderer, &probe, 80, 10)
        .unwrap();
    assert_eq!(status_line(&app), "open  line 1");
}

#[test]
fn the_tab_bar_marks_the_active_tab() {
    let renderer = StubRenderer::new();
    let mut app = App::empty();
    assert_eq!(tab_bar(&app), Vec::new());
    submit(&mut app, "man 1 ls cat", &renderer, 80, 10);
    submit(&mut app, "man sh", &renderer, 80, 10);
    app.update(Action::TabLeft, &renderer, &DigitProbe, 80, 10)
        .unwrap();
    let label = |text: &str, active: bool| TabLabel {
        text: text.to_string(),
        active,
    };
    assert_eq!(
        tab_bar(&app),
        vec![
            label(" ls(1) ", false),
            label(" cat(1) ", true),
            label(" sh ", false)
        ]
    );
}
