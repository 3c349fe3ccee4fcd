use amp::buffer::{LineRange, Position, Range};
use amp::commands::{run, Command, Outcome};
use amp::helpers::selectable_set::SelectableSet;
use amp::input::modes::select_line::handle;
use amp::input::modes;
use amp::input::take_key;
use amp::presenters::present;
use amp::input::Key;
use amp::models::application::modes::open::MAX_RESULTS;
use amp::models::application::modes::{JumpMode, OpenMode, SelectLineMode, SelectMode};
use amp::models::application::{Application, Clipboard, ClipboardContent, Mode};
use amp::presenters::modes::{open, select_line};
use amp::token::{Category, Token};
use amp::view::color::{Color, Style};
use amp::view::View;
use scribe::{Buffer, Workspace};
use std::path::{Path, PathBuf};

fn application(content: Option<&str>) -> Application {
    let mut workspace = Workspace::new(Path::new(".")).unwrap();
    if let Some(content) = content {
        let mut buffer = Buffer::new();
        buffer.insert(content);
        workspace.add_buffer(buffer);
    }
    amp::models::application::new(workspace, View::new(80, 24), None)
}

fn open_mode() -> OpenMode {
    let mut index = bloodhound::Index::new(PathBuf::from("."));
    index.populate(None, false);
    OpenMode::new(index)
}

#[test]
fn the_application_starts_in_normal_mode() {
    let app = application(None);
    assert!(matches!(app.mode, Mode::Normal));
    assert!(app.search_query.is_none());
    assert!(app.repository.is_none());
    assert!(matches!(app.clipboard.get_content(), ClipboardContent::Empty));
}

#[test]
fn the_clipboard_holds_what_was_set() {
    let mut clipboard = Clipboard::new();
    clipboard.set_content(ClipboardContent::Inline("amp".to_string()));
    assert!(matches!(clipboard.get_content(), ClipboardContent::Inline(s) if s == "amp"));
}

#[test]
fn select_line_mode_maps_its_keys() {
    assert_eq!(handle(Key::Char('j')), Some(Command::MoveDown));
    assert_eq!(handle(Key::Char('k')), Some(Command::MoveUp));
    assert_eq!(handle(Key::Char('h')), Some(Command::MoveLeft));
    assert_eq!(handle(Key::Char('l')), Some(Command::MoveRight));
    assert_eq!(handle(Key::Char('H')), Some(Command::MoveToStartOfLine));
    assert_eq!(handle(Key::Char('L')), Some(Command::MoveToEndOfLine));
    assert_eq!(handle(Key::Char('J')), Some(Command::MoveToLastLine));
    assert_eq!(handle(Key::Char('K')), Some(Command::MoveToFirstLine));
    assert_eq!(handle(Key::Char('b')), Some(Command::MoveToStartOfPreviousToken));
    assert_eq!(handle(Key::Char('w')), Some(Command::MoveToStartOfNextToken));
    assert_eq!(handle(Key::Char('e')), Some(Command::MoveToEndOfCurrentToken));
    assert_eq!(handle(Key::Char('d')), Some(Command::CopyAndDeleteSelection));
    assert_eq!(handle(Key::Char('c')), Some(Command::ChangeSelection));
    assert_eq!(handle(Key::Char('y')), Some(Command::CopySelection));
    assert_eq!(handle(Key::Char(',')), Some(Command::ScrollUp));
    assert_eq!(handle(Key::Char('m')), Some(Command::ScrollDown));
    assert_eq!(handle(Key::Char('>')), Some(Command::IndentLine));
    assert_eq!(handle(Key::Char('<')), Some(Command::OutdentLine));
    assert_eq!(handle(Key::Char('f')), Some(Command::SwitchToJumpMode));
    assert_eq!(handle(Key::Char('p')), Some(Command::Paste));
    assert_eq!(handle(Key::Char('R')), Some(Command::CopyRemoteUrl));
    assert_eq!(handle(Key::Esc), Some(Command::SwitchToNormalMode));
}

#[test]
fn unmapped_keys_yield_no_command() {
    assert_eq!(handle(Key::Char('z')), None);
    assert_eq!(handle(Key::Char('r')), None);
    assert_eq!(handle(Key::Ctrl('j')), None);
    assert_eq!(handle(Key::Enter), None);
    assert_eq!(handle(Key::F(1)), None);
    assert_eq!(handle(Key::Unknown(7)), None);
}

#[test]
fn run_carries_out_cursor_commands() {
    let mut app = application(Some("amp\neditor"));
    assert!(matches!(run(Command::MoveToFirstLine, &mut app), Outcome::Done));
    assert!(matches!(run(Command::MoveToEndOfLine, &mut app), Outcome::Done));
    let cursor = app.workspace.current_buffer.as_ref().unwrap().cursor.position;
    assert_eq!(cursor, scribe::buffer::Position { line: 0, offset: 3 });
    assert!(matches!(run(Command::MoveToStartOfPreviousToken, &mut app), Outcome::Done));
    let cursor = app.workspace.current_buffer.as_ref().unwrap().cursor.position;
    assert_eq!(cursor, scribe::buffer::Position { line: 0, offset: 0 });
}

#[test]
fn run_hands_back_what_is_the_callers_part() {
    let mut app = application(Some("amp"));
    for command in [Command::SwitchToOpenMode, Command::CopyRemoteUrl].iter() {
        assert!(matches!(run(*command, &mut app), Outcome::Deferred(c) if c == *command));
        assert!(matches!(app.mode, Mode::Normal));
    }
}

#[test]
fn run_switches_modes() {
    let mut app = application(Some("amp\neditor"));
    run(Command::SwitchToInsertMode, &mut app);
    assert!(matches!(app.mode, Mode::Insert(_)));
    run(Command::SwitchToNormalMode, &mut app);
    assert!(matches!(app.mode, Mode::Normal));
    run(Command::SwitchToJumpMode, &mut app);
    assert!(matches!(app.mode, Mode::Jump(_)));
    run(Command::SwitchToLineJumpMode, &mut app);
    assert!(matches!(app.mode, Mode::LineJump(_)));
    run(Command::SwitchToSearchInsertMode, &mut app);
    assert!(matches!(app.mode, Mode::SearchInsert(_)));
    run(Command::MoveDown, &mut app);
    run(Command::MoveRight, &mut app);
    run(Command::SwitchToSelectMode, &mut app);
    assert!(matches!(&app.mode, Mode::Select(s) if s.anchor == Position { line: 1, offset: 1 }));
    run(Command::SwitchToSelectLineMode, &mut app);
    assert!(matches!(&app.mode, Mode::SelectLine(s) if s.anchor == 1));
    run(Command::Exit, &mut app);
    assert!(matches!(app.mode, Mode::Exit));
}

#[test]
fn modes_that_need_a_buffer_are_not_entered_without_one() {
    let mut app = application(None);
    run(Command::SwitchToInsertMode, &mut app);
    assert!(matches!(app.mode, Mode::Normal));
    run(Command::SwitchToSelectMode, &mut app);
    assert!(matches!(app.mode, Mode::Normal));
    run(Command::SwitchToSelectLineMode, &mut app);
    assert!(matches!(app.mode, Mode::Normal));
}

#[test]
fn selections_are_normalized() {
    let select = SelectMode::new(Position { line: 2, offset: 1 });
    assert_eq!(
        select.to_range(&Position { line: 1, offset: 4 }),
        Range::new(Position { line: 1, offset: 4 }, Position { line: 2, offset: 1 })
    );
    let lines = SelectLineMode::new(5);
    assert_eq!(lines.to_range(&Position { line: 2, offset: 9 }), LineRange::new(2, 5));
    assert_eq!(lines.to_range(&Position { line: 7, offset: 0 }), LineRange::new(5, 7));
}

#[test]
fn a_selectable_set_keeps_its_selection_in_bounds() {
    let mut set = SelectableSet::new(vec!["a", "b", "c"]);
    assert_eq!(set.selected_index(), 0);
    assert_eq!(set.selection(), Some(&"a"));
    set.select_previous();
    assert_eq!(set.selected_index(), 0);
    set.select_next();
    set.select_next();
    assert_eq!(set.selection(), Some(&"c"));
    set.select_next();
    assert_eq!(set.selected_index(), 2);
    set.select_previous();
    assert_eq!(set.selection(), Some(&"b"));
    assert_eq!(set.len(), 3);
    assert_eq!(set.get(2), Some(&"c"));
    assert_eq!(set.get(3), None);
    let mut empty: SelectableSet<u8> = SelectableSet::new(Vec::new());
    empty.select_next();
    empty.select_previous();
    assert_eq!(empty.selected_index(), 0);
    assert_eq!(empty.selection(), None);
}

#[test]
fn open_mode_searches_the_index() {
    let mut mode = open_mode();
    assert_eq!(mode.results.len(), 0);
    assert_eq!(mode.selected_path(), None);
    mode.input = "src/lib.rs".to_string();
    mode.search();
    assert_eq!(mode.results.len(), 1);
    assert_eq!(mode.results.selected_index(), 0);
    assert_eq!(mode.selected_path(), Some(&"src/lib.rs".to_string()));
    mode.input = "rs".to_string();
    mode.search();
    assert_eq!(mode.results.len(), MAX_RESULTS);
    for i in 0..mode.results.len() {
        assert!(mode.results.get(i).unwrap().to_lowercase().contains("rs"));
    }
    mode.input = "no such file anywhere".to_string();
    mode.search();
    assert_eq!(mode.results.len(), 0);
    assert_eq!(mode.selected_path(), None);
}

#[test]
fn open_mode_commands_work_on_the_results() {
    let mut app = application(None);
    let mut mode = open_mode();
    mode.input = "rs".to_string();
    app.mode = Mode::Open(mode);
    assert!(matches!(run(Command::SearchPaths, &mut app), Outcome::Done));
    let (count, first, second) = match &app.mode {
        Mode::Open(mode) => (
            mode.results.len(),
            mode.results.get(0).cloned(),
            mode.results.get(1).cloned(),
        ),
        _ => unreachable!(),
    };
    assert_eq!(count, MAX_RESULTS);
    run(Command::SelectNextPath, &mut app);
    assert!(matches!(&app.mode, Mode::Open(mode) if mode.selected_path() == second.as_ref()));
    run(Command::SelectPreviousPath, &mut app);
    run(Command::SelectPreviousPath, &mut app);
    assert!(matches!(&app.mode, Mode::Open(mode) if mode.selected_path() == first.as_ref()));
    match run(Command::OpenSelectedPath, &mut app) {
        Outcome::OpenPath(path) => assert_eq!(Some(path), first),
        _ => unreachable!(),
    }
    assert!(matches!(app.mode, Mode::Normal));
}

#[test]
fn open_without_results_opens_nothing() {
    let mut app = application(None);
    app.mode = Mode::Open(open_mode());
    assert!(matches!(run(Command::OpenSelectedPath, &mut app), Outcome::Done));
    assert!(matches!(app.mode, Mode::Normal));
    assert!(matches!(run(Command::SearchPaths, &mut app), Outcome::Done));
    assert!(matches!(run(Command::OpenSelectedPath, &mut app), Outcome::Done));
    assert!(matches!(app.mode, Mode::Normal));
}

fn token(lexeme: &str, category: Category) -> Token {
    Token { lexeme: lexeme.to_string(), category }
}

#[test]
fn jump_mode_lays_tags_over_tokens() {
    let mut mode = JumpMode::new();
    let tokens = vec![
        token("amp", Category::Text),
        token(" ", Category::Whitespace),
        token("editor", Category::Keyword),
        token("\n", Category::Whitespace),
        token("a", Category::Text),
        token(" ", Category::Whitespace),
        token("of", Category::Text),
    ];
    let tagged = mode.tag_tokens(&tokens, 10);
    assert_eq!(
        tagged,
        vec![
            token("aa", Category::Keyword),
            token("p", Category::Text),
            token(" ", Category::Whitespace),
            token("ab", Category::Keyword),
            token("itor", Category::Keyword),
            token("\n", Category::Whitespace),
            token("a", Category::Text),
            token(" ", Category::Whitespace),
            token("ac", Category::Keyword),
        ]
    );
    assert_eq!(mode.map_tag("aa"), Some(Position { line: 10, offset: 0 }));
    assert_eq!(mode.map_tag("ab"), Some(Position { line: 10, offset: 4 }));
    assert_eq!(mode.map_tag("ac"), Some(Position { line: 11, offset: 2 }));
    assert_eq!(mode.map_tag("ad"), None);
    assert_eq!(mode.map_tag("a"), None);
    assert_eq!(mode.map_tag("AA"), None);
}

#[test]
fn jump_mode_starts_afresh_and_runs_out_of_tags() {
    let mut mode = JumpMode::new();
    let mut tokens = Vec::new();
    for _ in 0..700 {
        tokens.push(token("word", Category::Text));
        tokens.push(token("\n", Category::Whitespace));
    }
    let tagged = mode.tag_tokens(&tokens, 0);
    assert_eq!(tagged.len(), 676 * 3 + 24 * 2);
    assert_eq!(tagged[675 * 3], token("zz", Category::Keyword));
    assert_eq!(tagged[676 * 3], token("word", Category::Text));
    assert_eq!(mode.map_tag("zz"), Some(Position { line: 675, offset: 0 }));
    assert_eq!(mode.map_tag("ba"), Some(Position { line: 26, offset: 0 }));
    let tagged = mode.tag_tokens(&tokens[..4].to_vec(), 3);
    assert_eq!(tagged.len(), 6);
    assert_eq!(mode.map_tag("ab"), Some(Position { line: 4, offset: 0 }));
    assert_eq!(mode.map_tag("ac"), None);
}

#[test]
fn typing_a_tag_jumps_to_its_token() {
    let mut app = application(Some("amp editor\nlib of tokens"));
    press(&mut app, "Kf");
    assert!(matches!(app.mode, Mode::Jump(_)));
    let screen = present(app.workspace.current_buffer.as_ref(), &mut app.mode, &app.view);
    let row: String = screen.cells.iter().filter(|c| c.y == 1 && c.x >= 4).map(|c| c.character).collect();
    assert_eq!(row, "acb ad aekens");
    assert_eq!(screen.texts[0].content, " JUMP ");
    assert_eq!(screen.texts[1].content, format!("{:<74}", "*"));
    press(&mut app, "a");
    assert!(matches!(app.mode, Mode::Jump(_)));
    press(&mut app, "e");
    assert!(matches!(app.mode, Mode::Normal));
    assert_eq!(cursor_of(&app), scribe::buffer::Position { line: 1, offset: 7 });
    press(&mut app, "f");
    present(app.workspace.current_buffer.as_ref(), &mut app.mode, &app.view);
    press(&mut app, "zz");
    assert!(matches!(app.mode, Mode::Normal));
    assert_eq!(cursor_of(&app), scribe::buffer::Position { line: 1, offset: 7 });
}

#[test]
fn select_line_display_shows_the_buffer_and_its_status() {
    let mut buffer = Buffer::new();
    buffer.insert("amp\neditor\nlib");
    assert!(buffer.cursor.move_to(scribe::buffer::Position { line: 1, offset: 2 }));
    let view = View::new(20, 5);
    let screen = select_line::display(Some(&buffer), &SelectLineMode::new(0), &view);
    assert_eq!(screen.cursor, Some(Position { line: 1, offset: 6 }));
    assert_eq!(screen.texts.len(), 2);
    assert_eq!(screen.texts[0].content, " SELECT LINE ");
    assert_eq!(screen.texts[0].foreground, Color::White);
    assert_eq!(screen.texts[0].background, Color::Blue);
    assert_eq!((screen.texts[0].x, screen.texts[0].y), (0, 4));
    assert_eq!(screen.texts[1].content, "*      ");
    assert_eq!(screen.texts[1].foreground, Color::Default);
    assert_eq!(screen.texts[1].background, Color::Black);
    assert_eq!((screen.texts[1].x, screen.texts[1].y), (13, 4));
    let styles: Vec<(usize, Style)> = screen
        .cells
        .iter()
        .filter(|c| c.x == 4)
        .map(|c| (c.y, c.style))
        .collect();
    assert_eq!(styles, vec![(0, Style::Reverse), (1, Style::Reverse), (2, Style::Normal)]);
    let nothing = select_line::display(None, &SelectLineMode::new(0), &view);
    assert!(nothing.cells.is_empty() && nothing.texts.is_empty() && nothing.cursor.is_none());
}

#[test]
fn open_display_lists_the_results_above_the_input() {
    let mut mode = open_mode();
    mode.input = "src/lib.rs".to_string();
    mode.search();
    let count = mode.results.len();
    assert_eq!(count, 1);
    let view = View::new(30, 24);
    let screen = open::display(None, &mode, &view);
    assert!(screen.cells.is_empty());
    assert_eq!(screen.texts.len(), count + 1);
    assert_eq!(screen.texts[0].y, 0);
    assert_eq!(screen.texts[0].background, Color::Black);
    assert_eq!(screen.texts[0].content, format!("{:<30}", "src/lib.rs"));
    let input = &screen.texts[count];
    assert_eq!(input.y, MAX_RESULTS);
    assert_eq!(input.content, format!("{:<30}", "src/lib.rs"));
    assert_eq!(input.style, Style::Bold);
    assert_eq!(input.foreground, Color::Black);
    assert_eq!(input.background, Color::White);
    assert_eq!(screen.cursor, Some(Position { line: MAX_RESULTS, offset: 10 }));

    let mut buffer = Buffer::new();
    buffer.insert("amp");
    let screen = open::display(Some(&buffer), &mode, &view);
    assert_eq!(screen.texts.len(), count + 3);
    assert_eq!(screen.texts[0].content, " OPEN ");
    assert_eq!(screen.texts[0].foreground, Color::Black);
    assert_eq!(screen.texts[0].background, Color::White);
    assert_eq!(screen.texts[1].content, format!("{:<24}", "*"));
    assert_eq!(screen.texts[1].x, 6);
    assert_eq!(screen.texts[2].content, format!("{:<30}", "src/lib.rs"));
    assert!(!screen.cells.is_empty());
}

fn text_of(app: &Application) -> String {
    app.workspace.current_buffer.as_ref().unwrap().data()
}

fn cursor_of(app: &Application) -> scribe::buffer::Position {
    app.workspace.current_buffer.as_ref().unwrap().cursor.position
}

fn press(app: &mut Application, keys: &str) {
    for c in keys.chars() {
        let step = take_key(app, Key::Char(c));
        assert!(step.running);
    }
}

#[test]
fn keys_drive_the_application() {
    let mut app = application(Some("amp\neditor"));
    press(&mut app, "jll");
    assert_eq!(cursor_of(&app), scribe::buffer::Position { line: 1, offset: 2 });
    press(&mut app, "z");
    assert_eq!(cursor_of(&app), scribe::buffer::Position { line: 1, offset: 2 });
    assert!(take_key(&mut app, Key::F(5)).outcome.is_none());
    press(&mut app, "i");
    assert!(matches!(app.mode, Mode::Insert(_)));
    press(&mut app, "xy");
    assert_eq!(text_of(&app), "amp\nedxyitor");
    assert_eq!(cursor_of(&app), scribe::buffer::Position { line: 1, offset: 4 });
    assert!(take_key(&mut app, Key::Enter).running);
    assert_eq!(text_of(&app), "amp\nedxy\nitor");
    assert_eq!(cursor_of(&app), scribe::buffer::Position { line: 2, offset: 0 });
    assert!(take_key(&mut app, Key::Esc).running);
    assert!(matches!(app.mode, Mode::Normal));
    let step = take_key(&mut app, Key::Char(' '));
    assert!(matches!(step.outcome, Some(Outcome::Deferred(Command::SwitchToOpenMode))));
    let step = take_key(&mut app, Key::Char('q'));
    assert!(!step.running);
    assert!(matches!(app.mode, Mode::Exit));
    let step = take_key(&mut app, Key::Char('j'));
    assert!(!step.running && step.outcome.is_none());
}

#[test]
fn keys_in_open_mode_edit_the_search() {
    let mut app = application(None);
    app.mode = Mode::Open(open_mode());
    for c in "src/lib.rsx".chars() {
        take_key(&mut app, Key::Char(c));
    }
    assert!(matches!(&app.mode, Mode::Open(mode) if mode.input == "src/lib.rsx" && mode.results.len() == 0));
    take_key(&mut app, Key::Backspace);
    assert!(matches!(&app.mode, Mode::Open(mode) if mode.input == "src/lib.rs" && mode.results.len() == 1));
    take_key(&mut app, Key::Down);
    take_key(&mut app, Key::Up);
    let step = take_key(&mut app, Key::Enter);
    assert!(matches!(step.outcome, Some(Outcome::OpenPath(path)) if path == "src/lib.rs"));
    assert!(matches!(app.mode, Mode::Normal));
}

#[test]
fn select_mode_copies_and_deletes_the_selection() {
    let mut app = application(Some("amp\neditor"));
    press(&mut app, "Klv");
    assert!(matches!(app.mode, Mode::Select(_)));
    press(&mut app, "jl");
    assert_eq!(cursor_of(&app), scribe::buffer::Position { line: 1, offset: 2 });
    press(&mut app, "y");
    assert!(matches!(app.mode, Mode::Normal));
    assert!(matches!(app.clipboard.get_content(), ClipboardContent::Inline(s) if s == "mp\ned"));
    assert_eq!(text_of(&app), "amp\neditor");
    press(&mut app, "KHlvjld");
    assert_eq!(text_of(&app), "aitor");
    assert_eq!(cursor_of(&app), scribe::buffer::Position { line: 0, offset: 1 });
    assert!(matches!(app.clipboard.get_content(), ClipboardContent::Inline(s) if s == "mp\ned"));
    press(&mut app, "p");
    assert_eq!(text_of(&app), "amp\neditor");
}

#[test]
fn select_line_mode_copies_whole_lines() {
    let mut app = application(Some("amp\neditor\nlib"));
    press(&mut app, "KVj");
    assert!(matches!(app.mode, Mode::SelectLine(_)));
    press(&mut app, "y");
    assert!(matches!(app.clipboard.get_content(), ClipboardContent::Block(s) if s == "amp\neditor\n"));
    press(&mut app, "Jp");
    assert_eq!(text_of(&app), "amp\neditor\nlib\namp\neditor\n");
    press(&mut app, "KVc");
    assert!(matches!(app.mode, Mode::Insert(_)));
    assert_eq!(text_of(&app), "editor\nlib\namp\neditor\n");
    assert!(matches!(app.clipboard.get_content(), ClipboardContent::Block(s) if s == "amp\n"));
    take_key(&mut app, Key::Esc);
    press(&mut app, "p");
    assert_eq!(text_of(&app), "editor\namp\nlib\namp\neditor\n");
}

#[test]
fn lines_are_indented_and_outdented_by_a_step() {
    let mut app = application(Some("amp\n   editor"));
    press(&mut app, "Kl>");
    assert_eq!(text_of(&app), "  amp\n   editor");
    assert_eq!(cursor_of(&app), scribe::buffer::Position { line: 0, offset: 3 });
    press(&mut app, "<");
    assert_eq!(text_of(&app), "amp\n   editor");
    assert_eq!(cursor_of(&app), scribe::buffer::Position { line: 0, offset: 1 });
    press(&mut app, "<");
    assert_eq!(text_of(&app), "amp\n   editor");
    press(&mut app, "j<");
    assert_eq!(text_of(&app), "amp\n editor");
    assert_eq!(cursor_of(&app), scribe::buffer::Position { line: 1, offset: 0 });
    press(&mut app, "<<");
    assert_eq!(text_of(&app), "amp\neditor");
}

#[test]
fn the_modes_have_their_key_maps() {
    assert_eq!(modes::normal::handle(Key::Char('o')), Some(Command::InsertWithNewline));
    assert_eq!(modes::normal::handle(Key::Char('O')), Some(Command::InsertWithNewlineAbove));
    assert_eq!(modes::normal::handle(Key::Char('^')), Some(Command::MoveToFirstWordOfLine));
    assert_eq!(modes::normal::handle(Key::Char('a')), Some(Command::AppendToCurrentToken));
    assert_eq!(modes::normal::handle(Key::Char('I')), Some(Command::InsertAtFirstWordOfLine));
    assert_eq!(modes::normal::handle(Key::Char('A')), Some(Command::InsertAtEndOfLine));
    assert_eq!(modes::normal::handle(Key::Esc), None);
    assert_eq!(modes::select::handle(Key::Char('d')), Some(Command::CopyAndDeleteSelection));
    let mut jump = Mode::Jump(JumpMode::new());
    assert_eq!(modes::handle(&mut jump, Key::Char('a')), None);
    assert_eq!(modes::handle(&mut jump, Key::Enter), None);
    assert_eq!(modes::handle(&mut jump, Key::Char('b')), Some(Command::JumpToTag));
    assert_eq!(modes::handle(&mut jump, Key::Esc), Some(Command::SwitchToNormalMode));
    let mut search = Mode::SearchInsert(amp::models::application::modes::SearchInsertMode::new());
    assert_eq!(modes::handle(&mut search, Key::Char('a')), None);
    assert_eq!(modes::handle(&mut search, Key::Esc), Some(Command::SwitchToNormalMode));
    let mut exit = Mode::Exit;
    assert_eq!(modes::handle(&mut exit, Key::Esc), None);
}

#[test]
fn present_draws_each_mode() {
    let mut buffer = Buffer::new();
    buffer.insert("amp");
    let view = View::new(20, 5);
    let screen = present(Some(&buffer), &mut Mode::Normal, &view);
    assert_eq!(screen.texts.len(), 2);
    assert_eq!(screen.texts[0].content, " NORMAL ");
    assert_eq!(screen.texts[0].background, Color::Black);
    assert_eq!(screen.texts[1].content, "*           ");
    assert_eq!(screen.texts[1].x, 8);
    let mut insert = Mode::Insert(amp::models::application::modes::InsertMode::new());
    let screen = present(Some(&buffer), &mut insert, &view);
    assert_eq!(screen.texts[0].content, " INSERT ");
    assert_eq!(screen.texts[0].background, Color::Green);
    assert_eq!(screen.texts[1].background, Color::Black);
    let screen = present(Some(&buffer), &mut Mode::SelectLine(SelectLineMode::new(0)), &view);
    assert_eq!(screen.texts[0].background, Color::Blue);
    let screen = present(Some(&buffer), &mut Mode::Exit, &view);
    assert!(screen.cells.is_empty() && screen.texts.is_empty() && screen.cursor.is_none());
    let screen = present(None, &mut Mode::Normal, &view);
    assert!(screen.cells.is_empty() && screen.texts.is_empty() && screen.cursor.is_none());
}

#[test]
fn what_is_typed_after_opening_a_line_undoes_as_one() {
    let mut app = application(Some("amp"));
    press(&mut app, "o");
    press(&mut app, "xy");
    assert_eq!(text_of(&app), "amp\nxy");
    take_key(&mut app, Key::Esc);
    app.workspace.current_buffer.as_mut().unwrap().undo();
    assert_eq!(text_of(&app), "amp");
}

#[test]
fn what_is_typed_in_two_stays_undoes_in_two() {
    let mut app = application(Some("amp"));
    press(&mut app, "ix");
    take_key(&mut app, Key::Esc);
    press(&mut app, "iy");
    take_key(&mut app, Key::Esc);
    assert_eq!(text_of(&app), "xyamp");
    app.workspace.current_buffer.as_mut().unwrap().undo();
    assert_eq!(text_of(&app), "xamp");
}

#[test]
fn commands_keep_the_cursor_within_the_text() {
    let mut app = application(Some("  amp editor\n\n   lib of tokens\nlast"));
    let keys = "jjlll<<kk>wweb^LHJKojx\u{1b}Vjd\u{1b}vlly\u{1b}pJp<O\u{1b}KVJc\u{1b}p";
    for c in keys.chars() {
        let key = if c == '\u{1b}' { Key::Esc } else { Key::Char(c) };
        take_key(&mut app, key);
        let buffer = app.workspace.current_buffer.as_mut().unwrap();
        let position = buffer.cursor.position;
        assert!(buffer.cursor.move_to(position), "after {:?}: {:?} in {:?}", c, position, buffer.data());
    }
}

#[test]
fn open_mode_is_entered_over_an_index() {
    let mut app = application(Some("amp"));
    let mut index = bloodhound::Index::new(PathBuf::from("."));
    index.populate(None, false);
    amp::commands::application::switch_to_open_mode(&mut app, index);
    assert!(matches!(&app.mode, Mode::Open(mode) if mode.input.is_empty() && mode.results.len() == 0));
    for c in "src/lib.rs".chars() {
        take_key(&mut app, Key::Char(c));
    }
    assert!(matches!(&app.mode, Mode::Open(mode) if mode.selected_path() == Some(&"src/lib.rs".to_string())));
}

#[test]
fn the_remote_url_goes_to_the_clipboard() {
    let mut app = application(Some("amp"));
    amp::commands::git::copy_remote_url(&mut app, None);
    assert!(matches!(app.clipboard.get_content(), ClipboardContent::Empty));
    amp::commands::git::copy_remote_url(&mut app, Some("git@example.com:amp.git".to_string()));
    assert!(matches!(app.clipboard.get_content(), ClipboardContent::Inline(s) if s == "git@example.com:amp.git"));
    amp::commands::git::copy_remote_url(&mut app, None);
    assert!(matches!(app.clipboard.get_content(), ClipboardContent::Inline(s) if s == "git@example.com:amp.git"));
}

fn cursor_is_within_the_text(app: &mut Application) -> bool {
    let buffer = app.workspace.current_buffer.as_mut().unwrap();
    let position = buffer.cursor.position;
    buffer.cursor.move_to(position)
}

#[test]
fn typing_a_combining_mark_leaves_the_cursor_within_the_text() {
    // The storage holds "a", then its gap, then a combining mark and "b":
    // the mark counts as a character of its own until the gap moves.
    let mut workspace = Workspace::new(Path::new(".")).unwrap();
    let mut buffer = Buffer::new();
    buffer.insert("\u{301}b");
    buffer.insert("a");
    assert!(buffer.cursor.move_to(scribe::buffer::Position { line: 0, offset: 3 }));
    workspace.add_buffer(buffer);
    let mut app = amp::models::application::new(workspace, View::new(80, 24), None);
    press(&mut app, "i");
    take_key(&mut app, Key::Char('\u{301}'));
    assert_eq!(text_of(&app), "a\u{301}b\u{301}");
    assert!(cursor_is_within_the_text(&mut app));
    take_key(&mut app, Key::Char('x'));
    assert!(cursor_is_within_the_text(&mut app));
    assert_eq!(text_of(&app).chars().filter(|c| *c == 'x').count(), 1);
}

#[test]
fn deleting_before_a_combining_mark_leaves_the_cursor_within_the_text() {
    let mut workspace = Workspace::new(Path::new(".")).unwrap();
    let mut buffer = Buffer::new();
    buffer.insert("\u{301}bc");
    buffer.insert("a");
    assert!(buffer.cursor.move_to(scribe::buffer::Position { line: 0, offset: 4 }));
    workspace.add_buffer(buffer);
    let mut app = amp::models::application::new(workspace, View::new(80, 24), None);
    app.mode = Mode::Select(SelectMode::new(Position { line: 0, offset: 3 }));
    take_key(&mut app, Key::Char('d'));
    assert!(matches!(app.mode, Mode::Normal));
    assert!(cursor_is_within_the_text(&mut app));
    press(&mut app, "ix");
    assert!(cursor_is_within_the_text(&mut app));
    assert_eq!(text_of(&app).chars().filter(|c| *c == 'x').count(), 1);
}
