use kernel_bringup::command::whitespace;
use kernel_bringup::command::ParsedCommand;
use kernel_bringup::command::ShellCommand;
use kernel_bringup::input::decoded_key_press;
use kernel_bringup::input::keyboard_event_to_key_press;
use kernel_bringup::input::KeyKind;
use kernel_bringup::input::KeyPress;
use kernel_bringup::input::KeyEventOutcome;
use kernel_bringup::terminal::CommandHistory;
use kernel_bringup::terminal::CommandLine;
use kernel_bringup::terminal::CommandStore;
use kernel_bringup::terminal::DebugLine;
use kernel_bringup::terminal::HistoryCell;
use kernel_bringup::terminal::HistoryWrite;
use kernel_bringup::terminal::Terminal;

fn put(column: usize, character: char) -> HistoryWrite {
    HistoryWrite {
        scroll_before: false,
        character: Some(HistoryCell { column, character }),
        scroll_after: false,
    }
}

fn line_text(line: &CommandLine) -> String {
    line.cells().iter().collect::<String>().trim_end().to_string()
}

fn type_text(terminal: &mut Terminal, store: &mut CommandStore, text: &str) {
    for c in text.chars() {
        let update = terminal.update_command_line(KeyPress::Unicode(c), store);
        assert!(update.command.is_none());
        assert!(update.history.is_empty());
    }
}

#[test]
fn whitespace_agrees_with_the_standard_library() {
    for code in 0u32..=0x10_ffff {
        if let Some(c) = char::from_u32(code) {
            assert_eq!(whitespace(c), c.is_whitespace(), "U+{:04X}", code);
        }
    }
}

#[test]
fn parse_splits_name_and_arguments() {
    let parsed = ParsedCommand::parse(">echo hello  world");
    assert_eq!(parsed.name, "echo");
    assert_eq!(parsed.arguments, vec!["hello", "world"]);
}

#[test]
fn parse_trims_the_line() {
    let parsed = ParsedCommand::parse(">   reboot \t ");
    assert_eq!(parsed.name, "reboot");
    assert!(parsed.arguments.is_empty());
}

#[test]
fn parse_of_an_empty_command() {
    for line in [">", ">   ", "> \t\n", "x"] {
        let parsed = ParsedCommand::parse(line);
        assert_eq!(parsed.name, "");
        assert!(parsed.arguments.is_empty());
    }
}

#[test]
fn parse_drops_the_first_character_whatever_it_is() {
    let parsed = ParsedCommand::parse("echo a");
    assert_eq!(parsed.name, "cho");
    assert_eq!(parsed.arguments, vec!["a"]);
}

#[test]
fn parse_agrees_with_split_whitespace() {
    let lines = [
        ">a",
        ">a b c",
        ">  lead and trail  ",
        ">tabs\tand\u{a0}wide\u{3000}spaces",
        ">ünïcödé wörds hier",
        ">one\r\ntwo",
        "> x",
    ];
    for line in lines {
        let parsed = ParsedCommand::parse(line);
        let mut expected = line[1..].trim().split_whitespace();
        assert_eq!(parsed.name, expected.next().unwrap_or_default());
        assert_eq!(parsed.arguments, expected.collect::<Vec<&str>>());
    }
}

#[test]
fn shell_commands_by_name() {
    assert_eq!(ShellCommand::classify("echo"), ShellCommand::Echo);
    assert_eq!(ShellCommand::classify("reboot"), ShellCommand::Reboot);
    assert_eq!(ShellCommand::classify(""), ShellCommand::Empty);
    assert_eq!(ShellCommand::classify("Echo"), ShellCommand::Unknown);
    assert_eq!(ShellCommand::classify("halt"), ShellCommand::Unknown);
    assert_eq!(ShellCommand::classify("echoo"), ShellCommand::Unknown);
}

#[test]
fn navigation_keys_press_when_they_go_down() {
    let keys = [
        (KeyKind::ArrowUp, KeyPress::Up),
        (KeyKind::ArrowDown, KeyPress::Down),
        (KeyKind::ArrowLeft, KeyPress::Left),
        (KeyKind::ArrowRight, KeyPress::Right),
        (KeyKind::Enter, KeyPress::Enter),
        (KeyKind::Backspace, KeyPress::Backspace),
        (KeyKind::Escape, KeyPress::Escape),
        (KeyKind::Delete, KeyPress::Delete),
        (KeyKind::Home, KeyPress::Home),
        (KeyKind::End, KeyPress::End),
    ];
    for (kind, press) in keys {
        assert_eq!(keyboard_event_to_key_press(kind, true), KeyEventOutcome::Press(press));
        assert_eq!(keyboard_event_to_key_press(kind, false), KeyEventOutcome::Ignore);
    }
}

#[test]
fn other_keys_go_to_the_layout() {
    assert_eq!(keyboard_event_to_key_press(KeyKind::Other, true), KeyEventOutcome::Decode);
    assert_eq!(keyboard_event_to_key_press(KeyKind::Other, false), KeyEventOutcome::Decode);
    assert_eq!(decoded_key_press(Some('a')), Some(KeyPress::Unicode('a')));
    assert_eq!(decoded_key_press(Some('é')), Some(KeyPress::Unicode('é')));
    assert_eq!(decoded_key_press(None), None);
}

#[test]
fn history_writes_characters_from_left_to_right() {
    let mut history = CommandHistory::new();
    assert_eq!(history.write_char('a'), put(0, 'a'));
    assert_eq!(history.write_char('b'), put(1, 'b'));
    assert_eq!(history.write_char(' '), put(2, ' '));
}

#[test]
fn history_line_break_scrolls_with_the_next_character() {
    let mut history = CommandHistory::new();
    history.write_char('a');
    assert_eq!(
        history.write_char('\n'),
        HistoryWrite { scroll_before: false, character: None, scroll_after: false }
    );
    assert_eq!(
        history.write_char('b'),
        HistoryWrite {
            scroll_before: true,
            character: Some(HistoryCell { column: 0, character: 'b' }),
            scroll_after: false,
        }
    );
    assert_eq!(history.write_char('c'), put(1, 'c'));
}

#[test]
fn history_two_line_breaks_leave_an_empty_line() {
    let mut history = CommandHistory::new();
    history.write_char('\n');
    assert_eq!(
        history.write_char('\n'),
        HistoryWrite { scroll_before: true, character: None, scroll_after: false }
    );
    assert_eq!(
        history.write_char('x'),
        HistoryWrite {
            scroll_before: true,
            character: Some(HistoryCell { column: 0, character: 'x' }),
            scroll_after: false,
        }
    );
}

#[test]
fn history_scrolls_when_the_line_is_full() {
    let mut history = CommandHistory::new();
    for column in 0..79 {
        assert_eq!(history.write_char('x'), put(column, 'x'));
    }
    assert_eq!(
        history.write_char('y'),
        HistoryWrite {
            scroll_before: false,
            character: Some(HistoryCell { column: 79, character: 'y' }),
            scroll_after: true,
        }
    );
    assert_eq!(history.write_char('z'), put(0, 'z'));
}

#[test]
fn history_add_text_writes_each_character() {
    let mut history = CommandHistory::new();
    let writes = history.add_text("ab\ncd");
    assert_eq!(writes.len(), 5);
    assert_eq!(writes[0], put(0, 'a'));
    assert_eq!(writes[1], put(1, 'b'));
    assert_eq!(writes[2].character, None);
    assert!(writes[3].scroll_before);
    assert_eq!(writes[3].character, Some(HistoryCell { column: 0, character: 'c' }));
    assert_eq!(writes[4], put(1, 'd'));
    assert!(history.add_text("").is_empty());
}

#[test]
fn terminal_with_prompt_starts_behind_it() {
    let terminal = Terminal::new(true);
    assert_eq!(line_text(terminal.command_line()), ">");
    assert_eq!(terminal.command_line().cursor_character_index(), 24 * 80 + 1);
    let cells = terminal.command_line().cells();
    assert_eq!(cells.len(), 80);
    assert!(cells[1..].iter().all(|c| *c == ' '));
}

#[test]
fn terminal_without_prompt_is_empty() {
    let terminal = Terminal::new(false);
    assert_eq!(line_text(terminal.command_line()), "");
    assert_eq!(terminal.command_line().cursor_character_index(), 24 * 80);
}

#[test]
fn typing_puts_characters_in_at_the_cursor() {
    let mut terminal = Terminal::new(true);
    let mut store = CommandStore::new();
    type_text(&mut terminal, &mut store, "eho");
    terminal.update_command_line(KeyPress::Left, &mut store);
    terminal.update_command_line(KeyPress::Left, &mut store);
    terminal.update_command_line(KeyPress::Unicode('c'), &mut store);
    assert_eq!(line_text(terminal.command_line()), ">echo");
    assert_eq!(terminal.command_line().cursor_character_index(), 24 * 80 + 3);
}

#[test]
fn characters_beyond_ascii_are_not_taken() {
    let mut terminal = Terminal::new(true);
    let mut store = CommandStore::new();
    terminal.update_command_line(KeyPress::Unicode('ä'), &mut store);
    terminal.update_command_line(KeyPress::Unicode('\u{80}'), &mut store);
    assert_eq!(line_text(terminal.command_line()), ">");
    terminal.update_command_line(KeyPress::Unicode('\u{7f}'), &mut store);
    assert_eq!(terminal.command_line().cursor_character_index(), 24 * 80 + 2);
}

#[test]
fn cursor_keys_stay_off_the_prompt_and_inside_the_line() {
    let mut terminal = Terminal::new(true);
    let mut store = CommandStore::new();
    type_text(&mut terminal, &mut store, "ab");
    for _ in 0..5 {
        terminal.update_command_line(KeyPress::Left, &mut store);
    }
    assert_eq!(terminal.command_line().cursor_character_index(), 24 * 80 + 1);
    for _ in 0..5 {
        terminal.update_command_line(KeyPress::Right, &mut store);
    }
    assert_eq!(terminal.command_line().cursor_character_index(), 24 * 80 + 3);
    terminal.update_command_line(KeyPress::Home, &mut store);
    assert_eq!(terminal.command_line().cursor_character_index(), 24 * 80 + 1);
    terminal.update_command_line(KeyPress::End, &mut store);
    assert_eq!(terminal.command_line().cursor_character_index(), 24 * 80 + 3);
}

#[test]
fn backspace_and_delete_spare_the_prompt() {
    let mut terminal = Terminal::new(true);
    let mut store = CommandStore::new();
    type_text(&mut terminal, &mut store, "abc");
    terminal.update_command_line(KeyPress::Backspace, &mut store);
    assert_eq!(line_text(terminal.command_line()), ">ab");
    terminal.update_command_line(KeyPress::Home, &mut store);
    terminal.update_command_line(KeyPress::Backspace, &mut store);
    assert_eq!(line_text(terminal.command_line()), ">ab");
    terminal.update_command_line(KeyPress::Delete, &mut store);
    assert_eq!(line_text(terminal.command_line()), ">b");
    terminal.update_command_line(KeyPress::Delete, &mut store);
    assert_eq!(line_text(terminal.command_line()), ">");
    terminal.update_command_line(KeyPress::Delete, &mut store);
    terminal.update_command_line(KeyPress::Backspace, &mut store);
    assert_eq!(line_text(terminal.command_line()), ">");
    assert_eq!(terminal.command_line().cursor_character_index(), 24 * 80 + 1);
}

#[test]
fn keys_without_meaning_change_nothing() {
    let mut terminal = Terminal::new(true);
    let mut store = CommandStore::new();
    type_text(&mut terminal, &mut store, "ls");
    for key in [KeyPress::Up, KeyPress::Down, KeyPress::Escape] {
        let update = terminal.update_command_line(key, &mut store);
        assert!(update.command.is_none());
    }
    assert_eq!(line_text(terminal.command_line()), ">ls");
    assert_eq!(terminal.command_line().cursor_character_index(), 24 * 80 + 3);
}

#[test]
fn command_line_holds_79_characters() {
    let mut terminal = Terminal::new(true);
    let mut store = CommandStore::new();
    for _ in 0..100 {
        terminal.update_command_line(KeyPress::Unicode('x'), &mut store);
    }
    let cells = terminal.command_line().cells();
    assert_eq!(cells[0], '>');
    assert!(cells[1..79].iter().all(|c| *c == 'x'));
    assert_eq!(cells[79], ' ');
    assert_eq!(terminal.command_line().cursor_character_index(), 24 * 80 + 79);
    let update = terminal.update_command_line(KeyPress::Enter, &mut store);
    assert_eq!(update.command.unwrap().name.len(), 78);
    assert_eq!(update.history.len(), 80);
    assert_eq!(store.as_str().len(), 79);
}

#[test]
fn enter_hands_the_command_over() {
    let mut terminal = Terminal::new(true);
    let mut store = CommandStore::new();
    type_text(&mut terminal, &mut store, "echo  one two ");
    {
        let update = terminal.update_command_line(KeyPress::Enter, &mut store);
        let command = update.command.unwrap();
        assert_eq!(command.name, "echo");
        assert_eq!(command.arguments, vec!["one", "two"]);
        assert_eq!(update.history.len(), 16);
        assert_eq!(update.history[0], put(0, '>'));
        assert_eq!(update.history[1], put(1, 'e'));
        assert_eq!(update.history[14], put(14, ' '));
        assert_eq!(update.history[15].character, None);
    }
    assert_eq!(store.as_str(), ">echo  one two ");
    assert_eq!(line_text(terminal.command_line()), ">");
    assert_eq!(terminal.command_line().cursor_character_index(), 24 * 80 + 1);
}

#[test]
fn enter_on_the_bare_prompt_hands_over_an_empty_command() {
    let mut terminal = Terminal::new(true);
    let mut store = CommandStore::new();
    let update = terminal.update_command_line(KeyPress::Enter, &mut store);
    let command = update.command.unwrap();
    assert_eq!(command.name, "");
    assert!(command.arguments.is_empty());
    assert_eq!(update.history.len(), 2);
}

#[test]
fn second_command_scrolls_the_history() {
    let mut terminal = Terminal::new(true);
    let mut store = CommandStore::new();
    type_text(&mut terminal, &mut store, "a");
    terminal.update_command_line(KeyPress::Enter, &mut store);
    type_text(&mut terminal, &mut store, "b");
    let update = terminal.update_command_line(KeyPress::Enter, &mut store);
    assert!(update.history[0].scroll_before);
    assert_eq!(update.history[0].character, Some(HistoryCell { column: 0, character: '>' }));
    assert_eq!(update.history[1], put(1, 'b'));
    assert_eq!(update.command.unwrap().name, "b");
}

#[test]
fn new_command_line_starts_a_prompt_on_a_terminal_without_one() {
    let mut terminal = Terminal::new(false);
    let mut store = CommandStore::new();
    let writes = terminal.new_command_line(&mut store);
    assert_eq!(writes.len(), 1);
    assert_eq!(writes[0].character, None);
    assert_eq!(store.as_str(), "");
    assert_eq!(line_text(terminal.command_line()), ">");
}

#[test]
fn terminal_write_str_goes_to_the_history() {
    let mut terminal = Terminal::new(true);
    let writes = terminal.write_str("Hello world\n");
    assert_eq!(writes.len(), 12);
    assert_eq!(writes[0], put(0, 'H'));
    assert_eq!(writes[10], put(10, 'd'));
    assert_eq!(writes[11].character, None);
    let writes = terminal.write_str("x");
    assert!(writes[0].scroll_before);
    assert_eq!(line_text(terminal.command_line()), ">");
}

#[test]
fn command_store_replaces_what_it_kept() {
    let mut store = CommandStore::new();
    assert_eq!(store.as_str(), "");
    store.replace_cmd(&['>', 'a', 'b']);
    assert_eq!(store.as_str(), ">ab");
    store.replace_cmd(&['>']);
    assert_eq!(store.as_str(), ">");
    store.replace_cmd(&[]);
    assert_eq!(store.as_str(), "");
}

#[test]
fn command_line_add_char_moves_the_cursor() {
    let mut line = CommandLine::new();
    assert!(line.add_char('>'));
    assert!(line.add_char('x'));
    assert_eq!(line_text(&line), ">x");
    assert_eq!(line.cursor_character_index(), 24 * 80 + 2);
}

#[test]
fn debug_line_drops_what_does_not_fit() {
    let mut line = DebugLine::new();
    assert_eq!(line.write_str("boot"), (0, 4));
    assert_eq!(line.write_str(" ok"), (4, 3));
    let long = "x".repeat(100);
    assert_eq!(line.write_str(&long), (7, 73));
    assert_eq!(line.write_str("more"), (80, 0));
}
