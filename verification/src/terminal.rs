//! The terminal: a history of text that scrolls, and below it one line in
//! which a command is edited.
//!
//! Nothing here touches the screen. Each operation changes the terminal's
//! own state and says what is to be put on the screen for it.

use vstd::prelude::*;
use vstd::string::StrSliceExecFns;
use arrayvec::ArrayString;
use arrayvec::ArrayVec;
use crate::command::command_words;
pub use crate::command::ParsedCommand;
use crate::input::KeyPress;

verus! {

/// Columns of the text screen.
pub const VGA_TEXT_WIDTH: usize = 80;

/// Lines of the text screen.
pub const VGA_TEXT_HEIGHT: usize = 25;

/// The line on which the history is written: the last but one.
pub const COMMAND_HISTORY_LAST_LINE_INDEX: usize = 23;

/// Number of lines that the history takes, from the top.
pub const COMMAND_HISTORY_LINE_COUNT: usize = 24;

/// The line in which the command is edited: the last.
pub const COMMAND_LINE_INDEX_Y: usize = 24;

/// Number of characters that the command line can hold, the prompt among
/// them.
pub const COMMAND_LENGTH: usize = 79;

/// The character that starts every command line.
pub const PROMPT: char = '>';

/// A character and the column of the last history line in which it goes.
#[derive(Clone, Copy, Debug, PartialEq, Eq, Structural)]
pub struct HistoryCell {
    pub column: usize,
    pub character: char,
}

/// What to do on the screen for one character written to the history.
///
/// To scroll is to move the lines of the history up by one and to clear the
/// last of them.
#[derive(Clone, Copy, Debug, PartialEq, Eq, Structural)]
pub struct HistoryWrite {
    /// Scroll before anything is written.
    pub scroll_before: bool,
    /// The character to write on the last history line, if there is one.
    pub character: Option<HistoryCell>,
    /// Scroll after the character has been written.
    pub scroll_after: bool,
}

/// Where the history stands: the column of the next character, and whether a
/// line break waits to be carried out.
pub struct HistoryModel {
    pub position: usize,
    pub scroll_next: bool,
}

/// What writing `c` does on the screen, for a history that stands at
/// `state`.
///
/// A line break is not carried out at once: the line stays on the screen
/// until the next character comes. A character that fills the line scrolls
/// at once.
pub open spec fn history_write(state: HistoryModel, c: char) -> HistoryWrite {
    let column = if state.scroll_next {
        0
    } else {
        state.position
    };
    HistoryWrite {
        scroll_before: state.scroll_next,
        character: if c == '\n' {
            None
        } else {
            Some(HistoryCell { column, character: c })
        },
        scroll_after: c != '\n' && column + 1 >= VGA_TEXT_WIDTH,
    }
}

/// Where the history stands after `c` has been written.
pub open spec fn history_advance(state: HistoryModel, c: char) -> HistoryModel {
    let column = if state.scroll_next {
        0
    } else {
        state.position
    };
    if c == '\n' {
        HistoryModel { position: column, scroll_next: true }
    } else if column + 1 >= VGA_TEXT_WIDTH {
        HistoryModel { position: 0, scroll_next: false }
    } else {
        HistoryModel { position: (column + 1) as usize, scroll_next: false }
    }
}

/// Where the history stands after the first `count` characters of `text`
/// have been written.
pub open spec fn history_after(state: HistoryModel, text: Seq<char>, count: int) -> HistoryModel
    decreases count,
{
    if count <= 0 {
        state
    } else {
        history_advance(history_after(state, text, count - 1), text[count - 1])
    }
}

/// The text that scrolls above the command line.
#[derive(Debug)]
pub struct CommandHistory {
    position: usize,
    scroll_next: bool,
}

impl CommandHistory {
    #[verifier::type_invariant]
    spec fn within_line(self) -> bool {
        self.position < VGA_TEXT_WIDTH
    }

    /// Where the history stands.
    pub closed spec fn view(&self) -> HistoryModel {
        HistoryModel { position: self.position, scroll_next: self.scroll_next }
    }

    /// A history that starts at the first column, with no line break
    /// waiting.
    pub fn new() -> (history: Self)
        ensures
            history@ == (HistoryModel { position: 0, scroll_next: false }),
    {
        Self { position: 0, scroll_next: false }
    }

    /// Writes one character and says what to do on the screen for it.
    pub fn write_char(&mut self, c: char) -> (write: HistoryWrite)
        ensures
            write == history_write(old(self)@, c),
            final(self)@ == history_advance(old(self)@, c),
            final(self)@.position < VGA_TEXT_WIDTH,
    {
        proof {
            use_type_invariant(&*self);
        }
        let scroll_before = self.scroll_next;
        if self.scroll_next {
            self.scroll_next = false;
            self.position = 0;
        }
        if c == '\n' {
            self.scroll_next = true;
            return HistoryWrite { scroll_before, character: None, scroll_after: false };
        }
        let column = self.position;
        let mut scroll_after = false;
        if column + 1 >= VGA_TEXT_WIDTH {
            self.position = 0;
            scroll_after = true;
        } else {
            self.position = column + 1;
        }
        HistoryWrite {
            scroll_before,
            character: Some(HistoryCell { column, character: c }),
            scroll_after,
        }
    }

    /// Writes a text, character by character, and says what to do on the
    /// screen for each.
    pub fn add_text(&mut self, text: &str) -> (writes: Vec<HistoryWrite>)
        ensures
            writes@.len() == text@.len(),
            forall|i: int|
                0 <= i < text@.len() ==> #[trigger] writes@[i] == history_write(
                    history_after(old(self)@, text@, i),
                    text@[i],
                ),
            final(self)@ == history_after(old(self)@, text@, text@.len() as int),
    {
        let length = text.unicode_len();
        let mut writes: Vec<HistoryWrite> = Vec::new();
        let mut index: usize = 0;
        while index < length
            invariant
                index <= length,
                length == text@.len(),
                writes@.len() == index,
                forall|i: int|
                    0 <= i < index ==> #[trigger] writes@[i] == history_write(
                        history_after(old(self)@, text@, i),
                        text@[i],
                    ),
                self@ == history_after(old(self)@, text@, index as int),
            decreases length - index,
        {
            let write = self.write_char(text.get_char(index));
            writes.push(write);
            index += 1;
        }
        writes
    }
}

/// The declaration of `arrayvec::ArrayVec`, a vector of fixed capacity.
#[verifier::external_type_specification]
#[verifier::external_body]
#[verifier::reject_recursive_types(T)]
pub struct ExArrayVec<T, const CAP: usize>(ArrayVec<T, CAP>);

/// The declaration of `arrayvec::ArrayString`, a string of fixed capacity.
#[verifier::external_type_specification]
#[verifier::external_body]
pub struct ExArrayString<const CAP: usize>(ArrayString<CAP>);

/// The characters that a command buffer holds, in their order.
pub uninterp spec fn buffer_chars(buffer: ArrayVec<char, 79>) -> Seq<char>;

/// The characters that a command store holds, in their order.
pub uninterp spec fn stored_chars(store: ArrayString<79>) -> Seq<char>;

/// Whether every character of `text` is ASCII.
pub open spec fn all_ascii(text: Seq<char>) -> bool {
    forall|i: int| 0 <= i < text.len() ==> #[trigger] text[i] <= '\u{7f}'
}

/// `ArrayVec::new`: a buffer that holds nothing.
#[verifier::external_body]
pub(crate) fn buffer_new() -> (buffer: ArrayVec<char, 79>)
    ensures
        buffer_chars(buffer) == Seq::<char>::empty(),
{
    ArrayVec::new()
}

/// `ArrayVec::as_slice`: the characters held, in their order.
#[verifier::external_body]
pub(crate) fn buffer_as_slice<'a>(buffer: &'a ArrayVec<char, 79>) -> (chars: &'a [char])
    ensures
        chars@ == buffer_chars(*buffer),
{
    buffer.as_slice()
}

/// `ArrayVec::try_insert`, for an index that is not beyond the end: with
/// fewer than 79 characters held, `c` is put at `index`, the characters from
/// there on move up by one and the call reports success; with 79 the buffer
/// stays as it was.
#[verifier::external_body]
pub(crate) fn buffer_try_insert(
    buffer: &mut ArrayVec<char, 79>,
    index: usize,
    c: char,
) -> (inserted: bool)
    requires
        index <= buffer_chars(*old(buffer)).len(),
    ensures
        inserted == (buffer_chars(*old(buffer)).len() < COMMAND_LENGTH),
        inserted ==> buffer_chars(*final(buffer)) == buffer_chars(*old(buffer)).insert(
            index as int,
            c,
        ),
        !inserted ==> buffer_chars(*final(buffer)) == buffer_chars(*old(buffer)),
{
    buffer.try_insert(index, c).is_ok()
}

/// `ArrayVec::remove`, for the index of a character that is held: the
/// character leaves the buffer and is returned, and those behind it move
/// down by one.
#[verifier::external_body]
pub(crate) fn buffer_remove(buffer: &mut ArrayVec<char, 79>, index: usize) -> (removed: char)
    requires
        index < buffer_chars(*old(buffer)).len(),
    ensures
        removed == buffer_chars(*old(buffer))[index as int],
        buffer_chars(*final(buffer)) == buffer_chars(*old(buffer)).remove(index as int),
{
    buffer.remove(index)
}

/// `ArrayVec::clear`: the buffer holds nothing afterwards.
#[verifier::external_body]
pub(crate) fn buffer_clear(buffer: &mut ArrayVec<char, 79>)
    ensures
        buffer_chars(*final(buffer)) == Seq::<char>::empty(),
{
    buffer.clear()
}

/// `ArrayString::new`: a store that holds nothing.
#[verifier::external_body]
pub(crate) fn store_new() -> (store: ArrayString<79>)
    ensures
        stored_chars(store) == Seq::<char>::empty(),
{
    ArrayString::new()
}

/// `ArrayString::as_str`: the characters held, as a string slice.
#[verifier::external_body]
pub(crate) fn store_as_str<'a>(store: &'a ArrayString<79>) -> (text: &'a str)
    ensures
        text@ == stored_chars(*store),
{
    store.as_str()
}

/// `ArrayString::clear`: the store holds nothing afterwards.
#[verifier::external_body]
pub(crate) fn store_clear(store: &mut ArrayString<79>)
    ensures
        stored_chars(*final(store)) == Seq::<char>::empty(),
{
    store.clear()
}

/// `ArrayString::try_push`, for an ASCII character and a store that holds
/// ASCII only, so that each character takes one of the 79 bytes: with fewer
/// than 79 characters held, `c` joins them at the end and the call reports
/// success; with 79 the store stays as it was.
#[verifier::external_body]
pub(crate) fn store_try_push(store: &mut ArrayString<79>, c: char) -> (pushed: bool)
    requires
        c <= '\u{7f}',
        all_ascii(stored_chars(*old(store))),
    ensures
        pushed == (stored_chars(*old(store)).len() < COMMAND_LENGTH),
        pushed ==> stored_chars(*final(store)) == stored_chars(*old(store)).push(c),
        !pushed ==> stored_chars(*final(store)) == stored_chars(*old(store)),
{
    store.try_push(c).is_ok()
}

/// The place where the last command is kept while it is carried out.
pub struct CommandStore {
    pub cmd: ArrayString<79>,
}

impl CommandStore {
    /// The command that is kept.
    pub open spec fn view(&self) -> Seq<char> {
        stored_chars(self.cmd)
    }

    /// A store that keeps nothing.
    pub fn new() -> (store: Self)
        ensures
            store@ == Seq::<char>::empty(),
    {
        Self { cmd: store_new() }
    }

    /// The command that is kept, as a string slice.
    pub fn as_str(&self) -> (text: &str)
        ensures
            text@ == self@,
    {
        store_as_str(&self.cmd)
    }

    /// Keeps `chars` in place of what was kept before.
    pub fn replace_cmd(&mut self, chars: &[char])
        requires
            chars@.len() <= COMMAND_LENGTH,
            all_ascii(chars@),
        ensures
            final(self)@ == chars@,
    {
        store_clear(&mut self.cmd);
        let mut index: usize = 0;
        while index < chars.len()
            invariant
                index <= chars@.len(),
                chars@.len() <= COMMAND_LENGTH,
                all_ascii(chars@),
                self@ == chars@.subrange(0, index as int),
            decreases chars@.len() - index,
        {
            let pushed = store_try_push(&mut self.cmd, chars[index]);
            assert(pushed);
            assert(chars@.subrange(0, index as int).push(chars@[index as int])
                =~= chars@.subrange(0, index + 1));
            index += 1;
        }
        assert(chars@.subrange(0, chars@.len() as int) =~= chars@);
    }
}

/// The command line: the characters in it and the place of the cursor among
/// them.
pub struct LineModel {
    pub chars: Seq<char>,
    pub position: int,
}

/// The command line after a key that edits it or moves the cursor.
///
/// A character is put in at the cursor, if it is ASCII and the line has
/// room. Neither the cursor nor the erasing keys get at the prompt, the
/// first character of the line. `Enter` does not edit the line: see
/// `CommandLine::update_command_line`.
pub open spec fn edited(line: LineModel, key: KeyPress) -> LineModel {
    match key {
        KeyPress::Unicode(c) => if c <= '\u{7f}' && line.chars.len() < COMMAND_LENGTH {
            LineModel { chars: line.chars.insert(line.position, c), position: line.position + 1 }
        } else {
            line
        },
        KeyPress::Left => if line.position > 1 {
            LineModel { position: line.position - 1, ..line }
        } else {
            line
        },
        KeyPress::Right => if line.position < line.chars.len() {
            LineModel { position: line.position + 1, ..line }
        } else {
            line
        },
        KeyPress::Backspace => if line.chars.len() > 1 && line.position > 1 {
            LineModel {
                chars: line.chars.remove(line.position - 1),
                position: line.position - 1,
            }
        } else {
            line
        },
        KeyPress::Delete => if line.chars.len() > line.position && line.position > 0 {
            LineModel { chars: line.chars.remove(line.position), ..line }
        } else {
            line
        },
        KeyPress::Home => LineModel { position: 1, ..line },
        KeyPress::End => LineModel { position: line.chars.len() as int, ..line },
        _ => line,
    }
}

/// A command line that holds the prompt alone, the cursor behind it.
pub open spec fn fresh_line() -> LineModel {
    LineModel { chars: seq![PROMPT], position: 1 }
}

/// What a key did to the command line.
pub struct CommandLineUpdate<'a> {
    /// The command that `Enter` handed over, taken apart.
    pub command: Option<ParsedCommand<'a>>,
    /// What to do on the screen to write the command into the history.
    pub history: Vec<HistoryWrite>,
}

/// The line in which a command is edited.
pub struct CommandLine {
    editable_command: ArrayVec<char, 79>,
    position: usize,
}

impl CommandLine {
    /// The characters in the line and the place of the cursor.
    pub closed spec fn view(&self) -> LineModel {
        LineModel { chars: buffer_chars(self.editable_command), position: self.position as int }
    }

    /// The line holds at most 79 characters, all of them ASCII, and the
    /// cursor stands among them or behind the last.
    pub open spec fn wf(&self) -> bool {
        &&& self@.chars.len() <= COMMAND_LENGTH
        &&& 0 <= self@.position <= self@.chars.len()
        &&& all_ascii(self@.chars)
    }

    /// An empty line, without a prompt.
    pub fn new() -> (line: Self)
        ensures
            line.wf(),
            line@ == (LineModel { chars: Seq::<char>::empty(), position: 0 }),
    {
        Self { editable_command: buffer_new(), position: 0 }
    }

    /// Number of characters in the line, the prompt among them.
    pub fn len(&self) -> (length: usize)
        ensures
            length == self@.chars.len(),
    {
        buffer_as_slice(&self.editable_command).len()
    }

    /// Puts `c` in at the cursor and moves the cursor behind it. Returns
    /// whether the line had room for it.
    pub fn add_char(&mut self, c: char) -> (added: bool)
        requires
            old(self).wf(),
            c <= '\u{7f}',
        ensures
            final(self).wf(),
            added == (old(self)@.chars.len() < COMMAND_LENGTH),
            final(self)@ == if added {
                LineModel {
                    chars: old(self)@.chars.insert(old(self)@.position, c),
                    position: old(self)@.position + 1,
                }
            } else {
                old(self)@
            },
    {
        if buffer_try_insert(&mut self.editable_command, self.position, c) {
            self.position += 1;
            true
        } else {
            false
        }
    }

    /// Acts on a key.
    ///
    /// `Enter` hands the line over: it is kept in `cmd_store`, taken apart
    /// and written into the history, followed by a line break, and a fresh
    /// line with the prompt takes its place. Any other key edits the line as
    /// `edited` says and hands nothing over.
    pub fn update_command_line<'a>(
        &mut self,
        key: KeyPress,
        command_history: &mut CommandHistory,
        cmd_store: &'a mut CommandStore,
    ) -> (update: CommandLineUpdate<'a>)
        requires
            old(self).wf(),
            old(self)@.chars.len() >= 1,
        ensures
            final(self).wf(),
            final(self)@.chars.len() >= 1,
            key is Enter ==> {
                &&& final(self)@ == fresh_line()
                &&& final(cmd_store)@ == old(self)@.chars
                &&& update.command is Some
                &&& is_parse_of(update.command.unwrap(), old(self)@.chars)
                &&& update.history@.len() == old(self)@.chars.len() + 1
                &&& final(command_history)@ == history_after(
                    old(command_history)@,
                    old(self)@.chars.push('\n'),
                    (old(self)@.chars.len() + 1) as int,
                )
                &&& forall|i: int|
                    0 <= i <= old(self)@.chars.len() ==> #[trigger] update.history@[i]
                        == history_write(
                        history_after(old(command_history)@, old(self)@.chars.push('\n'), i),
                        old(self)@.chars.push('\n')[i],
                    )
            },
            !(key is Enter) ==> {
                &&& final(self)@ == edited(old(self)@, key)
                &&& final(cmd_store)@ == old(cmd_store)@
                &&& final(command_history)@ == old(command_history)@
                &&& update.command is None
                &&& update.history@.len() == 0
            },
    {
        match key {
            KeyPress::Enter => {
                let history = self.new_command_line(command_history, cmd_store);
                let kept: &'a CommandStore = cmd_store;
                let command = ParsedCommand::parse(kept.as_str());
                return CommandLineUpdate { command: Some(command), history };
            },
            KeyPress::Unicode(c) => {
                if c <= '\u{7f}' {
                    let _ = self.add_char(c);
                }
            },
            KeyPress::Left => {
                if self.position > 1 {
                    self.position -= 1;
                }
            },
            KeyPress::Right => {
                if self.position < buffer_as_slice(&self.editable_command).len() {
                    self.position += 1;
                }
            },
            KeyPress::Backspace => {
                if buffer_as_slice(&self.editable_command).len() > 1 && self.position > 1 {
                    let _ = buffer_remove(&mut self.editable_command, self.position - 1);
                    self.position -= 1;
                }
            },
            KeyPress::Delete => {
                if buffer_as_slice(&self.editable_command).len() > self.position && self.position
                    > 0 {
                    let _ = buffer_remove(&mut self.editable_command, self.position);
                }
            },
            KeyPress::Home => {
                self.position = 1;
            },
            KeyPress::End => {
                self.position = buffer_as_slice(&self.editable_command).len();
            },
            _ => (),
        }
        CommandLineUpdate { command: None, history: Vec::new() }
    }

    /// Hands the line over and starts a fresh one: the line is written into
    /// the history, followed by a line break, and kept in `cmd_store`, and a
    /// line with the prompt alone takes its place. Returns what to do on the
    /// screen for the history.
    pub fn new_command_line(
        &mut self,
        command_history: &mut CommandHistory,
        cmd_store: &mut CommandStore,
    ) -> (writes: Vec<HistoryWrite>)
        requires
            old(self).wf(),
        ensures
            final(self).wf(),
            final(self)@ == fresh_line(),
            final(cmd_store)@ == old(self)@.chars,
            writes@.len() == old(self)@.chars.len() + 1,
            final(command_history)@ == history_after(
                old(command_history)@,
                old(self)@.chars.push('\n'),
                (old(self)@.chars.len() + 1) as int,
            ),
            forall|i: int|
                0 <= i <= old(self)@.chars.len() ==> #[trigger] writes@[i] == history_write(
                    history_after(old(command_history)@, old(self)@.chars.push('\n'), i),
                    old(self)@.chars.push('\n')[i],
                ),
    {
        let ghost line = self@.chars;
        let ghost text = line.push('\n');
        let ghost start = command_history@;
        let mut writes: Vec<HistoryWrite> = Vec::new();
        let chars = buffer_as_slice(&self.editable_command);
        let mut index: usize = 0;
        while index < chars.len()
            invariant
                index <= chars@.len(),
                chars@ == line,
                text == line.push('\n'),
                writes@.len() == index,
                command_history@ == history_after(start, text, index as int),
                forall|i: int|
                    0 <= i < index ==> #[trigger] writes@[i] == history_write(
                        history_after(start, text, i),
                        text[i],
                    ),
            decreases chars@.len() - index,
        {
            let write = command_history.write_char(chars[index]);
            writes.push(write);
            index += 1;
        }
        let write = command_history.write_char('\n');
        writes.push(write);
        cmd_store.replace_cmd(chars);
        buffer_clear(&mut self.editable_command);
        self.position = 0;
        let added = self.add_char(PROMPT);
        assert(self@.chars =~= seq![PROMPT]);
        writes
    }

    /// The 80 characters to show in the command line: those of the line,
    /// then blanks.
    pub fn cells(&self) -> (cells: [char; 80])
        requires
            self.wf(),
        ensures
            forall|column: int|
                0 <= column < 80 ==> #[trigger] cells[column] == if column < self@.chars.len() {
                    self@.chars[column]
                } else {
                    ' '
                },
    {
        let chars = buffer_as_slice(&self.editable_command);
        let mut cells = [' '; 80];
        let mut column: usize = 0;
        while column < chars.len()
            invariant
                column <= chars@.len(),
                chars@.len() <= COMMAND_LENGTH,
                chars@ == self@.chars,
                forall|i: int|
                    0 <= i < 80 ==> #[trigger] cells[i] == if i < column {
                        chars@[i]
                    } else {
                        ' '
                    },
            decreases chars@.len() - column,
        {
            cells[column] = chars[column];
            column += 1;
        }
        cells
    }

    /// The place of the cursor on the screen, counted in characters from the
    /// top left corner.
    pub fn cursor_character_index(&self) -> (index: usize)
        requires
            self.wf(),
        ensures
            index == self@.position + COMMAND_LINE_INDEX_Y * VGA_TEXT_WIDTH,
    {
        self.position + COMMAND_LINE_INDEX_Y * VGA_TEXT_WIDTH
    }
}

/// Whether `parsed` is the command line `cmd_line` taken apart: its name is
/// the first word behind the prompt and its arguments are the words after
/// that, or there is neither.
pub open spec fn is_parse_of(parsed: ParsedCommand, cmd_line: Seq<char>) -> bool {
    if command_words(cmd_line).len() == 0 {
        parsed.name@.len() == 0 && parsed.arguments@.len() == 0
    } else {
        parsed.name@ == command_words(cmd_line)[0] && parsed.argument_views() == command_words(
            cmd_line,
        ).subrange(1, command_words(cmd_line).len() as int)
    }
}

/// The terminal: the history and the command line below it.
pub struct Terminal {
    history: CommandHistory,
    command_line: CommandLine,
}

impl Terminal {
    /// Where the history stands.
    pub closed spec fn history(&self) -> HistoryModel {
        self.history@
    }

    /// The command line.
    pub closed spec fn line(&self) -> LineModel {
        self.command_line@
    }

    /// The command line is well formed.
    pub closed spec fn wf(&self) -> bool {
        self.command_line.wf()
    }

    /// A terminal with an empty history. With `init_cmd` the command line
    /// starts with the prompt and takes keys; without, it stays empty and the
    /// terminal serves for writing only.
    pub fn new(init_cmd: bool) -> (terminal: Self)
        ensures
            terminal.wf(),
            terminal.history() == (HistoryModel { position: 0, scroll_next: false }),
            terminal.line() == if init_cmd {
                fresh_line()
            } else {
                LineModel { chars: Seq::<char>::empty(), position: 0 }
            },
    {
        let mut terminal = Self {
            history: CommandHistory::new(),
            command_line: CommandLine::new(),
        };
        if init_cmd {
            let added = terminal.command_line.add_char(PROMPT);
            assert(terminal.command_line@.chars =~= seq![PROMPT]);
        }
        terminal
    }

    /// Acts on a key: see `CommandLine::update_command_line`.
    pub fn update_command_line<'a>(
        &mut self,
        key: KeyPress,
        cmd_store: &'a mut CommandStore,
    ) -> (update: CommandLineUpdate<'a>)
        requires
            old(self).wf(),
            old(self).line().chars.len() >= 1,
        ensures
            final(self).wf(),
            final(self).line().chars.len() >= 1,
            key is Enter ==> {
                &&& final(self).line() == fresh_line()
                &&& final(cmd_store)@ == old(self).line().chars
                &&& update.command is Some
                &&& is_parse_of(update.command.unwrap(), old(self).line().chars)
                &&& update.history@.len() == old(self).line().chars.len() + 1
                &&& final(self).history() == history_after(
                    old(self).history(),
                    old(self).line().chars.push('\n'),
                    (old(self).line().chars.len() + 1) as int,
                )
                &&& forall|i: int|
                    0 <= i <= old(self).line().chars.len() ==> #[trigger] update.history@[i]
                        == history_write(
                        history_after(old(self).history(), old(self).line().chars.push('\n'), i),
                        old(self).line().chars.push('\n')[i],
                    )
            },
            !(key is Enter) ==> {
                &&& final(self).line() == edited(old(self).line(), key)
                &&& final(cmd_store)@ == old(cmd_store)@
                &&& final(self).history() == old(self).history()
                &&& update.command is None
                &&& update.history@.len() == 0
            },
    {
        self.command_line.update_command_line(key, &mut self.history, cmd_store)
    }

    /// Hands the command line over and starts a fresh one: see
    /// `CommandLine::new_command_line`.
    pub fn new_command_line(&mut self, cmd_store: &mut CommandStore) -> (writes: Vec<HistoryWrite>)
        requires
            old(self).wf(),
        ensures
            final(self).wf(),
            final(self).line() == fresh_line(),
            final(cmd_store)@ == old(self).line().chars,
            writes@.len() == old(self).line().chars.len() + 1,
            final(self).history() == history_after(
                old(self).history(),
                old(self).line().chars.push('\n'),
                (old(self).line().chars.len() + 1) as int,
            ),
            forall|i: int|
                0 <= i <= old(self).line().chars.len() ==> #[trigger] writes@[i] == history_write(
                    history_after(old(self).history(), old(self).line().chars.push('\n'), i),
                    old(self).line().chars.push('\n')[i],
                ),
    {
        self.command_line.new_command_line(&mut self.history, cmd_store)
    }

    /// Writes a text into the history and says what to do on the screen for
    /// each of its characters.
    pub fn write_str(&mut self, s: &str) -> (writes: Vec<HistoryWrite>)
        ensures
            final(self).wf() == old(self).wf(),
            final(self).line() == old(self).line(),
            writes@.len() == s@.len(),
            forall|i: int|
                0 <= i < s@.len() ==> #[trigger] writes@[i] == history_write(
                    history_after(old(self).history(), s@, i),
                    s@[i],
                ),
            final(self).history() == history_after(old(self).history(), s@, s@.len() as int),
    {
        self.history.add_text(s)
    }

    /// The command line, for showing it.
    pub fn command_line(&self) -> (line: &CommandLine)
        ensures
            line@ == self.line(),
            line.wf() == self.wf(),
    {
        &self.command_line
    }
}

/// A single line at the top of the screen that is written from left to
/// right and never scrolls: what does not fit is dropped.
pub struct DebugLine {
    position: usize,
}

impl DebugLine {
    #[verifier::type_invariant]
    spec fn within_line(self) -> bool {
        self.position <= VGA_TEXT_WIDTH
    }

    /// The column of the next character.
    pub closed spec fn position(&self) -> usize {
        self.position
    }

    /// A line that starts at the first column.
    pub fn new() -> (line: Self)
        ensures
            line.position() == 0,
    {
        Self { position: 0 }
    }

    /// Takes in a text. Returns the column at which it starts and the number
    /// of its characters that fit: those are to be shown, the others not.
    pub fn write_str(&mut self, s: &str) -> (written: (usize, usize))
        ensures
            written.0 == old(self).position(),
            written.1 == if s@.len() <= VGA_TEXT_WIDTH - old(self).position() {
                s@.len() as int
            } else {
                VGA_TEXT_WIDTH - old(self).position()
            },
            final(self).position() == old(self).position() + written.1,
    {
        proof {
            use_type_invariant(&*self);
        }
        let start = self.position;
        let room = VGA_TEXT_WIDTH - start;
        let length = s.unicode_len();
        let count = if length <= room {
            length
        } else {
            room
        };
        self.position = start + count;
        (start, count)
    }
}

} // verus!
