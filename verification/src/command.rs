//! Commands as the command line hands them over: a prompt character, then
//! words that whitespace keeps apart. The first word names the command, the
//! others are its arguments.

use vstd::prelude::*;
use vstd::string::StrSliceExecFns;

verus! {

/// Whether two strings hold the same characters.
pub fn same_text(left: &str, right: &str) -> (same: bool)
    ensures
        same == (left@ == right@),
{
    let length = left.unicode_len();
    if length != right.unicode_len() {
        return false;
    }
    let mut index: usize = 0;
    while index < length
        invariant
            index <= length,
            length == left@.len(),
            length == right@.len(),
            forall|i: int| 0 <= i < index ==> left@[i] == right@[i],
        decreases length - index,
    {
        if left.get_char(index) != right.get_char(index) {
            return false;
        }
        index += 1;
    }
    assert(left@ =~= right@);
    true
}

/// Whether `c` is whitespace: one of the 25 characters that Unicode gives the
/// property `White_Space`.
pub open spec fn is_whitespace(c: char) -> bool {
    ||| '\u{9}' <= c <= '\u{d}'
    ||| c == ' '
    ||| c == '\u{85}'
    ||| c == '\u{a0}'
    ||| c == '\u{1680}'
    ||| '\u{2000}' <= c <= '\u{200a}'
    ||| c == '\u{2028}'
    ||| c == '\u{2029}'
    ||| c == '\u{202f}'
    ||| c == '\u{205f}'
    ||| c == '\u{3000}'
}

/// Whether `c` is whitespace.
pub fn whitespace(c: char) -> (white: bool)
    ensures
        white == is_whitespace(c),
{
    ('\u{9}' <= c && c <= '\u{d}') || c == ' ' || c == '\u{85}' || c == '\u{a0}' || c
        == '\u{1680}' || ('\u{2000}' <= c && c <= '\u{200a}') || c == '\u{2028}' || c
        == '\u{2029}' || c == '\u{202f}' || c == '\u{205f}' || c == '\u{3000}'
}

/// Index of the first character of `text` at or after `from` that is no
/// whitespace, or the length of `text` if there is none.
pub open spec fn word_start(text: Seq<char>, from: int) -> int
    decreases text.len() - from,
{
    if from >= text.len() {
        text.len() as int
    } else if !is_whitespace(text[from]) {
        from
    } else {
        word_start(text, from + 1)
    }
}

/// Index of the first whitespace of `text` at or after `from`, or the length
/// of `text` if there is none.
pub open spec fn word_end(text: Seq<char>, from: int) -> int
    decreases text.len() - from,
{
    if from >= text.len() {
        text.len() as int
    } else if is_whitespace(text[from]) {
        from
    } else {
        word_end(text, from + 1)
    }
}

/// The words of `text` from index `from` on, in their order: the longest
/// runs of characters that are no whitespace.
pub open spec fn words_from(text: Seq<char>, from: int) -> Seq<Seq<char>>
    decreases text.len() - from,
    via words_from_decreases
{
    let start = word_start(text, from);
    if from < 0 || start >= text.len() {
        Seq::empty()
    } else {
        let end = word_end(text, start);
        seq![text.subrange(start, end)] + words_from(text, end)
    }
}

#[via_fn]
proof fn words_from_decreases(text: Seq<char>, from: int) {
    if from >= 0 {
        let start = word_start(text, from);
        lemma_word_start(text, from);
        if start < text.len() {
            lemma_word_end(text, start);
        }
    }
}

/// What `word_start` returns lies between `from` and the end of the text,
/// is no whitespace if it lies in the text, and only whitespace lies before
/// it.
pub proof fn lemma_word_start(text: Seq<char>, from: int)
    requires
        0 <= from,
    ensures
        from <= word_start(text, from) || text.len() <= word_start(text, from),
        word_start(text, from) <= text.len() || word_start(text, from) == from,
        from <= text.len() ==> from <= word_start(text, from) <= text.len(),
        word_start(text, from) < text.len() ==> !is_whitespace(text[word_start(text, from)]),
        forall|i: int| from <= i < word_start(text, from) ==> is_whitespace(#[trigger] text[i]),
    decreases text.len() - from,
{
    if from < text.len() && is_whitespace(text[from]) {
        lemma_word_start(text, from + 1);
    }
}

/// What `word_end` returns lies between `from` and the end of the text, is
/// whitespace if it lies in the text, and no whitespace lies before it. It
/// lies beyond `from` if a word starts there.
pub proof fn lemma_word_end(text: Seq<char>, from: int)
    requires
        0 <= from,
    ensures
        from <= text.len() ==> from <= word_end(text, from) <= text.len(),
        word_end(text, from) < text.len() ==> is_whitespace(text[word_end(text, from)]),
        forall|i: int| from <= i < word_end(text, from) ==> !is_whitespace(#[trigger] text[i]),
        from < text.len() && !is_whitespace(text[from]) ==> from < word_end(text, from),
    decreases text.len() - from,
{
    if from < text.len() && !is_whitespace(text[from]) {
        lemma_word_end(text, from + 1);
    }
}

/// Every word holds at least one character and no whitespace.
pub proof fn lemma_words_hold_no_whitespace(text: Seq<char>, from: int)
    requires
        0 <= from,
    ensures
        forall|w: int|
            0 <= w < words_from(text, from).len() ==> (#[trigger] words_from(text, from)[w]).len()
                > 0,
        forall|w: int, i: int|
            0 <= w < words_from(text, from).len() && 0 <= i < words_from(text, from)[w].len()
                ==> !is_whitespace(#[trigger] words_from(text, from)[w][i]),
    decreases text.len() - from,
{
    let start = word_start(text, from);
    lemma_word_start(text, from);
    if start < text.len() {
        let end = word_end(text, start);
        lemma_word_end(text, start);
        lemma_words_hold_no_whitespace(text, end);
        let first = text.subrange(start, end);
        let rest = words_from(text, end);
        assert(words_from(text, from) == seq![first] + rest);
        assert forall|w: int| 0 <= w < words_from(text, from).len() implies (#[trigger] words_from(
            text,
            from,
        )[w]).len() > 0 by {
            if w > 0 {
                assert(words_from(text, from)[w] == rest[w - 1]);
            }
        }
        assert forall|w: int, i: int|
            0 <= w < words_from(text, from).len() && 0 <= i < words_from(text, from)[w].len()
            implies !is_whitespace(#[trigger] words_from(text, from)[w][i]) by {
            if w > 0 {
                assert(words_from(text, from)[w] == rest[w - 1]);
            } else {
                assert(first[i] == text[start + i]);
            }
        }
    }
}

/// The words of a command line, without its first character, the prompt.
pub open spec fn command_words(cmd_line: Seq<char>) -> Seq<Seq<char>> {
    words_from(cmd_line, 1)
}

/// A command line taken apart.
pub struct ParsedCommand<'a> {
    /// The first word, or the empty string if the line holds no word.
    pub name: &'a str,
    /// The words after the first.
    pub arguments: Vec<&'a str>,
}

impl<'a> ParsedCommand<'a> {
    /// The words after the first, as sequences of characters.
    pub open spec fn argument_views(&self) -> Seq<Seq<char>> {
        Seq::new(self.arguments@.len(), |i: int| self.arguments@[i]@)
    }

    /// Takes apart a command line that starts with a one-byte prompt
    /// character.
    pub fn parse(cmd_line: &'a str) -> (parsed: Self)
        requires
            cmd_line@.len() >= 1,
            cmd_line@[0] <= '\u{7f}',
        ensures
            command_words(cmd_line@).len() == 0 ==> parsed.name@.len() == 0
                && parsed.arguments@.len() == 0,
            command_words(cmd_line@).len() > 0 ==> parsed.name@ == command_words(cmd_line@)[0]
                && parsed.argument_views() == command_words(cmd_line@).subrange(
                1,
                command_words(cmd_line@).len() as int,
            ),
    {
        let length = cmd_line.unicode_len();
        let mut words: Vec<&'a str> = Vec::new();
        let mut index: usize = 1;
        let ghost text = cmd_line@;
        loop
            invariant
                1 <= index <= length,
                length == text.len(),
                text == cmd_line@,
                command_words(text) == Seq::new(words@.len(), |i: int| words@[i]@) + words_from(
                    text,
                    index as int,
                ),
            ensures
                command_words(text) == Seq::new(words@.len(), |i: int| words@[i]@),
            decreases length - index,
        {
            let ghost from = index;
            while index < length && whitespace(cmd_line.get_char(index))
                invariant
                    from <= index <= length,
                    length == text.len(),
                    text == cmd_line@,
                    word_start(text, from as int) == word_start(text, index as int),
                decreases length - index,
            {
                index += 1;
            }
            if index >= length {
                proof {
                    assert(words_from(text, from as int) =~= Seq::<Seq<char>>::empty());
                    assert(words_from(text, index as int) =~= Seq::<Seq<char>>::empty());
                    assert(command_words(text) =~= Seq::new(words@.len(), |i: int| words@[i]@));
                }
                break ;
            }
            let start = index;
            while index < length && !whitespace(cmd_line.get_char(index))
                invariant
                    start <= index <= length,
                    start < length,
                    length == text.len(),
                    text == cmd_line@,
                    !is_whitespace(text[start as int]),
                    word_end(text, start as int) == word_end(text, index as int),
                decreases length - index,
            {
                index += 1;
            }
            let word = cmd_line.substring_char(start, index);
            proof {
                let collected = Seq::new(words@.len(), |i: int| words@[i]@);
                assert(word_start(text, from as int) == start);
                assert(word_end(text, start as int) == index);
                assert(words_from(text, from as int) == seq![
                    text.subrange(start as int, index as int),
                ] + words_from(text, index as int));
                let extended = Seq::new(words@.push(word).len(), |i: int| words@.push(word)[i]@);
                assert(extended =~= collected + seq![word@]);
                assert(command_words(text) =~= extended + words_from(text, index as int));
            }
            words.push(word);
        }
        proof {
            assert(command_words(text) =~= Seq::new(words@.len(), |i: int| words@[i]@));
        }
        if words.len() == 0 {
            proof {
                reveal_strlit("");
            }
            ParsedCommand { name: "", arguments: words }
        } else {
            let ghost all = Seq::new(words@.len(), |i: int| words@[i]@);
            let name = words.remove(0);
            let parsed = ParsedCommand { name, arguments: words };
            proof {
                assert(parsed.argument_views() =~= all.subrange(1, all.len() as int));
            }
            parsed
        }
    }
}

/// What the main loop does with a command, by its name.
#[derive(Clone, Copy, Debug, PartialEq, Eq, Structural)]
pub enum ShellCommand {
    /// `echo`: print the arguments, a space after each.
    Echo,
    /// `reboot`: reset the CPU.
    Reboot,
    /// An empty line: do nothing.
    Empty,
    /// Any other name: say that the command is unknown.
    Unknown,
}

/// The command that `name` stands for.
pub open spec fn shell_command_of(name: Seq<char>) -> ShellCommand {
    if name == "echo"@ {
        ShellCommand::Echo
    } else if name == "reboot"@ {
        ShellCommand::Reboot
    } else if name == ""@ {
        ShellCommand::Empty
    } else {
        ShellCommand::Unknown
    }
}

impl ShellCommand {
    /// The command that `name` stands for.
    pub fn classify(name: &str) -> (command: Self)
        ensures
            command == shell_command_of(name@),
    {
        if same_text(name, "echo") {
            ShellCommand::Echo
        } else if same_text(name, "reboot") {
            ShellCommand::Reboot
        } else if same_text(name, "") {
            ShellCommand::Empty
        } else {
            ShellCommand::Unknown
        }
    }
}

} // verus!
