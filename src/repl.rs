//! The interactive shell's configuration and the pure parts of its input
//! handling. Reading lines and running code happen outside the library.

use vstd::prelude::*;
use vstd::string::*;

use crate::runtime::RuntimeError;
use crate::text::{equals, owned, slice_chars, views};

verus! {

/// Errors that can occur during REPL operations.
#[derive(Debug, Clone)]
pub enum ReplError {
    /// Script runtime error.
    Runtime(RuntimeError),
    /// Input reading or parsing error.
    Input(String),
    /// Empty input provided (no code to execute).
    EmptyInput,
}

/// REPL editor configuration.
#[derive(Debug, Clone)]
pub struct ReplConfig {
    /// Prompt string.
    pub prompt: String,
    /// Continuation prompt for multi-line input.
    pub continuation_prompt: String,
    /// Whether to enable syntax highlighting.
    pub highlight: bool,
    /// Whether to show result values.
    pub show_result: bool,
    /// History file path.
    pub history_file: Option<String>,
    /// Maximum history size.
    pub history_size: usize,
}

impl Default for ReplConfig {
    fn default() -> (r: Self)
        ensures
            r.prompt@ == "> "@,
            r.continuation_prompt@ == "... "@,
            r.highlight,
            r.show_result,
            r.history_file is None,
            r.history_size == 1000,
    {
        ReplConfig {
            prompt: owned("> "),
            continuation_prompt: owned("... "),
            highlight: true,
            show_result: true,
            history_file: None,
            history_size: 1000,
        }
    }
}

/// One entry of the REPL history.
#[derive(Debug, Clone)]
pub struct HistoryEntry {
    /// The code entered.
    pub input: String,
    /// The value it produced.
    pub output: Option<String>,
    /// When it ran, as a Unix timestamp.
    pub timestamp: u64,
}

/// How many times `c` occurs in `s`.
pub open spec fn count_of(s: Seq<char>, c: char) -> nat
    decreases s.len(),
{
    if s.len() == 0 {
        0
    } else {
        count_of(s.drop_last(), c) + if s.last() == c {
            1nat
        } else {
            0nat
        }
    }
}

/// Input is complete when its braces, parentheses and brackets are each
/// balanced in number (order is not checked).
pub open spec fn complete_input(s: Seq<char>) -> bool {
    &&& count_of(s, '{') == count_of(s, '}')
    &&& count_of(s, '(') == count_of(s, ')')
    &&& count_of(s, '[') == count_of(s, ']')
}

/// Whether the input is complete enough to run: each kind of bracket is
/// closed as often as it is opened.
pub fn is_complete_input(input: &str) -> (r: bool)
    ensures
        r == complete_input(input@),
{
    let n = input.unicode_len();
    let mut open_brace: usize = 0;
    let mut close_brace: usize = 0;
    let mut open_paren: usize = 0;
    let mut close_paren: usize = 0;
    let mut open_bracket: usize = 0;
    let mut close_bracket: usize = 0;
    let mut i: usize = 0;
    while i < n
        invariant
            n == input@.len(),
            i <= n,
            open_brace == count_of(input@.take(i as int), '{'),
            close_brace == count_of(input@.take(i as int), '}'),
            open_paren == count_of(input@.take(i as int), '('),
            close_paren == count_of(input@.take(i as int), ')'),
            open_bracket == count_of(input@.take(i as int), '['),
            close_bracket == count_of(input@.take(i as int), ']'),
            open_brace <= i && close_brace <= i && open_paren <= i,
            close_paren <= i && open_bracket <= i && close_bracket <= i,
        decreases n - i,
    {
        assert(input@.take(i + 1).drop_last() =~= input@.take(i as int));
        let c = input.get_char(i);
        if c == '{' {
            open_brace = open_brace + 1;
        } else if c == '}' {
            close_brace = close_brace + 1;
        } else if c == '(' {
            open_paren = open_paren + 1;
        } else if c == ')' {
            close_paren = close_paren + 1;
        } else if c == '[' {
            open_bracket = open_bracket + 1;
        } else if c == ']' {
            close_bracket = close_bracket + 1;
        }
        i = i + 1;
    }
    assert(input@.take(n as int) =~= input@);
    open_brace == close_brace && open_paren == close_paren && open_bracket == close_bracket
}

/// Whether `c` is white space in the sense of `char::is_whitespace` (the
/// Unicode `White_Space` property).
pub open spec fn is_white(c: char) -> bool {
    let u = c as u32;
    (0x9 <= u <= 0xd) || u == 0x20 || u == 0x85 || u == 0xa0 || u == 0x1680 || (0x2000 <= u
        <= 0x200a) || u == 0x2028 || u == 0x2029 || u == 0x202f || u == 0x205f || u == 0x3000
}

/// Whether `c` is white space.
pub fn is_white_char(c: char) -> (r: bool)
    ensures
        r == is_white(c),
{
    let u = c as u32;
    (0x9 <= u && u <= 0xd) || u == 0x20 || u == 0x85 || u == 0xa0 || u == 0x1680 || (0x2000 <= u
        && u <= 0x200a) || u == 0x2028 || u == 0x2029 || u == 0x202f || u == 0x205f || u == 0x3000
}

/// Word-splitting state after reading `s`: the finished words and the word
/// being read.
pub open spec fn word_state(s: Seq<char>) -> (Seq<Seq<char>>, Seq<char>)
    decreases s.len(),
{
    if s.len() == 0 {
        (Seq::empty(), Seq::empty())
    } else {
        let (done, cur) = word_state(s.drop_last());
        if is_white(s.last()) {
            (if cur.len() > 0 { done.push(cur) } else { done }, Seq::empty())
        } else {
            (done, cur.push(s.last()))
        }
    }
}

/// The words of `s`: its maximal runs of non-white-space characters.
pub open spec fn words(s: Seq<char>) -> Seq<Seq<char>> {
    let (done, cur) = word_state(s);
    if cur.len() > 0 {
        done.push(cur)
    } else {
        done
    }
}

/// Splits text into its white-space separated words.
pub fn split_words(s: &str) -> (r: Vec<String>)
    ensures
        views(r@) == words(s@),
{
    let n = s.unicode_len();
    let mut done: Vec<String> = Vec::new();
    let mut start: usize = 0;
    let mut i: usize = 0;
    while i < n
        invariant
            n == s@.len(),
            start <= i <= n,
            views(done@) == word_state(s@.subrange(0, i as int)).0,
            s@.subrange(start as int, i as int) == word_state(s@.subrange(0, i as int)).1,
        decreases n - i,
    {
        let ghost prev = s@.subrange(0, i as int);
        assert(s@.subrange(0, i + 1).drop_last() =~= prev);
        let c = s.get_char(i);
        if is_white_char(c) {
            if start < i {
                let piece = slice_chars(s, start, i);
                done.push(piece);
                assert(views(done@) =~= views(done@).drop_last().push(piece@));
                assert(views(done@).drop_last() =~= word_state(prev).0);
            }
            start = i + 1;
            assert(s@.subrange(start as int, i + 1) =~= Seq::<char>::empty());
        } else {
            assert(s@.subrange(start as int, i + 1) =~= s@.subrange(start as int, i as int).push(c));
        }
        i = i + 1;
    }
    assert(s@.subrange(0, n as int) =~= s@);
    if start < n {
        let piece = slice_chars(s, start, n);
        done.push(piece);
        assert(views(done@) =~= views(done@).drop_last().push(piece@));
    }
    done
}

/// A special REPL command (input whose first word begins with `.`).
#[derive(Debug, Clone)]
pub enum ReplCommand {
    /// `.exit` or `.quit`: leave the REPL.
    Exit,
    /// `.help`: show the commands.
    Help,
    /// `.clear`: clear the screen.
    Clear,
    /// `.history`: show the history.
    History,
    /// `.version`: show the version.
    Version,
    /// `.load <file>`: run a file (`None` when the file is missing).
    Load(Option<String>),
    /// `.save <file>`: save the history (`None` when the file is missing).
    Save(Option<String>),
    /// `.reset`: clear the pending input.
    Reset,
    /// `.permissions`: show the permissions.
    Permissions,
    /// Any other word after the dot.
    Unknown(String),
}

/// The view of an optional string.
pub open spec fn opt_string_view(o: Option<String>) -> Option<Seq<char>> {
    match o {
        Some(s) => Some(s@),
        None => None,
    }
}

/// Whether `c` is the command named `name` (the first word without its
/// dot), with `arg` the second word if any.
pub open spec fn command_is(c: ReplCommand, name: Seq<char>, arg: Option<Seq<char>>) -> bool {
    if name == "exit"@ || name == "quit"@ {
        c is Exit
    } else if name == "help"@ {
        c is Help
    } else if name == "clear"@ {
        c is Clear
    } else if name == "history"@ {
        c is History
    } else if name == "version"@ {
        c is Version
    } else if name == "load"@ {
        c matches ReplCommand::Load(a) && opt_string_view(a) == arg
    } else if name == "save"@ {
        c matches ReplCommand::Save(a) && opt_string_view(a) == arg
    } else if name == "reset"@ {
        c is Reset
    } else if name == "permissions"@ {
        c is Permissions
    } else {
        c matches ReplCommand::Unknown(n) && n@ == name
    }
}

/// Recognize a special REPL command: `None` when the input's first word
/// does not begin with `.` (the input is code to run).
pub fn parse_command(input: &str) -> (r: Option<ReplCommand>)
    ensures
        ({
            let ws = words(input@);
            if ws.len() > 0 && ws[0][0] == '.' {
                r matches Some(c) && command_is(
                    c,
                    ws[0].skip(1),
                    if ws.len() > 1 {
                        Some(ws[1])
                    } else {
                        None
                    },
                )
            } else {
                r is None
            }
        }),
{
    let ws = split_words(input);
    if ws.len() == 0 {
        return None;
    }
    let first = ws[0].as_str();
    assert(first@ == words(input@)[0]);
    assert(first@.len() > 0) by {
        lemma_words_nonempty(input@);
    }
    if first.get_char(0) != '.' {
        return None;
    }
    let name = slice_chars(first, 1, first.unicode_len());
    assert(name@ =~= first@.skip(1));
    let n = name.as_str();
    let arg = if ws.len() > 1 {
        Some(ws[1].clone())
    } else {
        None
    };
    assert(opt_string_view(arg) == if ws@.len() > 1 {
        Some(words(input@)[1])
    } else {
        None::<Seq<char>>
    });
    let c = if equals(n, "exit") || equals(n, "quit") {
        ReplCommand::Exit
    } else if equals(n, "help") {
        ReplCommand::Help
    } else if equals(n, "clear") {
        ReplCommand::Clear
    } else if equals(n, "history") {
        ReplCommand::History
    } else if equals(n, "version") {
        ReplCommand::Version
    } else if equals(n, "load") {
        ReplCommand::Load(arg)
    } else if equals(n, "save") {
        ReplCommand::Save(arg)
    } else if equals(n, "reset") {
        ReplCommand::Reset
    } else if equals(n, "permissions") {
        ReplCommand::Permissions
    } else {
        ReplCommand::Unknown(name)
    };
    Some(c)
}

proof fn lemma_word_state_nonempty(s: Seq<char>)
    ensures
        forall|i: int| 0 <= i < word_state(s).0.len() ==> (#[trigger] word_state(s).0[i]).len() > 0,
    decreases s.len(),
{
    if s.len() > 0 {
        lemma_word_state_nonempty(s.drop_last());
        let (done, cur) = word_state(s.drop_last());
        if is_white(s.last()) && cur.len() > 0 {
            assert forall|i: int| 0 <= i < done.push(cur).len() implies (#[trigger] done.push(
                cur,
            )[i]).len() > 0 by {
                if i < done.len() {
                    assert(done.push(cur)[i] == done[i]);
                }
            }
        }
    }
}

proof fn lemma_words_nonempty(s: Seq<char>)
    ensures
        forall|i: int| 0 <= i < words(s).len() ==> (#[trigger] words(s)[i]).len() > 0,
{
    lemma_word_state_nonempty(s);
}

} // verus!
