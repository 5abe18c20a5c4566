//! The programs that the agent runs, and what they write.
use vstd::prelude::*;

use crate::text;

verus! {

/// A program and its arguments, to be run without a shell.
#[derive(Debug, PartialEq, Eq)]
pub struct ShellCommand {
    pub program: String,
    pub args: Vec<String>,
}

/// What a [`ShellCommand`] says.
#[verifier::ext_equal]
pub struct CommandLine {
    pub program: Seq<char>,
    pub args: Seq<Seq<char>>,
}

impl View for ShellCommand {
    type V = CommandLine;

    open spec fn view(&self) -> CommandLine {
        CommandLine { program: self.program@, args: text::texts(self.args@) }
    }
}

/// What an optional command says.
pub open spec fn command_line(command: Option<ShellCommand>) -> Option<CommandLine> {
    match command {
        Some(command) => Some(command@),
        None => None,
    }
}

impl ShellCommand {
    /// The program alone, without arguments.
    pub fn new(program: &str) -> (command: ShellCommand)
        ensures
            command@ == (CommandLine { program: program@, args: Seq::empty() }),
    {
        ShellCommand { program: program.to_string(), args: Vec::new() }
    }

    /// The same command with one more argument.
    pub fn arg(self, arg: &str) -> (command: ShellCommand)
        ensures
            command@ == (CommandLine { program: self@.program, args: self@.args.push(arg@) }),
    {
        let mut args = self.args;
        args.push(arg.to_string());
        assert(text::texts(args@) == self@.args.push(arg@));
        ShellCommand { program: self.program, args }
    }
}

/// The name of what [`String::from_utf8_lossy`] makes of `bytes`.
pub uninterp spec fn lossy_text(bytes: Seq<u8>) -> Seq<char>;

/// Calls [`String::from_utf8_lossy`]. Its result depends on the bytes alone and
/// is called `lossy_text`. Of bytes that are valid UTF-8 it is the text that
/// they encode; which replacement characters stand for invalid ones is left
/// unsaid.
#[verifier::external_body]
fn from_utf8_lossy(bytes: &[u8]) -> (text: String)
    ensures
        text@ == lossy_text(bytes@),
        vstd::utf8::valid_utf8(bytes@) ==> text@ == vstd::utf8::decode_utf8(bytes@),
{
    String::from_utf8_lossy(bytes).into_owned()
}

/// The text that `bytes` stand for: what they encode, where they are valid
/// UTF-8.
pub open spec fn text_in(bytes: Seq<u8>) -> Seq<char> {
    if vstd::utf8::valid_utf8(bytes) {
        vstd::utf8::decode_utf8(bytes)
    } else {
        lossy_text(bytes)
    }
}

/// The text that a program wrote, where it could be started.
pub open spec fn output_text(output: Option<&[u8]>) -> Option<Seq<char>> {
    match output {
        Some(bytes) => Some(text_in(bytes@)),
        None => None,
    }
}

/// The text behind an optional string.
pub open spec fn text_behind(text: Option<&str>) -> Option<Seq<char>> {
    match text {
        Some(text) => Some(text@),
        None => None,
    }
}

/// The text behind an optional owned string.
pub open spec fn owned_text(text: Option<String>) -> Option<Seq<char>> {
    match text {
        Some(text) => Some(text@),
        None => None,
    }
}

/// Reads the bytes that a program wrote as text.
pub fn read_output(output: Option<&[u8]>) -> (text: Option<String>)
    ensures
        owned_text(text) == output_text(output),
{
    match output {
        Some(bytes) => Some(from_utf8_lossy(bytes)),
        None => None,
    }
}

/// A program that writes text is understood: what it encodes in UTF-8 is read
/// back.
pub proof fn law_text_is_read_back(text: Seq<char>)
    ensures
        text_in(vstd::utf8::encode_utf8(text)) == text,
{
    vstd::utf8::encode_utf8_valid_utf8(text);
    vstd::utf8::encode_utf8_decode_utf8(text);
}

/// Borrows an optional string.
pub fn borrow_text(text: &Option<String>) -> (borrowed: Option<&str>)
    ensures
        text_behind(borrowed) == owned_text(*text),
{
    match text {
        Some(text) => Some(text.as_str()),
        None => None,
    }
}

/// A command says which program it runs, and with which arguments, one for one.
pub proof fn law_commands_say_what_they_run(command: ShellCommand)
    ensures
        command@.program == command.program@,
        command@.args.len() == command.args@.len(),
        forall|i: int|
            0 <= i < command.args@.len() ==> #[trigger] command@.args[i] == command.args@[i]@,
        command_line(Some(command)) == Some(command@),
        command_line(None) is None,
{
}

/// A text that is there is meant whole, borrowed or owned, and one that is not
/// there is not made up.
pub proof fn law_texts_are_whole(borrowed: &str, owned: String, bytes: &[u8])
    ensures
        text_behind(Some(borrowed)) == Some(borrowed@),
        text_behind(None) is None,
        owned_text(Some(owned)) == Some(owned@),
        owned_text(None) is None,
        output_text(Some(bytes)) == Some(text_in(bytes@)),
        output_text(None) is None,
{
}

} // verus!
