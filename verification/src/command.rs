//! The commands a line can name: the closed set of built-ins, a resolved
//! external program, or a name that resolves to nothing.

use vstd::prelude::*;
use crate::path::program_name;
use crate::path::program_name_of;

verus! {

/// The built-in operations of the shell.
#[derive(Debug, Clone, Copy, PartialEq, Eq, Structural)]
pub enum BuiltInName {
    Exit,
    Echo,
    Type,
    Pwd,
    Cd,
}

impl BuiltInName {
    /// The word that names this built-in on the command line.
    pub open spec fn text(self) -> Seq<char> {
        match self {
            BuiltInName::Exit => "exit"@,
            BuiltInName::Echo => "echo"@,
            BuiltInName::Type => "type"@,
            BuiltInName::Pwd => "pwd"@,
            BuiltInName::Cd => "cd"@,
        }
    }

    /// The built-in that `token` names, by exact, case-sensitive match.
    pub open spec fn named(token: Seq<char>) -> Option<BuiltInName> {
        if token == "exit"@ {
            Some(BuiltInName::Exit)
        } else if token == "echo"@ {
            Some(BuiltInName::Echo)
        } else if token == "type"@ {
            Some(BuiltInName::Type)
        } else if token == "pwd"@ {
            Some(BuiltInName::Pwd)
        } else if token == "cd"@ {
            Some(BuiltInName::Cd)
        } else {
            None
        }
    }

    /// The word that names this built-in.
    pub fn as_str(&self) -> (s: &'static str)
        ensures
            s@ == self.text(),
    {
        match self {
            BuiltInName::Exit => "exit",
            BuiltInName::Echo => "echo",
            BuiltInName::Type => "type",
            BuiltInName::Pwd => "pwd",
            BuiltInName::Cd => "cd",
        }
    }

    /// Looks `token` up among the built-in names.
    pub fn from_str(token: &str) -> (found: Option<BuiltInName>)
        ensures
            found == Self::named(token@),
    {
        if token.eq("exit") {
            Some(BuiltInName::Exit)
        } else if token.eq("echo") {
            Some(BuiltInName::Echo)
        } else if token.eq("type") {
            Some(BuiltInName::Type)
        } else if token.eq("pwd") {
            Some(BuiltInName::Pwd)
        } else if token.eq("cd") {
            Some(BuiltInName::Cd)
        } else {
            None
        }
    }

    /// Every built-in is found under its own name, and a token names a
    /// built-in only if it is that built-in's word: the five words are
    /// pairwise distinct.
    pub proof fn lemma_named_text(name: BuiltInName)
        ensures
            Self::named(name.text()) == Some(name),
            forall|token: Seq<char>| Self::named(token) == Some(name) <==> token == name.text(),
    {
        reveal_strlit("exit");
        reveal_strlit("echo");
        reveal_strlit("type");
        reveal_strlit("pwd");
        reveal_strlit("cd");
        assert("pwd"@.len() == 3 && "cd"@.len() == 2);
        assert("exit"@[1] == 'x' && "echo"@[1] == 'c' && "type"@[1] == 'y');
    }
}

/// A built-in, ready to run.
#[derive(Debug, Clone, Copy, PartialEq, Eq, Structural)]
pub struct BuiltInCommand {
    pub name: BuiltInName,
}

impl BuiltInCommand {
    /// The word that names the built-in, as an owned string.
    pub fn to_string(&self) -> (s: String)
        ensures
            s@ == self.name.text(),
    {
        self.name.as_str().to_owned()
    }
}

/// An external program, resolved to the file that holds it.
#[derive(Debug, Clone)]
pub struct ExecutableCommand {
    pub file_path: String,
}

impl ExecutableCommand {
    /// The name under which the program is invoked: the stem of its file
    /// path, or the empty string where the path has none.
    pub fn name(&self) -> (name: &str)
        ensures
            name@ == program_name(self.file_path@),
    {
        program_name_of(self.file_path.as_str())
    }

    /// The invocation name as an owned string.
    pub fn to_string(&self) -> (s: String)
        ensures
            s@ == program_name(self.file_path@),
    {
        self.name().to_owned()
    }
}

/// A classified word.
#[derive(Debug, Clone)]
pub enum Command {
    /// One of the shell's own operations.
    BuiltIn(BuiltInCommand),
    /// An external program found on the search path.
    Executable(ExecutableCommand),
    /// Neither; holds the word as it was typed.
    Unrecognized(String),
}

/// What a [`Command`] stands for.
pub enum CommandView {
    BuiltIn(BuiltInName),
    Executable(Seq<char>),
    Unrecognized(Seq<char>),
}

impl View for Command {
    type V = CommandView;

    open spec fn view(&self) -> CommandView {
        match self {
            Command::BuiltIn(b) => CommandView::BuiltIn(b.name),
            Command::Executable(e) => CommandView::Executable(e.file_path@),
            Command::Unrecognized(t) => CommandView::Unrecognized(t@),
        }
    }
}

} // verus!
