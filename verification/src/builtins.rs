//! The text that the built-ins and the dispatcher print. Every message ends
//! with a line terminator.

use vstd::prelude::*;
use crate::command::Command;
use crate::command::CommandView;
use crate::path::program_name;
use crate::words::is_word;
use crate::words::lemma_words_first;
use crate::words::lemma_words_push;
use crate::words::words;

verus! {

/// `args` rejoined with single spaces.
pub open spec fn joined(args: Seq<Seq<char>>) -> Seq<char>
    decreases args.len(),
{
    if args.len() == 0 {
        Seq::empty()
    } else if args.len() == 1 {
        args[0]
    } else {
        joined(args.drop_last()) + " "@ + args.last()
    }
}

/// Words rejoined with single spaces split into the same words again.
pub proof fn lemma_words_of_joined(args: Seq<Seq<char>>)
    requires
        forall|i: int| 0 <= i < args.len() ==> is_word(#[trigger] args[i]),
    ensures
        words(joined(args)) == args,
    decreases args.len(),
{
    if args.len() == 0 {
    } else if args.len() == 1 {
        lemma_words_first(args[0], Seq::empty());
    } else {
        let init = args.drop_last();
        lemma_words_of_joined(init);
        reveal_strlit(" ");
        assert(" "@ == seq![' ']);
        lemma_words_push(joined(init), ' ', args.last());
    }
}

/// What `echo` prints for `args`.
pub open spec fn echo_text(args: Seq<Seq<char>>) -> Seq<char> {
    joined(args) + "\n"@
}

/// What is printed for a word that names nothing.
pub open spec fn not_found_text(token: Seq<char>) -> Seq<char> {
    token + ": not found\n"@
}

/// What `type` prints for a classified word.
pub open spec fn describe_text(class: CommandView) -> Seq<char> {
    match class {
        CommandView::BuiltIn(name) => name.text() + " is a shell builtin\n"@,
        CommandView::Executable(path) => program_name(path) + " is "@ + path + "\n"@,
        CommandView::Unrecognized(token) => not_found_text(token),
    }
}

/// What a built-in prints when its required argument is missing.
pub open spec fn missing_operand_text(builtin: Seq<char>) -> Seq<char> {
    builtin + ": missing operand\n"@
}

/// What `cd` prints when `target` is no directory.
pub open spec fn no_such_directory_text(target: Seq<char>) -> Seq<char> {
    "cd: "@ + target + ": No such file or directory\n"@
}

/// What `pwd` prints for a working directory.
pub open spec fn pwd_text(working_directory: Seq<char>) -> Seq<char> {
    working_directory + "\n"@
}

/// The output of `echo`: the arguments rejoined with single spaces, then a
/// line terminator.
pub fn echo(args: &Vec<&str>) -> (text: String)
    ensures
        text@ == echo_text(args.deep_view()),
{
    let ghost all = args.deep_view();
    let mut text = String::new();
    let mut i: usize = 0;
    while i < args.len()
        invariant
            i <= args.len(),
            all == args.deep_view(),
            text@ == joined(all.take(i as int)),
        decreases args.len() - i,
    {
        if i > 0 {
            text.append(" ");
        }
        text.append(args[i]);
        assert(all.take(i + 1).drop_last() == all.take(i as int));
        i += 1;
    }
    assert(all.take(i as int) == all);
    text.append("\n");
    text
}

/// The message for a word that names nothing.
pub fn not_found(token: &str) -> (text: String)
    ensures
        text@ == not_found_text(token@),
{
    let mut text = token.to_owned();
    text.append(": not found\n");
    text
}

/// The output of `type` for a classified word: a built-in is reported as
/// such, an executable with the path it resolved to, anything else as not
/// found.
pub fn describe(class: &Command) -> (text: String)
    ensures
        text@ == describe_text(class@),
{
    match class {
        Command::BuiltIn(builtin) => {
            let mut text = builtin.to_string();
            text.append(" is a shell builtin\n");
            text
        },
        Command::Executable(executable) => {
            let mut text = executable.to_string();
            text.append(" is ");
            text.append(executable.file_path.as_str());
            text.append("\n");
            text
        },
        Command::Unrecognized(token) => not_found(token.as_str()),
    }
}

/// The diagnostic of a built-in that was given no argument.
pub fn missing_operand(builtin: &str) -> (text: String)
    ensures
        text@ == missing_operand_text(builtin@),
{
    let mut text = builtin.to_owned();
    text.append(": missing operand\n");
    text
}

/// The diagnostic of `cd` for a target that is no directory.
pub fn no_such_directory(target: &str) -> (text: String)
    ensures
        text@ == no_such_directory_text(target@),
{
    let mut text = "cd: ".to_owned();
    text.append(target);
    text.append(": No such file or directory\n");
    text
}

/// The output of `pwd` for a working directory.
pub fn pwd(working_directory: &str) -> (text: String)
    ensures
        text@ == pwd_text(working_directory@),
{
    let mut text = working_directory.to_owned();
    text.append("\n");
    text
}

} // verus!
