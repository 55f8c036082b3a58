//! What holds of the dispatcher as a whole, over all lines, listings and
//! answers of the file system.

use vstd::prelude::*;
use crate::builtins::joined;
use crate::builtins::lemma_words_of_joined;
use crate::builtins::no_such_directory_text;
use crate::builtins::not_found_text;
use crate::builtins::pwd_text;
use crate::classifier::lemma_builtin_precedence;
use crate::command::BuiltInName;
use crate::locator::find_spec;
use crate::locator::lemma_find_none;
use crate::locator::lemma_first_match;
use crate::locator::no_match;
use crate::locator::CandidateView;
use crate::path::path_is_absolute;
use crate::path::program_name;
use crate::shell::builtin_spec;
use crate::shell::needs_search_path_spec;
use crate::shell::resolve_spec;
use crate::shell::step_spec;
use crate::shell::ReactionView;
use crate::shell::ShellView;
use crate::words::is_word;
use crate::words::words;

verus! {

/// Whether every entry of `candidates` goes by the name that its path gives
/// it, as in every listing that the library takes itself.
pub open spec fn well_named(candidates: Seq<CandidateView>) -> bool {
    forall|i: int|
        0 <= i < candidates.len() ==> (#[trigger] candidates[i]).name == program_name(
            candidates[i].path,
        )
}

/// The five built-in names are words.
pub proof fn lemma_builtin_names_are_words(name: BuiltInName)
    ensures
        is_word(name.text()),
{
    reveal_strlit("exit");
    reveal_strlit("echo");
    reveal_strlit("type");
    reveal_strlit("pwd");
    reveal_strlit("cd");
}

/// A line whose first word is a built-in's name runs that built-in on the
/// words that follow, whatever the search path holds under the same name.
pub proof fn lemma_builtin_line(
    s: ShellView,
    line: Seq<char>,
    name: BuiltInName,
    candidates: Seq<CandidateView>,
    is_dir: bool,
)
    requires
        s.running,
        words(line).len() > 0,
        words(line)[0] == name.text(),
    ensures
        step_spec(s, line, candidates, is_dir) == builtin_spec(
            s,
            name,
            words(line).drop_first(),
            candidates,
            is_dir,
        ),
{
    lemma_builtin_precedence(name, candidates);
}

/// `echo` followed by any words prints those words, separated by single
/// spaces and followed by a line terminator, and changes nothing.
pub proof fn lemma_echo_line(
    s: ShellView,
    args: Seq<Seq<char>>,
    candidates: Seq<CandidateView>,
    is_dir: bool,
)
    requires
        s.running,
        forall|i: int| 0 <= i < args.len() ==> is_word(#[trigger] args[i]),
    ensures
        step_spec(s, joined(seq!["echo"@] + args), candidates, is_dir) == (
            s,
            ReactionView::Print(joined(args) + "\n"@),
        ),
{
    let all = seq!["echo"@] + args;
    lemma_builtin_names_are_words(BuiltInName::Echo);
    assert forall|i: int| 0 <= i < all.len() implies is_word(#[trigger] all[i]) by {
        if i > 0 {
            assert(all[i] == args[i - 1]);
        }
    }
    lemma_words_of_joined(all);
    assert(all.drop_first() == args);
    lemma_builtin_line(s, joined(all), BuiltInName::Echo, candidates, is_dir);
}

/// `cd` to a target that exists moves the working directory there, and
/// `pwd` prints the new one from then on. `cd` to any other target prints
/// the diagnostic with the argument as typed and moves nothing: `pwd`
/// prints what it printed before.
pub proof fn lemma_cd_then_pwd(
    s: ShellView,
    cd_line: Seq<char>,
    pwd_line: Seq<char>,
    candidates: Seq<CandidateView>,
    is_dir: bool,
    later_candidates: Seq<CandidateView>,
    later_is_dir: bool,
)
    requires
        s.running,
        words(cd_line).len() >= 2,
        words(cd_line)[0] == "cd"@,
        words(pwd_line).len() >= 1,
        words(pwd_line)[0] == "pwd"@,
    ensures
        ({
            let arg = words(cd_line)[1];
            let target = resolve_spec(s.working_directory, arg);
            let (moved, reaction) = step_spec(s, cd_line, candidates, is_dir);
            let printed = step_spec(moved, pwd_line, later_candidates, later_is_dir);
            if is_dir && path_is_absolute(target) {
                &&& moved == ShellView { working_directory: target, running: true }
                &&& reaction == ReactionView::ChangeDirectory(target)
                &&& printed == (moved, ReactionView::Print(pwd_text(target)))
            } else {
                &&& moved == s
                &&& reaction == ReactionView::Print(no_such_directory_text(arg))
                &&& printed == (s, ReactionView::Print(pwd_text(s.working_directory)))
            }
        }),
{
    lemma_builtin_line(s, cd_line, BuiltInName::Cd, candidates, is_dir);
    let moved = step_spec(s, cd_line, candidates, is_dir).0;
    lemma_builtin_line(moved, pwd_line, BuiltInName::Pwd, later_candidates, later_is_dir);
}

/// `exit` ends the session: the shell is terminated and the caller is told
/// to stop, without any output.
pub proof fn lemma_exit_terminates(
    s: ShellView,
    line: Seq<char>,
    candidates: Seq<CandidateView>,
    is_dir: bool,
)
    requires
        s.running,
        words(line).len() > 0,
        words(line)[0] == "exit"@,
    ensures
        step_spec(s, line, candidates, is_dir) == (
            ShellView { working_directory: s.working_directory, running: false },
            ReactionView::Exit,
        ),
{
    lemma_builtin_line(s, line, BuiltInName::Exit, candidates, is_dir);
}

/// A terminated shell stays terminated: whatever line it is given, it
/// changes nothing, prints nothing and tells the caller to stop.
pub proof fn lemma_terminated_is_final(
    s: ShellView,
    line: Seq<char>,
    candidates: Seq<CandidateView>,
    is_dir: bool,
)
    requires
        !s.running,
    ensures
        step_spec(s, line, candidates, is_dir) == (s, ReactionView::Exit),
{
}

/// Only `exit` ends the session: a running shell is terminated by a step
/// exactly when the line's first word is `exit`, and the caller is told to
/// stop exactly then.
pub proof fn lemma_only_exit_terminates(
    s: ShellView,
    line: Seq<char>,
    candidates: Seq<CandidateView>,
    is_dir: bool,
)
    requires
        s.running,
    ensures
        !step_spec(s, line, candidates, is_dir).0.running <==> (words(line).len() > 0 && words(
            line,
        )[0] == "exit"@),
        step_spec(s, line, candidates, is_dir).1 is Exit <==> (words(line).len() > 0 && words(
            line,
        )[0] == "exit"@),
{
    if words(line).len() > 0 {
        let token = words(line)[0];
        match BuiltInName::named(token) {
            Some(name) => {
                BuiltInName::lemma_named_text(name);
                BuiltInName::lemma_named_text(BuiltInName::Exit);
            },
            None => {
                BuiltInName::lemma_named_text(BuiltInName::Exit);
            },
        }
    }
}

/// Only `cd` moves the working directory, and it stays an absolute path
/// through every step.
pub proof fn lemma_working_directory(
    s: ShellView,
    line: Seq<char>,
    candidates: Seq<CandidateView>,
    is_dir: bool,
)
    requires
        path_is_absolute(s.working_directory),
    ensures
        path_is_absolute(step_spec(s, line, candidates, is_dir).0.working_directory),
        step_spec(s, line, candidates, is_dir).0.working_directory != s.working_directory ==> {
            &&& s.running
            &&& is_dir
            &&& words(line).len() >= 2
            &&& words(line)[0] == "cd"@
        },
{
    if s.running && words(line).len() > 0 {
        let token = words(line)[0];
        match BuiltInName::named(token) {
            Some(name) => {
                BuiltInName::lemma_named_text(name);
                BuiltInName::lemma_named_text(BuiltInName::Cd);
            },
            None => {},
        }
    }
}

/// `type` looks its argument up afresh each time. While the search path
/// holds an executable under `name`, `type name` reports the path it
/// resolves to; once no entry answers to `name` any more, the same line
/// reports it as not found, whatever was reported before.
pub proof fn lemma_type_is_not_cached(
    s: ShellView,
    line: Seq<char>,
    name: Seq<char>,
    path: Seq<char>,
    before: Seq<CandidateView>,
    after: Seq<CandidateView>,
    is_dir: bool,
    later_is_dir: bool,
)
    requires
        s.running,
        words(line) == seq!["type"@, name],
        BuiltInName::named(name) is None,
        well_named(before),
        find_spec(name, before) == Some(path),
        no_match(name, after),
    ensures
        step_spec(s, line, before, is_dir) == (
            s,
            ReactionView::Print(name + " is "@ + path + "\n"@),
        ),
        step_spec(step_spec(s, line, before, is_dir).0, line, after, later_is_dir) == (
            s,
            ReactionView::Print(not_found_text(name)),
        ),
{
    lemma_builtin_line(s, line, BuiltInName::Type, before, is_dir);
    lemma_builtin_line(s, line, BuiltInName::Type, after, later_is_dir);
    lemma_first_match(name, before);
    lemma_find_none(name, after);
}

/// A line that does not need the search path has the same outcome under
/// every listing of it.
pub proof fn lemma_search_path_not_needed(
    s: ShellView,
    line: Seq<char>,
    candidates: Seq<CandidateView>,
    other: Seq<CandidateView>,
    is_dir: bool,
)
    requires
        !needs_search_path_spec(line),
    ensures
        step_spec(s, line, candidates, is_dir) == step_spec(s, line, other, is_dir),
{
    if s.running && words(line).len() > 0 {
        let w = words(line);
        let name = BuiltInName::named(w[0])->0;
        if name == BuiltInName::Type && w.len() > 1 {
        }
    }
}

} // verus!
