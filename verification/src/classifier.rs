//! The command classifier: built-in, external executable, or unrecognized.

use vstd::prelude::*;
use crate::command::BuiltInCommand;
use crate::command::BuiltInName;
use crate::command::Command;
use crate::command::CommandView;
use crate::command::ExecutableCommand;
use crate::locator::find;
use crate::locator::find_spec;
use crate::locator::lists;
use crate::locator::probe;
use crate::locator::unprobed;
use crate::locator::Candidate;
use crate::locator::CandidateView;

verus! {

/// The class of `token` against a listing of the search path: a built-in
/// name wins over everything on the path; otherwise the first matching
/// executable; otherwise the token itself, unrecognized.
pub open spec fn classify_spec(token: Seq<char>, candidates: Seq<CandidateView>) -> CommandView {
    match BuiltInName::named(token) {
        Some(name) => CommandView::BuiltIn(name),
        None => match find_spec(token, candidates) {
            Some(path) => CommandView::Executable(path),
            None => CommandView::Unrecognized(token),
        },
    }
}

/// The classes that `token` can fall into when the search path holds
/// `files`: one for each way the file system may answer the executable
/// test.
pub open spec fn may_classify(token: Seq<char>, files: Seq<Seq<char>>, class: CommandView) -> bool {
    exists|candidates: Seq<CandidateView>|
        lists(candidates, files) && class == #[trigger] classify_spec(token, candidates)
}

/// Classifies `token` against a listing of the search path.
pub fn classify(token: &str, candidates: &Vec<Candidate>) -> (command: Command)
    ensures
        command@ == classify_spec(token@, candidates.deep_view()),
{
    match BuiltInName::from_str(token) {
        Some(name) => Command::BuiltIn(BuiltInCommand { name }),
        None => match find(token, candidates) {
            Some(path) => Command::Executable(ExecutableCommand { file_path: path.to_owned() }),
            None => Command::Unrecognized(token.to_owned()),
        },
    }
}

/// Classifies `command` against the files of the search path, in the order
/// given. A built-in name is recognised without looking at the files;
/// otherwise each file is named by its stem and put to the executable test,
/// and the first that passes under the name `command` is the result.
pub fn parse_command(command: &str, path_files: &Vec<String>) -> (class: Command)
    ensures
        may_classify(command@, path_files.deep_view(), class@),
        BuiltInName::named(command@) matches Some(name) ==> class@ == CommandView::BuiltIn(name),
{
    match BuiltInName::from_str(command) {
        Some(name) => {
            assert(CommandView::BuiltIn(name) == classify_spec(
                command@,
                unprobed(path_files.deep_view()),
            ));
            Command::BuiltIn(BuiltInCommand { name })
        },
        None => {
            let candidates = probe(path_files);
            classify(command, &candidates)
        },
    }
}

/// A built-in's word is classified as that built-in, whatever the search
/// path holds.
pub proof fn lemma_builtin_precedence(name: BuiltInName, candidates: Seq<CandidateView>)
    ensures
        classify_spec(name.text(), candidates) == CommandView::BuiltIn(name),
{
    BuiltInName::lemma_named_text(name);
}

/// Classification is total and exclusive: every token falls into exactly
/// one class, and an executable class always carries the path of a listed,
/// executable entry that answers to the token.
pub proof fn lemma_classify_total(token: Seq<char>, candidates: Seq<CandidateView>)
    ensures
        match classify_spec(token, candidates) {
            CommandView::BuiltIn(name) => token == name.text(),
            CommandView::Executable(path) => {
                &&& BuiltInName::named(token) is None
                &&& exists|i: int|
                    0 <= i < candidates.len() && crate::locator::answers_to(
                        token,
                        #[trigger] candidates[i],
                    ) && candidates[i].path == path
            },
            CommandView::Unrecognized(text) => {
                &&& text == token
                &&& BuiltInName::named(token) is None
                &&& crate::locator::no_match(token, candidates)
            },
        },
{
    crate::locator::lemma_first_match(token, candidates);
    match BuiltInName::named(token) {
        Some(name) => {
            BuiltInName::lemma_named_text(name);
        },
        None => {},
    }
}

/// What every class has that `token` can fall into when the search path
/// holds `files`: a built-in is the one that `token` names; an executable
/// is one of `files`, goes by the name `token`, and `token` names no
/// built-in; an unrecognized word is `token` itself. Where `token` names no
/// built-in and none of `files` goes by its name, it is unrecognized.
pub proof fn lemma_may_classify(token: Seq<char>, files: Seq<Seq<char>>, class: CommandView)
    requires
        may_classify(token, files, class),
    ensures
        match class {
            CommandView::BuiltIn(name) => token == name.text(),
            CommandView::Executable(path) => {
                &&& BuiltInName::named(token) is None
                &&& exists|i: int|
                    0 <= i < files.len() && #[trigger] files[i] == path
                        && crate::path::program_name(path) == token
            },
            CommandView::Unrecognized(text) => text == token && BuiltInName::named(token) is None,
        },
        BuiltInName::named(token) is None && (forall|i: int|
            0 <= i < files.len() ==> crate::path::program_name(#[trigger] files[i]) != token)
            ==> class == CommandView::Unrecognized(token),
{
    let candidates = choose|candidates: Seq<CandidateView>|
        lists(candidates, files) && class == #[trigger] classify_spec(token, candidates);
    lemma_classify_total(token, candidates);
}

} // verus!
