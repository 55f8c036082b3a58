//! The shell state and the dispatcher: one step takes one input line and
//! answers with the effect that the caller is to carry out.

use vstd::prelude::*;
use crate::builtins::describe;
use crate::builtins::describe_text;
use crate::builtins::echo;
use crate::builtins::echo_text;
use crate::builtins::missing_operand;
use crate::builtins::missing_operand_text;
use crate::builtins::no_such_directory;
use crate::builtins::no_such_directory_text;
use crate::builtins::not_found;
use crate::builtins::not_found_text;
use crate::builtins::pwd;
use crate::builtins::pwd_text;
use crate::classifier::classify_spec;
use crate::classifier::parse_command;
use crate::command::BuiltInName;
use crate::command::Command;
use crate::command::CommandView;
use crate::locator::lists;
use crate::locator::unprobed;
use crate::locator::CandidateView;
use crate::path::is_absolute;
use crate::path::is_dir;
use crate::path::join;
use crate::path::path_is_absolute;
use crate::path::path_join;
use crate::words::split_words;
use crate::words::words;

verus! {

/// What the caller is to do after a step.
#[derive(Debug, Clone)]
pub enum Reaction {
    /// Nothing: the line was blank.
    Idle,
    /// Write this text to the output.
    Print(String),
    /// Make this directory the working directory of the process; the shell
    /// state already names it.
    ChangeDirectory(String),
    /// Run the program at `program` with `args`, wait for it, and relay what
    /// it wrote.
    Spawn { program: String, args: Vec<String> },
    /// Stop reading input.
    Exit,
}

/// What a [`Reaction`] stands for.
pub enum ReactionView {
    Idle,
    Print(Seq<char>),
    ChangeDirectory(Seq<char>),
    Spawn { program: Seq<char>, args: Seq<Seq<char>> },
    Exit,
}

impl View for Reaction {
    type V = ReactionView;

    open spec fn view(&self) -> ReactionView {
        match self {
            Reaction::Idle => ReactionView::Idle,
            Reaction::Print(text) => ReactionView::Print(text@),
            Reaction::ChangeDirectory(target) => ReactionView::ChangeDirectory(target@),
            Reaction::Spawn { program, args } => ReactionView::Spawn {
                program: program@,
                args: args.deep_view(),
            },
            Reaction::Exit => ReactionView::Exit,
        }
    }
}

/// The state of a session, as contracts see it.
pub struct ShellView {
    /// The working directory, an absolute path.
    pub working_directory: Seq<char>,
    /// Whether the dispatch loop is still running.
    pub running: bool,
}

/// The state of a session: the working directory, and whether `exit` has
/// been run.
#[derive(Debug)]
pub struct Shell {
    working_directory: String,
    running: bool,
}

impl View for Shell {
    type V = ShellView;

    closed spec fn view(&self) -> ShellView {
        ShellView { working_directory: self.working_directory@, running: self.running }
    }
}

/// The directory that `cd` makes for when given `arg` in `working_directory`:
/// an absolute `arg` stands for itself, any other is adjoined to the working
/// directory.
pub open spec fn resolve_spec(working_directory: Seq<char>, arg: Seq<char>) -> Seq<char> {
    if path_is_absolute(arg) {
        arg
    } else {
        path_join(working_directory, arg)
    }
}

/// The outcome of `cd arg` once `arg` has been resolved to `target` and the
/// file system has said whether `target` is a directory.
pub open spec fn enter_spec(s: ShellView, arg: Seq<char>, target: Seq<char>, is_dir: bool) -> (
    ShellView,
    ReactionView,
) {
    if is_dir && path_is_absolute(target) {
        (
            ShellView { working_directory: target, running: s.running },
            ReactionView::ChangeDirectory(target),
        )
    } else {
        (s, ReactionView::Print(no_such_directory_text(arg)))
    }
}

/// The outcome of the built-in `name` on `args`, against a listing of the
/// search path (read by `type`) and the file system's answer on the target
/// directory (read by `cd`).
pub open spec fn builtin_spec(
    s: ShellView,
    name: BuiltInName,
    args: Seq<Seq<char>>,
    candidates: Seq<CandidateView>,
    is_dir: bool,
) -> (ShellView, ReactionView) {
    match name {
        BuiltInName::Exit => (
            ShellView { working_directory: s.working_directory, running: false },
            ReactionView::Exit,
        ),
        BuiltInName::Echo => (s, ReactionView::Print(echo_text(args))),
        BuiltInName::Type => if args.len() == 0 {
            (s, ReactionView::Print(missing_operand_text("type"@)))
        } else {
            (s, ReactionView::Print(describe_text(classify_spec(args[0], candidates))))
        },
        BuiltInName::Pwd => (s, ReactionView::Print(pwd_text(s.working_directory))),
        BuiltInName::Cd => if args.len() == 0 {
            (s, ReactionView::Print(missing_operand_text("cd"@)))
        } else {
            enter_spec(s, args[0], resolve_spec(s.working_directory, args[0]), is_dir)
        },
    }
}

/// The outcome of running a classified command on `args`.
pub open spec fn run_spec(
    s: ShellView,
    class: CommandView,
    args: Seq<Seq<char>>,
    candidates: Seq<CandidateView>,
    is_dir: bool,
) -> (ShellView, ReactionView) {
    match class {
        CommandView::BuiltIn(name) => builtin_spec(s, name, args, candidates, is_dir),
        CommandView::Executable(path) => (s, ReactionView::Spawn { program: path, args }),
        CommandView::Unrecognized(token) => (s, ReactionView::Print(not_found_text(token))),
    }
}

/// The outcome of one input line. A terminated shell stays terminated and
/// reads nothing; a blank line does nothing; otherwise the first word is
/// classified and run on the words that follow it.
pub open spec fn step_spec(
    s: ShellView,
    line: Seq<char>,
    candidates: Seq<CandidateView>,
    is_dir: bool,
) -> (ShellView, ReactionView) {
    if !s.running {
        (s, ReactionView::Exit)
    } else if words(line).len() == 0 {
        (s, ReactionView::Idle)
    } else {
        run_spec(
            s,
            classify_spec(words(line)[0], candidates),
            words(line).drop_first(),
            candidates,
            is_dir,
        )
    }
}

/// The outcomes that running `class` on `args` can have when the search
/// path holds `files`: one for each way the file system may answer.
pub open spec fn may_run(
    s: ShellView,
    class: CommandView,
    args: Seq<Seq<char>>,
    files: Seq<Seq<char>>,
    outcome: (ShellView, ReactionView),
) -> bool {
    exists|candidates: Seq<CandidateView>, is_dir: bool|
        lists(candidates, files) && outcome == #[trigger] run_spec(
            s,
            class,
            args,
            candidates,
            is_dir,
        )
}

/// The outcomes that `line` can have when the search path holds `files`:
/// one for each way the file system may answer.
pub open spec fn may_step(
    s: ShellView,
    line: Seq<char>,
    files: Seq<Seq<char>>,
    outcome: (ShellView, ReactionView),
) -> bool {
    exists|candidates: Seq<CandidateView>, is_dir: bool|
        lists(candidates, files) && outcome == #[trigger] step_spec(s, line, candidates, is_dir)
}

/// Whether the outcome of `line` depends on the search path: its first word
/// is no built-in, or it is `type` and its argument is no built-in.
pub open spec fn needs_search_path_spec(line: Seq<char>) -> bool {
    let w = words(line);
    w.len() > 0 && match BuiltInName::named(w[0]) {
        None => true,
        Some(BuiltInName::Type) => w.len() > 1 && BuiltInName::named(w[1]) is None,
        Some(_) => false,
    }
}

/// Copies borrowed words into owned strings.
pub fn to_owned_words(args: &Vec<&str>) -> (owned: Vec<String>)
    ensures
        owned.deep_view() == args.deep_view(),
{
    let mut owned: Vec<String> = Vec::new();
    let mut i: usize = 0;
    while i < args.len()
        invariant
            i <= args.len(),
            owned.len() == i,
            forall|k: int| 0 <= k < i ==> (#[trigger] owned[k])@ == args[k]@,
        decreases args.len() - i,
    {
        owned.push(args[i].to_owned());
        i += 1;
    }
    owned
}

impl Shell {
    #[verifier::type_invariant]
    spec fn absolute(self) -> bool {
        path_is_absolute(self.working_directory@)
    }

    /// A running shell in `working_directory`, which has to be an absolute
    /// path.
    pub fn new(working_directory: String) -> (shell: Option<Shell>)
        ensures
            shell is Some <==> path_is_absolute(working_directory@),
            shell matches Some(s) ==> s@ == (ShellView {
                working_directory: working_directory@,
                running: true,
            }),
    {
        if is_absolute(working_directory.as_str()) {
            Some(Shell { working_directory, running: true })
        } else {
            None
        }
    }

    /// The working directory, an absolute path.
    pub fn working_directory(&self) -> (path: &str)
        ensures
            path@ == self@.working_directory,
            path_is_absolute(path@),
    {
        proof {
            use_type_invariant(self);
        }
        self.working_directory.as_str()
    }

    /// Whether the dispatch loop is to go on: `exit` has not been run.
    pub fn is_running(&self) -> (running: bool)
        ensures
            running == self@.running,
    {
        self.running
    }

    /// The directory that `cd arg` makes for.
    pub fn resolve(&self, arg: &str) -> (target: String)
        ensures
            target@ == resolve_spec(self@.working_directory, arg@),
    {
        if is_absolute(arg) {
            arg.to_owned()
        } else {
            join(self.working_directory.as_str(), arg)
        }
    }

    /// Completes `cd arg`, given the directory `target` that `arg` resolved
    /// to and the file system's answer `is_dir` on it. The working directory
    /// becomes `target` where that is an absolute path to a directory, and
    /// the caller is told to follow; otherwise the state is left as it was
    /// and a diagnostic that names `arg` is printed.
    pub fn enter(&mut self, arg: &str, target: String, is_dir: bool) -> (reaction: Reaction)
        ensures
            (final(self)@, reaction@) == enter_spec(old(self)@, arg@, target@, is_dir),
    {
        if is_dir && is_absolute(target.as_str()) {
            self.working_directory = target.clone();
            Reaction::ChangeDirectory(target)
        } else {
            Reaction::Print(no_such_directory(arg))
        }
    }

    /// Runs the built-in `name` on `args`. `type` classifies its argument
    /// against `path_files`, and `cd` asks the file system about its target:
    /// the outcome is the one that [`builtin_spec`] gives for those answers.
    pub fn run_builtin(
        &mut self,
        name: BuiltInName,
        args: &Vec<&str>,
        path_files: &Vec<String>,
    ) -> (reaction: Reaction)
        ensures
            may_run(
                old(self)@,
                CommandView::BuiltIn(name),
                args.deep_view(),
                path_files.deep_view(),
                (final(self)@, reaction@),
            ),
            name != BuiltInName::Cd ==> final(self)@.working_directory == old(
                self,
            )@.working_directory,
            final(self)@.running == (old(self)@.running && name != BuiltInName::Exit),
    {
        let ghost s = self@;
        let ghost files = path_files.deep_view();
        let ghost plain = unprobed(files);
        match name {
            BuiltInName::Exit => {
                proof {
                    use_type_invariant(&*self);
                }
                self.running = false;
                assert((self@, ReactionView::Exit) == run_spec(
                    s,
                    CommandView::BuiltIn(name),
                    args.deep_view(),
                    plain,
                    false,
                ));
                Reaction::Exit
            },
            BuiltInName::Echo => {
                let reaction = Reaction::Print(echo(args));
                assert((self@, reaction@) == run_spec(
                    s,
                    CommandView::BuiltIn(name),
                    args.deep_view(),
                    plain,
                    false,
                ));
                reaction
            },
            BuiltInName::Type => {
                if args.len() == 0 {
                    let reaction = Reaction::Print(missing_operand("type"));
                    assert((self@, reaction@) == run_spec(
                        s,
                        CommandView::BuiltIn(name),
                        args.deep_view(),
                        plain,
                        false,
                    ));
                    reaction
                } else {
                    let class = parse_command(args[0], path_files);
                    let reaction = Reaction::Print(describe(&class));
                    proof {
                        let seen = choose|candidates: Seq<CandidateView>|
                            lists(candidates, files) && class@ == #[trigger] classify_spec(
                                args[0]@,
                                candidates,
                            );
                        assert((self@, reaction@) == run_spec(
                            s,
                            CommandView::BuiltIn(name),
                            args.deep_view(),
                            seen,
                            false,
                        ));
                    }
                    reaction
                }
            },
            BuiltInName::Pwd => {
                let reaction = Reaction::Print(pwd(self.working_directory.as_str()));
                assert((self@, reaction@) == run_spec(
                    s,
                    CommandView::BuiltIn(name),
                    args.deep_view(),
                    plain,
                    false,
                ));
                reaction
            },
            BuiltInName::Cd => {
                if args.len() == 0 {
                    let reaction = Reaction::Print(missing_operand("cd"));
                    assert((self@, reaction@) == run_spec(
                        s,
                        CommandView::BuiltIn(name),
                        args.deep_view(),
                        plain,
                        false,
                    ));
                    reaction
                } else {
                    let target = self.resolve(args[0]);
                    let found = is_dir(target.as_str());
                    let reaction = self.enter(args[0], target, found);
                    assert((self@, reaction@) == run_spec(
                        s,
                        CommandView::BuiltIn(name),
                        args.deep_view(),
                        plain,
                        found,
                    ));
                    reaction
                }
            },
        }
    }

    /// Runs a classified command on `args`: a built-in through
    /// [`Shell::run_builtin`]; an executable by asking the caller to spawn
    /// the file it resolved to, with `args` as they are; an unrecognized
    /// word by reporting it as not found.
    pub fn run(
        &mut self,
        class: Command,
        args: &Vec<&str>,
        path_files: &Vec<String>,
    ) -> (reaction: Reaction)
        ensures
            may_run(
                old(self)@,
                class@,
                args.deep_view(),
                path_files.deep_view(),
                (final(self)@, reaction@),
            ),
    {
        let ghost s = self@;
        let ghost files = path_files.deep_view();
        let ghost plain = unprobed(files);
        match class {
            Command::BuiltIn(builtin) => self.run_builtin(builtin.name, args, path_files),
            Command::Executable(executable) => {
                let reaction = Reaction::Spawn {
                    program: executable.file_path,
                    args: to_owned_words(args),
                };
                assert((self@, reaction@) == run_spec(s, class@, args.deep_view(), plain, false));
                reaction
            },
            Command::Unrecognized(token) => {
                let reaction = Reaction::Print(not_found(token.as_str()));
                assert((self@, reaction@) == run_spec(s, class@, args.deep_view(), plain, false));
                reaction
            },
        }
    }

    /// Takes one input line. A terminated shell answers `Exit` and changes
    /// nothing; a blank line yields `Idle`; otherwise the first word is
    /// classified against `path_files` and run on the words that follow.
    /// The outcome is the one that [`step_spec`] gives for the answers that
    /// the file system gave during the call.
    pub fn step(&mut self, line: &str, path_files: &Vec<String>) -> (reaction: Reaction)
        ensures
            may_step(old(self)@, line@, path_files.deep_view(), (final(self)@, reaction@)),
    {
        let ghost s = self@;
        let ghost files = path_files.deep_view();
        let ghost plain = unprobed(files);
        if !self.running {
            assert((self@, ReactionView::Exit) == step_spec(s, line@, plain, false));
            return Reaction::Exit;
        }
        let mut found = split_words(line);
        if found.len() == 0 {
            assert((self@, ReactionView::Idle) == step_spec(s, line@, plain, false));
            return Reaction::Idle;
        }
        let ghost all = found.deep_view();
        let command = found.remove(0);
        assert(found.deep_view() =~= all.drop_first());
        let class = parse_command(command, path_files);
        let ghost class_view = class@;
        let reaction = self.run(class, &found, path_files);
        proof {
            let args = all.drop_first();
            let seen = choose|candidates: Seq<CandidateView>|
                lists(candidates, files) && class_view == #[trigger] classify_spec(
                    command@,
                    candidates,
                );
            let (used, answer) = choose|candidates: Seq<CandidateView>, is_dir: bool|
                lists(candidates, files) && (self@, reaction@) == #[trigger] run_spec(
                    s,
                    class_view,
                    args,
                    candidates,
                    is_dir,
                );
            // A built-in is one under every listing, so the listing that its
            // run went by serves for the whole step. Any other class was
            // decided by the listing seen at classification, and its run
            // consults none.
            match class_view {
                CommandView::BuiltIn(_) => {
                    assert((self@, reaction@) == step_spec(s, line@, used, answer));
                },
                _ => {
                    assert((self@, reaction@) == step_spec(s, line@, seen, answer));
                },
            }
        }
        reaction
    }

    /// Whether [`Shell::step`] will consult the search path for `line`, so
    /// that a caller need not list it otherwise.
    pub fn needs_search_path(line: &str) -> (needed: bool)
        ensures
            needed == needs_search_path_spec(line@),
    {
        let found = split_words(line);
        if found.len() == 0 {
            return false;
        }
        match BuiltInName::from_str(found[0]) {
            None => true,
            Some(BuiltInName::Type) => {
                if found.len() > 1 {
                    BuiltInName::from_str(found[1]).is_none()
                } else {
                    false
                }
            },
            Some(_) => false,
        }
    }
}

} // verus!
