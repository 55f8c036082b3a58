use shell_core::command::BuiltInCommand;
use shell_core::command::BuiltInName;
use shell_core::command::Command;
use shell_core::command::ExecutableCommand;
use shell_core::shell::to_owned_words;
use shell_core::shell::Reaction;
use shell_core::shell::Shell;

fn shell_in(dir: &str) -> Shell {
    Shell::new(dir.to_string()).expect("an absolute path")
}

fn no_files() -> Vec<String> {
    Vec::new()
}

fn printed(reaction: Reaction) -> String {
    match reaction {
        Reaction::Print(text) => text,
        other => panic!("{:?}", other),
    }
}

fn changed_to(reaction: Reaction) -> String {
    match reaction {
        Reaction::ChangeDirectory(target) => target,
        other => panic!("{:?}", other),
    }
}

#[test]
fn new_shell_runs_in_its_directory() {
    let shell = shell_in("/usr");
    assert!(shell.is_running());
    assert_eq!(shell.working_directory(), "/usr");
}

#[test]
fn new_shell_needs_an_absolute_directory() {
    assert!(Shell::new("relative/dir".to_string()).is_none());
    assert!(Shell::new(String::new()).is_none());
    assert!(Shell::new(".".to_string()).is_none());
    assert!(Shell::new("/".to_string()).is_some());
}

#[test]
fn echo_line() {
    let mut shell = shell_in("/");
    assert_eq!(printed(shell.step("echo a b c", &no_files())), "a b c\n");
    assert_eq!(printed(shell.step("echo", &no_files())), "\n");
    assert_eq!(printed(shell.step("  echo   a    b  \n", &no_files())), "a b\n");
    assert!(shell.is_running());
}

#[test]
fn type_line() {
    let mut shell = shell_in("/");
    assert_eq!(printed(shell.step("type exit", &no_files())), "exit is a shell builtin\n");
    assert_eq!(printed(shell.step("type type", &no_files())), "type is a shell builtin\n");
    assert_eq!(
        printed(shell.step("type nonexistent_cmd_xyz", &no_files())),
        "nonexistent_cmd_xyz: not found\n"
    );
    assert_eq!(printed(shell.step("type", &no_files())), "type: missing operand\n");
}

#[test]
fn type_reports_the_resolved_path() {
    let mut shell = shell_in("/");
    let files = vec!["/usr".to_string(), "/bin/sh".to_string()];
    assert_eq!(printed(shell.step("type sh", &files)), "sh is /bin/sh\n");
    assert_eq!(printed(shell.step("type usr", &files)), "usr: not found\n");
}

#[test]
fn type_reads_only_its_first_argument() {
    let mut shell = shell_in("/");
    assert_eq!(printed(shell.step("type cd exit", &no_files())), "cd is a shell builtin\n");
}

#[test]
fn type_builtin_wins_over_the_search_path() {
    let mut shell = shell_in("/");
    let files = vec!["/bin/echo".to_string(), "/usr/bin/pwd".to_string()];
    assert_eq!(printed(shell.step("type echo", &files)), "echo is a shell builtin\n");
    assert_eq!(printed(shell.step("type pwd", &files)), "pwd is a shell builtin\n");
}

#[test]
fn type_is_not_cached() {
    let mut shell = shell_in("/");
    let before = vec!["/bin/sh".to_string()];
    assert_eq!(printed(shell.step("type sh", &before)), "sh is /bin/sh\n");
    assert_eq!(printed(shell.step("type sh", &no_files())), "sh: not found\n");
    assert_eq!(printed(shell.step("type sh", &before)), "sh is /bin/sh\n");
}

#[test]
fn pwd_line() {
    let mut shell = shell_in("/usr/bin");
    assert_eq!(printed(shell.step("pwd", &no_files())), "/usr/bin\n");
    assert_eq!(printed(shell.step("pwd ignored arguments", &no_files())), "/usr/bin\n");
}

#[test]
fn cd_to_an_absolute_directory() {
    let mut shell = shell_in("/");
    assert_eq!(changed_to(shell.step("cd /usr", &no_files())), "/usr");
    assert_eq!(shell.working_directory(), "/usr");
    assert_eq!(printed(shell.step("pwd", &no_files())), "/usr\n");
}

#[test]
fn cd_to_a_relative_directory() {
    let mut shell = shell_in("/usr");
    assert_eq!(changed_to(shell.step("cd bin", &no_files())), "/usr/bin");
    assert_eq!(shell.working_directory(), "/usr/bin");
    assert_eq!(printed(shell.step("pwd", &no_files())), "/usr/bin\n");
}

#[test]
fn cd_to_a_missing_directory() {
    let mut shell = shell_in("/usr");
    assert_eq!(
        printed(shell.step("cd /definitely/not/a/path", &no_files())),
        "cd: /definitely/not/a/path: No such file or directory\n"
    );
    assert_eq!(shell.working_directory(), "/usr");
    assert_eq!(printed(shell.step("pwd", &no_files())), "/usr\n");
    assert_eq!(
        printed(shell.step("cd no_such_subdirectory_xyz", &no_files())),
        "cd: no_such_subdirectory_xyz: No such file or directory\n"
    );
    assert_eq!(shell.working_directory(), "/usr");
}

#[test]
fn cd_to_a_file_fails() {
    let mut shell = shell_in("/");
    assert_eq!(
        printed(shell.step("cd /usr/bin/env", &no_files())),
        "cd: /usr/bin/env: No such file or directory\n"
    );
    assert_eq!(shell.working_directory(), "/");
}

#[test]
fn cd_without_argument() {
    let mut shell = shell_in("/usr");
    assert_eq!(printed(shell.step("cd", &no_files())), "cd: missing operand\n");
    assert_eq!(shell.working_directory(), "/usr");
}

#[test]
fn resolve_targets() {
    let shell = shell_in("/usr");
    assert_eq!(shell.resolve("/etc"), "/etc");
    assert_eq!(shell.resolve("bin"), "/usr/bin");
    assert_eq!(shell.resolve("local/bin"), "/usr/local/bin");
    assert_eq!(shell_in("/").resolve("usr"), "/usr");
}

#[test]
fn enter_moves_only_to_directories() {
    let mut shell = shell_in("/usr");
    let reaction = shell.enter("made/up", "/made/up".to_string(), true);
    assert_eq!(changed_to(reaction), "/made/up");
    assert_eq!(shell.working_directory(), "/made/up");
    let reaction = shell.enter("other", "/made/up/other".to_string(), false);
    assert_eq!(printed(reaction), "cd: other: No such file or directory\n");
    assert_eq!(shell.working_directory(), "/made/up");
}

#[test]
fn enter_refuses_a_relative_target() {
    let mut shell = shell_in("/usr");
    let reaction = shell.enter("x", "x".to_string(), true);
    assert_eq!(printed(reaction), "cd: x: No such file or directory\n");
    assert_eq!(shell.working_directory(), "/usr");
}

#[test]
fn exit_terminates() {
    let mut shell = shell_in("/usr");
    assert!(matches!(shell.step("exit", &no_files()), Reaction::Exit));
    assert!(!shell.is_running());
    assert_eq!(shell.working_directory(), "/usr");
}

#[test]
fn exit_ignores_its_arguments() {
    let mut shell = shell_in("/");
    assert!(matches!(shell.step("exit 0 now", &no_files()), Reaction::Exit));
    assert!(!shell.is_running());
}

#[test]
fn nothing_runs_after_exit() {
    let mut shell = shell_in("/");
    assert!(matches!(shell.step("exit", &no_files()), Reaction::Exit));
    for line in ["echo hello", "cd /usr", "pwd", "", "sh", "exit"] {
        assert!(matches!(shell.step(line, &vec!["/bin/sh".to_string()]), Reaction::Exit));
        assert!(!shell.is_running());
        assert_eq!(shell.working_directory(), "/");
    }
}

#[test]
fn only_exit_terminates() {
    let mut shell = shell_in("/");
    let files = vec!["/bin/sh".to_string()];
    let lines = ["echo exit", "type exit", "pwd", "cd", "cd /usr", "", "sh exit", "Exit", "exit_now"];
    for line in lines {
        assert!(!matches!(shell.step(line, &files), Reaction::Exit), "{:?}", line);
        assert!(shell.is_running());
    }
}

#[test]
fn blank_line_does_nothing() {
    let mut shell = shell_in("/usr");
    for line in ["", " ", "\n", " \t \r\n"] {
        assert!(matches!(shell.step(line, &vec!["/bin/sh".to_string()]), Reaction::Idle));
    }
    assert!(shell.is_running());
    assert_eq!(shell.working_directory(), "/usr");
}

#[test]
fn unrecognized_command_is_reported() {
    let mut shell = shell_in("/");
    assert_eq!(
        printed(shell.step("nonexistent_cmd_xyz --flag", &no_files())),
        "nonexistent_cmd_xyz: not found\n"
    );
    assert!(shell.is_running());
}

#[test]
fn executable_is_spawned_with_its_arguments() {
    let mut shell = shell_in("/");
    let files = vec!["/usr/bin/env".to_string(), "/bin/sh".to_string()];
    match shell.step("sh -c  'exit 3'", &files) {
        Reaction::Spawn { program, args } => {
            assert_eq!(program, "/bin/sh");
            assert_eq!(args, vec!["-c", "'exit", "3'"]);
        }
        other => panic!("{:?}", other),
    }
    assert!(shell.is_running());
    assert_eq!(shell.working_directory(), "/");
}

#[test]
fn run_a_classified_command() {
    let mut shell = shell_in("/usr");
    let echo = Command::BuiltIn(BuiltInCommand { name: BuiltInName::Echo });
    assert_eq!(printed(shell.run(echo, &vec!["x", "y"], &no_files())), "x y\n");
    let tool = Command::Executable(ExecutableCommand { file_path: "/opt/tool.sh".to_string() });
    match shell.run(tool, &vec!["a"], &no_files()) {
        Reaction::Spawn { program, args } => {
            assert_eq!(program, "/opt/tool.sh");
            assert_eq!(args, vec!["a"]);
        }
        other => panic!("{:?}", other),
    }
    let unknown = Command::Unrecognized("what".to_string());
    assert_eq!(printed(shell.run(unknown, &Vec::new(), &no_files())), "what: not found\n");
}

#[test]
fn run_builtin_directly() {
    let mut shell = shell_in("/usr");
    assert_eq!(
        printed(shell.run_builtin(BuiltInName::Pwd, &Vec::new(), &no_files())),
        "/usr\n"
    );
    assert_eq!(
        printed(shell.run_builtin(BuiltInName::Type, &vec!["cd"], &no_files())),
        "cd is a shell builtin\n"
    );
    assert!(matches!(
        shell.run_builtin(BuiltInName::Exit, &Vec::new(), &no_files()),
        Reaction::Exit
    ));
    assert!(!shell.is_running());
}

#[test]
fn search_path_is_needed_only_for_lookups() {
    assert!(Shell::needs_search_path("ls -l"));
    assert!(Shell::needs_search_path("type ls"));
    assert!(Shell::needs_search_path("  type   ls  "));
    assert!(!Shell::needs_search_path("type"));
    assert!(!Shell::needs_search_path("type echo"));
    assert!(!Shell::needs_search_path("type echo ls"));
    assert!(!Shell::needs_search_path("echo ls"));
    assert!(!Shell::needs_search_path("cd /usr"));
    assert!(!Shell::needs_search_path("pwd"));
    assert!(!Shell::needs_search_path("exit"));
    assert!(!Shell::needs_search_path(""));
    assert!(!Shell::needs_search_path("   "));
}

#[test]
fn owned_words_keep_their_text() {
    assert_eq!(to_owned_words(&vec!["a", "", "b c"]), vec!["a", "", "b c"]);
    assert!(to_owned_words(&Vec::new()).is_empty());
}
