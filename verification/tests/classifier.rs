use shell_core::classifier::classify;
use shell_core::classifier::parse_command;
use shell_core::command::BuiltInName;
use shell_core::command::Command;
use shell_core::locator::Candidate;

fn entry(path: &str, name: &str, executable: bool) -> Candidate {
    Candidate { path: path.to_string(), name: name.to_string(), executable }
}

fn builtin_of(command: Command) -> Option<BuiltInName> {
    match command {
        Command::BuiltIn(b) => Some(b.name),
        _ => None,
    }
}

fn path_of(command: Command) -> Option<String> {
    match command {
        Command::Executable(e) => Some(e.file_path),
        _ => None,
    }
}

fn text_of(command: Command) -> Option<String> {
    match command {
        Command::Unrecognized(t) => Some(t),
        _ => None,
    }
}

const BUILTINS: [(&str, BuiltInName); 5] = [
    ("exit", BuiltInName::Exit),
    ("echo", BuiltInName::Echo),
    ("type", BuiltInName::Type),
    ("pwd", BuiltInName::Pwd),
    ("cd", BuiltInName::Cd),
];

#[test]
fn builtin_names_are_builtins() {
    let none: Vec<Candidate> = Vec::new();
    for (word, name) in BUILTINS {
        assert_eq!(builtin_of(classify(word, &none)), Some(name));
    }
}

#[test]
fn builtins_are_not_shadowed_by_the_search_path() {
    for (word, name) in BUILTINS {
        let listing = vec![entry(&format!("/bin/{}", word), word, true)];
        assert_eq!(builtin_of(classify(word, &listing)), Some(name));
        let files = vec![format!("/bin/{}", word), "/bin/sh".to_string()];
        assert_eq!(builtin_of(parse_command(word, &files)), Some(name));
    }
}

#[test]
fn classify_finds_executables() {
    let listing = vec![
        entry("/a/ls", "ls", false),
        entry("/b/ls", "ls", true),
        entry("/c/ls", "ls", true),
    ];
    assert_eq!(path_of(classify("ls", &listing)), Some("/b/ls".to_string()));
}

#[test]
fn classify_keeps_the_text_of_what_it_does_not_recognize() {
    let listing = vec![entry("/a/ls", "ls", true)];
    assert_eq!(
        text_of(classify("nonexistent_cmd_xyz", &listing)),
        Some("nonexistent_cmd_xyz".to_string())
    );
    assert_eq!(text_of(classify("", &listing)), Some(String::new()));
    assert_eq!(text_of(classify("LS", &listing)), Some("LS".to_string()));
}

#[test]
fn parse_command_resolves_against_the_files_given() {
    let files = vec![
        "/definitely/not/a/path/sh".to_string(),
        "/usr".to_string(),
        "/bin/sh".to_string(),
        "/usr/bin/env".to_string(),
    ];
    assert_eq!(path_of(parse_command("sh", &files)), Some("/bin/sh".to_string()));
    assert_eq!(path_of(parse_command("env", &files)), Some("/usr/bin/env".to_string()));
}

#[test]
fn parse_command_skips_what_is_not_an_executable_file() {
    let files = vec!["/usr".to_string(), "/definitely/not/a/path/tool".to_string()];
    assert_eq!(text_of(parse_command("usr", &files)), Some("usr".to_string()));
    assert_eq!(text_of(parse_command("tool", &files)), Some("tool".to_string()));
}

#[test]
fn parse_command_without_search_path() {
    let files: Vec<String> = Vec::new();
    assert_eq!(text_of(parse_command("sh", &files)), Some("sh".to_string()));
    assert_eq!(builtin_of(parse_command("pwd", &files)), Some(BuiltInName::Pwd));
}

#[test]
fn parse_command_does_not_remember() {
    let with = vec!["/bin/sh".to_string()];
    let without: Vec<String> = Vec::new();
    assert_eq!(path_of(parse_command("sh", &with)), Some("/bin/sh".to_string()));
    assert_eq!(text_of(parse_command("sh", &without)), Some("sh".to_string()));
    assert_eq!(path_of(parse_command("sh", &with)), Some("/bin/sh".to_string()));
}
