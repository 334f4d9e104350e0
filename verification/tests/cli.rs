use tailspin::cli::{get_args, shell_kind, CliError, ShellKind};

fn toks(parts: &[&str]) -> Vec<String> {
    parts.iter().map(|p| String::from(*p)).collect()
}

#[test]
fn verify_app() {
    let args = get_args(&toks(&["app.log", "-f", "-c", "conf.toml"])).unwrap();
    assert_eq!(args.file_path.as_deref(), Some("app.log"));
    assert!(args.follow);
    assert!(!args.to_stdout);
    assert_eq!(args.config_path.as_deref(), Some("conf.toml"));
    assert_eq!(args.listen_command, None);
    assert!(!args.create_default_config);
    assert!(!args.show_default_config);
    assert_eq!(args.generate_shell_completions, None);
}

#[test]
fn empty_command_line() {
    let args = get_args(&Vec::new()).unwrap();
    assert_eq!(args.file_path, None);
    assert!(!args.follow);
    assert!(!args.to_stdout);
}

#[test]
fn long_flags_parse() {
    let args = get_args(&toks(&["--follow", "--listen-command", "make watch"])).unwrap();
    assert!(args.follow);
    assert_eq!(args.listen_command.as_deref(), Some("make watch"));
}

#[test]
fn print_flag_parses() {
    let args = get_args(&toks(&["-p", "app.log"])).unwrap();
    assert!(args.to_stdout);
    assert_eq!(args.file_path.as_deref(), Some("app.log"));
}

#[test]
fn config_flags_parse() {
    let args = get_args(&toks(&["--create-default-config"])).unwrap();
    assert!(args.create_default_config);
    let args = get_args(&toks(&["--show-default-config"])).unwrap();
    assert!(args.show_default_config);
}

#[test]
fn completions_flag_takes_a_value() {
    let args = get_args(&toks(&["--z-generate-shell-completions", "zsh"])).unwrap();
    assert_eq!(args.generate_shell_completions.as_deref(), Some("zsh"));
}

#[test]
fn missing_value_is_rejected() {
    assert_eq!(get_args(&toks(&["-c"])).err(), Some(CliError::MissingValue));
    assert_eq!(get_args(&toks(&["-l"])).err(), Some(CliError::MissingValue));
    assert_eq!(
        get_args(&toks(&["--z-generate-shell-completions"])).err(),
        Some(CliError::MissingValue)
    );
}

#[test]
fn unknown_flag_is_rejected() {
    assert_eq!(get_args(&toks(&["-q"])).err(), Some(CliError::UnknownFlag));
    assert_eq!(
        get_args(&toks(&["--nonsense", "x"])).err(),
        Some(CliError::UnknownFlag)
    );
}

#[test]
fn second_positional_is_rejected() {
    assert_eq!(
        get_args(&toks(&["one.log", "two.log"])).err(),
        Some(CliError::UnexpectedArgument)
    );
}

#[test]
fn conflicting_flags_are_rejected() {
    assert_eq!(
        get_args(&toks(&["-p", "-f", "app.log"])).err(),
        Some(CliError::ConflictingFlags)
    );
    assert_eq!(
        get_args(&toks(&["--create-default-config", "--show-default-config"])).err(),
        Some(CliError::ConflictingFlags)
    );
}

#[test]
fn flag_value_may_look_like_a_flag() {
    let args = get_args(&toks(&["-l", "-f"])).unwrap();
    assert_eq!(args.listen_command.as_deref(), Some("-f"));
    assert!(!args.follow);
}

#[test]
fn shell_names_map_to_kinds() {
    assert_eq!(shell_kind(&String::from("bash")), Some(ShellKind::Bash));
    assert_eq!(shell_kind(&String::from("zsh")), Some(ShellKind::Zsh));
    assert_eq!(shell_kind(&String::from("fish")), Some(ShellKind::Fish));
    assert_eq!(shell_kind(&String::from("powershell")), None);
    assert_eq!(shell_kind(&String::from("")), None);
}
