use mobius::cli::{CliArgs as LocalArgs, FlagAction};
use mobius::client::{build_request, has_action, session_file_for};
use mobius::client_cli::CliArgs;

fn args(list: &[&str]) -> pico_args::Arguments {
    pico_args::Arguments::from_vec(list.iter().map(|s| s.to_string().into()).collect())
}

#[test]
fn client_prompt_words_are_joined() {
    let a = CliArgs::parse(args(&["what", "is", "rust"])).unwrap();
    assert_eq!(a.prompt, "what is rust");
    assert!(!a.help);
    assert_eq!(a.model, None);
}

#[test]
fn client_help_bypasses_checks() {
    let a = CliArgs::parse(args(&["-h", "-n", "x"])).unwrap();
    assert!(a.help);
    assert_eq!(a.prompt, "");
}

#[test]
fn client_flags_query_and_value() {
    let a = CliArgs::parse(args(&["-t"])).unwrap();
    assert_eq!(a.thinking_level, Some(FlagAction::Query));
    let b = CliArgs::parse(args(&["-m", "2"])).unwrap();
    assert_eq!(b.model, Some(FlagAction::Value("2".to_string())));
    let c = CliArgs::parse(args(&["--thinking", "high"])).unwrap();
    assert_eq!(c.thinking_level, Some(FlagAction::Value("high".to_string())));
}

#[test]
fn client_rejects_two_flags() {
    let e = CliArgs::parse(args(&["-n", "--gui"])).unwrap_err();
    assert_eq!(e, "Multiple flags provided! Mobius only allows 1 flag per command.");
}

#[test]
fn client_rejects_flag_with_prompt() {
    let e = CliArgs::parse(args(&["-n", "hello"])).unwrap_err();
    assert_eq!(e, "The `-n` / `--new-s` flag must be used on its own. Do not pass a prompt with it.");
    let e = CliArgs::parse(args(&["--gui", "hello"])).unwrap_err();
    assert_eq!(e, "The `--gui` flag must be used on its own. Do not pass a prompt.");
}

#[test]
fn client_rejects_bad_model_number() {
    let e = CliArgs::parse(args(&["-m", "two"])).unwrap_err();
    assert_eq!(
        e,
        "Invalid model selection: 'two'. Use `mobius -m` to list available models, then `mobius -m <number>`."
    );
}

#[test]
fn client_rejects_bad_thinking_values() {
    let e = CliArgs::parse(args(&["-t", "9"])).unwrap_err();
    assert_eq!(
        e,
        "Invalid thinking level: '9'. Use `mobius -t` to list available levels, then `mobius -t <number>`."
    );
    let e = CliArgs::parse(args(&["-t", "huge"])).unwrap_err();
    assert_eq!(
        e,
        "Invalid thinking level: 'huge'. Use `mobius -t` to list available levels (off, min, low, med, high, xhigh, max)."
    );
}

#[test]
fn client_start_daemon_bypasses_checks() {
    let a = CliArgs::parse(args(&["--start-daemon", "-n", "--pid", "42"])).unwrap();
    assert!(a.start_daemon);
    assert!(!a.new_session);
    assert_eq!(a.override_pid, Some(42));
}

#[test]
fn request_maps_thinking_number_to_name() {
    let a = CliArgs::parse(args(&["-t", "3"])).unwrap();
    let r = build_request(&a, 7);
    assert_eq!(r.ppid, 7);
    assert_eq!(r.thinking_level_override, Some("medium".to_string()));
    assert!(!r.query_thinking);
    assert!(has_action(&r));
}

#[test]
fn request_for_model_number_and_queries() {
    let a = CliArgs::parse(args(&["-m", "2"])).unwrap();
    let r = build_request(&a, 1);
    assert_eq!(r.model_number, Some(2));
    assert_eq!(r.model_override, Some("2".to_string()));
    let q = build_request(&CliArgs::parse(args(&["-m"])).unwrap(), 1);
    assert!(q.query_model);
    assert_eq!(q.model_number, None);
}

#[test]
fn empty_command_line_asks_nothing() {
    let r = build_request(&CliArgs::parse(args(&[])).unwrap(), 1);
    assert!(!has_action(&r));
}

#[test]
fn session_switch_file_names() {
    assert_eq!(session_file_for("12345"), Some("12345.json".to_string()));
    assert_eq!(session_file_for("+7"), Some("7.json".to_string()));
    assert_eq!(session_file_for("abc"), None);
    assert_eq!(session_file_for("4294967296"), None);
}

#[test]
fn local_one_flag_only() {
    let e = LocalArgs::parse(args(&["--tokens", "-n"])).unwrap_err();
    assert_eq!(e, "Multiple flags provided! Mobius only allows 1 flag per command.");
}

#[test]
fn local_daemon_mode_bypasses_checks() {
    let a = LocalArgs::parse(args(&["--daemon-mode", "--tokens", "hi"])).unwrap();
    assert!(a.daemon_mode);
    assert!(!a.tokens);
    assert_eq!(a.prompt, "");
}

#[test]
fn local_last_lines_and_record() {
    let a = LocalArgs::parse(args(&["-l", "3", "why", "failed"])).unwrap();
    assert_eq!(a.last_lines, Some(3));
    assert_eq!(a.prompt, "why failed");
    let b = LocalArgs::parse(args(&["--record", "ls", "--pid", "9"])).unwrap();
    assert_eq!(b.record_cmd, Some("ls".to_string()));
    assert_eq!(b.override_pid, Some(9));
}

#[test]
fn local_tokens_with_prompt_refused() {
    let e = LocalArgs::parse(args(&["--tokens", "hi"])).unwrap_err();
    assert_eq!(e, "The `--tokens` flag must be used on its own. Do not pass a prompt with it.");
}

#[test]
fn local_bad_last_value() {
    assert!(LocalArgs::parse(args(&["-l", "x"])).is_err());
}

#[test]
fn session_pid_and_probing() {
    use_session_pid();
}

fn use_session_pid() {
    assert_eq!(mobius::client::session_pid("+12"), Some(12));
    assert_eq!(mobius::client::session_pid("x"), None);
    assert!(mobius::client::keep_waiting(false, 39));
    assert!(!mobius::client::keep_waiting(false, 40));
    assert!(!mobius::client::keep_waiting(true, 0));
}
