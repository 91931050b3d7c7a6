//! The command line of the single `mobius` binary: its flags and the rules on
//! how they combine.
use vstd::prelude::*;
use crate::arguments::{
    argument_list, contains_long, contains_pair, count_option_pair, finish, id_option_long,
    key_index, non_utf8_message, option_error_view, remove_at, take_count_option,
    take_id_option, take_text_option, text_option_long, text_option_pair, valid_key_pair,
    without_value_message, OptionError,
};
use crate::text::{join, join_strings, starts_with, string_views};

verus! {

/// A flag given either bare (a query) or with a value (a setting).
#[derive(Debug, PartialEq)]
pub enum FlagAction {
    Query,
    Value(String),
}

pub enum FlagActionSpec {
    Query,
    Value(Seq<char>),
}

impl View for FlagAction {
    type V = FlagActionSpec;

    open spec fn view(&self) -> FlagActionSpec {
        match self {
            FlagAction::Query => FlagActionSpec::Query,
            FlagAction::Value(v) => FlagActionSpec::Value(v@),
        }
    }
}

pub open spec fn opt_action_view(a: Option<FlagAction>) -> Option<FlagActionSpec> {
    match a {
        Some(x) => Some(x@),
        None => None,
    }
}

pub open spec fn opt_text_view(a: Option<String>) -> Option<Seq<char>> {
    match a {
        Some(x) => Some(x@),
        None => None,
    }
}

/// What a flag that may carry a value (short and long key) reads from `a`:
/// the value if one follows the key, a query if the key comes last, and the
/// arguments left.
pub open spec fn take_flag_action(a: Seq<Option<Seq<char>>>, short: Seq<char>, long: Seq<char>) -> (Result<Option<FlagActionSpec>, Seq<char>>, Seq<Option<Seq<char>>>) {
    let (r, a1) = take_text_option(a, short, long);
    match r {
        Ok(Some(v)) => (Ok(Some(FlagActionSpec::Value(v))), a1),
        Ok(None) => (Ok(None), a1),
        Err((missing, x)) => if missing {
            (Ok(Some(FlagActionSpec::Query)), consume_flag(a1, short, long).1)
        } else {
            (Err(x), a1)
        },
    }
}

/// Whether a flag occurs, and the arguments once its first occurrence is consumed.
pub open spec fn consume_flag(a: Seq<Option<Seq<char>>>, short: Seq<char>, long: Seq<char>) -> (bool, Seq<Option<Seq<char>>>) {
    match key_index(a, short, long) {
        Some((i, _)) => (true, remove_at(a, i)),
        None => (false, a),
    }
}

pub open spec fn action_result_view(r: Result<Option<FlagAction>, String>) -> Result<Option<FlagActionSpec>, Seq<char>> {
    match r {
        Ok(o) => Ok(opt_action_view(o)),
        Err(e) => Err(e@),
    }
}

/// Reads a flag that may carry a value: `Value` with the value after the key,
/// `Query` when the key is the last argument, nothing when the key is absent.
pub fn parse_flag_action(par: &mut pico_args::Arguments, keys: [&'static str; 2]) -> (r: Result<Option<FlagAction>, String>)
    requires
        valid_key_pair(keys[0]@, keys[1]@),
    ensures
        action_result_view(r) == take_flag_action(argument_list(*old(par)), keys[0]@, keys[1]@).0,
        argument_list(*final(par)) == take_flag_action(argument_list(*old(par)), keys[0]@, keys[1]@).1,
{
    match text_option_pair(par, keys[0], keys[1]) {
        Ok(Some(val)) => Ok(Some(FlagAction::Value(val))),
        Ok(None) => Ok(None),
        Err(OptionError::WithoutValue(_)) => {
            let _ = contains_pair(par, keys[0], keys[1]);
            Ok(Some(FlagAction::Query))
        },
        Err(OptionError::Failed(m)) => Err(m),
    }
}

/// The flags read from the command line, before they are checked together.
pub struct ParsedFlags {
    pub daemon_mode: bool,
    pub stop_daemon: bool,
    pub new_session: bool,
    pub tokens: bool,
    pub thinking_level: Option<FlagAction>,
    pub model: Option<FlagAction>,
    pub last_lines: Option<usize>,
    pub record_cmd: Option<String>,
    pub override_pid: Option<u32>,
}

pub struct FlagsSpec {
    pub daemon_mode: bool,
    pub stop_daemon: bool,
    pub new_session: bool,
    pub tokens: bool,
    pub thinking_level: Option<FlagActionSpec>,
    pub model: Option<FlagActionSpec>,
    pub last_lines: Option<usize>,
    pub record_cmd: Option<Seq<char>>,
    pub override_pid: Option<u32>,
}

impl View for ParsedFlags {
    type V = FlagsSpec;

    open spec fn view(&self) -> FlagsSpec {
        FlagsSpec {
            daemon_mode: self.daemon_mode,
            stop_daemon: self.stop_daemon,
            new_session: self.new_session,
            tokens: self.tokens,
            thinking_level: opt_action_view(self.thinking_level),
            model: opt_action_view(self.model),
            last_lines: self.last_lines,
            record_cmd: opt_text_view(self.record_cmd),
            override_pid: self.override_pid,
        }
    }
}

/// The parsed command line.
#[derive(Debug)]
pub struct CliArgs {
    /// Hidden flag: run as the background daemon.
    pub daemon_mode: bool,
    pub stop_daemon: bool,
    pub new_session: bool,
    pub tokens: bool,
    pub thinking_level: Option<FlagAction>,
    pub model: Option<FlagAction>,
    pub last_lines: Option<usize>,
    pub prompt: String,
    /// Hidden flag: record a command into the terminal history.
    pub record_cmd: Option<String>,
    /// Hidden flag: the terminal's process id.
    pub override_pid: Option<u32>,
}

pub struct CliArgsSpec {
    pub daemon_mode: bool,
    pub stop_daemon: bool,
    pub new_session: bool,
    pub tokens: bool,
    pub thinking_level: Option<FlagActionSpec>,
    pub model: Option<FlagActionSpec>,
    pub last_lines: Option<usize>,
    pub prompt: Seq<char>,
    pub record_cmd: Option<Seq<char>>,
    pub override_pid: Option<u32>,
}

impl View for CliArgs {
    type V = CliArgsSpec;

    open spec fn view(&self) -> CliArgsSpec {
        CliArgsSpec {
            daemon_mode: self.daemon_mode,
            stop_daemon: self.stop_daemon,
            new_session: self.new_session,
            tokens: self.tokens,
            thinking_level: opt_action_view(self.thinking_level),
            model: opt_action_view(self.model),
            last_lines: self.last_lines,
            prompt: self.prompt@,
            record_cmd: opt_text_view(self.record_cmd),
            override_pid: self.override_pid,
        }
    }
}

pub open spec fn cli_result_view(r: Result<CliArgs, String>) -> Result<CliArgsSpec, Seq<char>> {
    match r {
        Ok(a) => Ok(a@),
        Err(e) => Err(e@),
    }
}

/// How many of the user-facing flags are present.
pub open spec fn flag_count(f: FlagsSpec) -> nat {
    (if f.stop_daemon { 1nat } else { 0nat }) + (if f.new_session { 1nat } else { 0nat }) + (
    if f.tokens { 1nat } else { 0nat }) + (if f.thinking_level is Some { 1nat } else { 0nat }) + (
    if f.model is Some { 1nat } else { 0nat }) + (if f.last_lines is Some { 1nat } else { 0nat })
}

/// The rules on how flags and a prompt combine: the daemon flag bypasses
/// them; at most one flag; and no prompt next to `--stop-daemon`, `-n`,
/// `-t`, `-m` or `--tokens`.
pub open spec fn checked_args(f: FlagsSpec, prompt: Seq<char>) -> Result<CliArgsSpec, Seq<char>> {
    let has_prompt = prompt.len() > 0;
    if f.daemon_mode {
        Ok(
            CliArgsSpec {
                daemon_mode: true,
                stop_daemon: false,
                new_session: false,
                tokens: false,
                thinking_level: None,
                model: None,
                last_lines: None,
                prompt: Seq::empty(),
                record_cmd: f.record_cmd,
                override_pid: f.override_pid,
            },
        )
    } else if flag_count(f) > 1 {
        Err("Multiple flags provided! Mobius only allows 1 flag per command."@)
    } else if f.stop_daemon && has_prompt {
        Err("The `--stop-daemon` flag must be used on its own. Do not pass a prompt."@)
    } else if f.new_session && has_prompt {
        Err("The `-n` / `--new-s` flag must be used on its own. Do not pass a prompt with it."@)
    } else if f.thinking_level is Some && has_prompt {
        Err(
            "The `-t` / `--thinking` flag is strictly for setting or querying thinking levels. Do not pass a prompt with it."@,
        )
    } else if f.model is Some && has_prompt {
        Err(
            "The model flag (-m / --model) is strictly for querying or switching models. Do not pass a prompt with it."@,
        )
    } else if f.tokens && has_prompt {
        Err("The `--tokens` flag must be used on its own. Do not pass a prompt with it."@)
    } else {
        Ok(
            CliArgsSpec {
                daemon_mode: false,
                stop_daemon: f.stop_daemon,
                new_session: f.new_session,
                tokens: f.tokens,
                thinking_level: f.thinking_level,
                model: f.model,
                last_lines: f.last_lines,
                prompt,
                record_cmd: f.record_cmd,
                override_pid: f.override_pid,
            },
        )
    }
}

/// Reading the flags off the arguments, in the order the parser does; the
/// arguments left over form the prompt.
pub open spec fn extract_flags(a: Seq<Option<Seq<char>>>) -> Result<(FlagsSpec, Seq<Option<Seq<char>>>), Seq<char>> {
    let (daemon_mode, a1) = consume_flag(a, "--daemon-mode"@, Seq::empty());
    let (stop_daemon, a2) = consume_flag(a1, "--stop-daemon"@, Seq::empty());
    let (new_session, a3) = consume_flag(a2, "-n"@, "--new-s"@);
    let (tokens, a4) = consume_flag(a3, "--tokens"@, Seq::empty());
    let (th, a5) = take_flag_action(a4, "-t"@, "--thinking"@);
    let (md, a6) = take_flag_action(a5, "-m"@, "--model"@);
    let (ll, a7) = take_count_option(a6, "-l"@, "--last"@);
    let (rc, a8) = take_text_option(a7, "--record"@, Seq::empty());
    let (pid, a9) = take_id_option(a8, "--pid"@);
    match th {
        Err(m) => Err(m),
        Ok(thinking_level) => match md {
            Err(m) => Err(m),
            Ok(model) => match ll {
                Err((missing, x)) => Err(
                    if missing {
                        without_value_message(x)
                    } else {
                        x
                    },
                ),
                Ok(last_lines) => Ok(
                    (
                        FlagsSpec {
                            daemon_mode,
                            stop_daemon,
                            new_session,
                            tokens,
                            thinking_level,
                            model,
                            last_lines,
                            record_cmd: match rc {
                                Ok(v) => v,
                                Err(_) => None,
                            },
                            override_pid: pid,
                        },
                        a9,
                    ),
                ),
            },
        },
    }
}

pub open spec fn all_text(a: Seq<Option<Seq<char>>>) -> bool {
    forall|i: int| 0 <= i < a.len() ==> #[trigger] a[i] is Some
}

pub open spec fn texts(a: Seq<Option<Seq<char>>>) -> Seq<Seq<char>> {
    Seq::new(a.len(), |i: int| a[i]->0)
}

impl CliArgs {
    /// Checks the flags and the prompt against the rules on how they combine.
    pub fn check(flags: ParsedFlags, prompt: String) -> (r: Result<CliArgs, String>)
        ensures
            cli_result_view(r) == checked_args(flags@, prompt@),
    {
        let has_prompt = !prompt.as_str().is_empty();
        if flags.daemon_mode {
            return Ok(
                CliArgs {
                    daemon_mode: true,
                    stop_daemon: false,
                    new_session: false,
                    tokens: false,
                    thinking_level: None,
                    model: None,
                    last_lines: None,
                    prompt: String::new(),
                    record_cmd: flags.record_cmd,
                    override_pid: flags.override_pid,
                },
            );
        }
        let mut flag_count: usize = 0;
        if flags.stop_daemon {
            flag_count += 1;
        }
        if flags.new_session {
            flag_count += 1;
        }
        if flags.tokens {
            flag_count += 1;
        }
        if flags.thinking_level.is_some() {
            flag_count += 1;
        }
        if flags.model.is_some() {
            flag_count += 1;
        }
        if flags.last_lines.is_some() {
            flag_count += 1;
        }
        if flag_count > 1 {
            return Err("Multiple flags provided! Mobius only allows 1 flag per command.".to_string());
        }
        if flags.stop_daemon && has_prompt {
            return Err(
                "The `--stop-daemon` flag must be used on its own. Do not pass a prompt.".to_string(),
            );
        }
        if flags.new_session && has_prompt {
            return Err(
                "The `-n` / `--new-s` flag must be used on its own. Do not pass a prompt with it.".to_string(),
            );
        }
        if flags.thinking_level.is_some() && has_prompt {
            return Err(
                "The `-t` / `--thinking` flag is strictly for setting or querying thinking levels. Do not pass a prompt with it.".to_string(),
            );
        }
        if flags.model.is_some() && has_prompt {
            return Err(
                "The model flag (-m / --model) is strictly for querying or switching models. Do not pass a prompt with it.".to_string(),
            );
        }
        if flags.tokens && has_prompt {
            return Err(
                "The `--tokens` flag must be used on its own. Do not pass a prompt with it.".to_string(),
            );
        }
        Ok(
            CliArgs {
                daemon_mode: false,
                stop_daemon: flags.stop_daemon,
                new_session: flags.new_session,
                tokens: flags.tokens,
                thinking_level: flags.thinking_level,
                model: flags.model,
                last_lines: flags.last_lines,
                prompt,
                record_cmd: flags.record_cmd,
                override_pid: flags.override_pid,
            },
        )
    }

    /// Parses the command line (`Arguments::from_env()` in the program):
    /// reads every flag, joins the remaining arguments with spaces into the
    /// prompt, then checks the combination. When a remaining argument is not
    /// UTF-8 its text in the prompt is not stated.
    pub fn parse(args: pico_args::Arguments) -> (r: Result<CliArgs, String>)
        ensures
            match extract_flags(argument_list(args)) {
                Err(m) => r matches Err(e) && e@ == m,
                Ok((f, rest)) => {
                    &&& all_text(rest) ==> cli_result_view(r) == checked_args(f, join(texts(rest), " "@))
                    &&& exists|p: Seq<char>| cli_result_view(r) == checked_args(f, p)
                },
            },
    {
        let mut par = args;
        proof {
            reveal_strlit("--daemon-mode");
            reveal_strlit("--stop-daemon");
            reveal_strlit("-n");
            reveal_strlit("--new-s");
            reveal_strlit("--tokens");
            reveal_strlit("-t");
            reveal_strlit("--thinking");
            reveal_strlit("-m");
            reveal_strlit("--model");
            reveal_strlit("-l");
            reveal_strlit("--last");
            reveal_strlit("--record");
            reveal_strlit("--pid");
            reveal_strlit("--");
            assert("--daemon-mode"@.subrange(0, 2) =~= "--"@);
            assert("--stop-daemon"@.subrange(0, 2) =~= "--"@);
            assert("--new-s"@.subrange(0, 2) =~= "--"@);
            assert("--tokens"@.subrange(0, 2) =~= "--"@);
            assert("--thinking"@.subrange(0, 2) =~= "--"@);
            assert("--model"@.subrange(0, 2) =~= "--"@);
            assert("--last"@.subrange(0, 2) =~= "--"@);
            assert("--record"@.subrange(0, 2) =~= "--"@);
            assert("--pid"@.subrange(0, 2) =~= "--"@);
        }
        let daemon_mode = contains_long(&mut par, "--daemon-mode");
        let stop_daemon = contains_long(&mut par, "--stop-daemon");
        let new_session = contains_pair(&mut par, "-n", "--new-s");
        let tokens = contains_long(&mut par, "--tokens");
        let thinking_level = match parse_flag_action(&mut par, ["-t", "--thinking"]) {
            Ok(v) => v,
            Err(e) => return Err(e),
        };
        let model = match parse_flag_action(&mut par, ["-m", "--model"]) {
            Ok(v) => v,
            Err(e) => return Err(e),
        };
        let last_lines = match count_option_pair(&mut par, "-l", "--last") {
            Ok(v) => v,
            Err(e) => return Err(e.message()),
        };
        let record_cmd = match text_option_long(&mut par, "--record") {
            Ok(v) => v,
            Err(_) => None,
        };
        let override_pid = match id_option_long(&mut par, "--pid") {
            Ok(v) => v,
            Err(_) => None,
        };
        let ghost rest = argument_list(par);
        let words = finish(par);
        let prompt = join_strings(&words, " ");
        proof {
            if all_text(rest) {
                assert(string_views(words@) =~= texts(rest));
            }
        }
        let flags = ParsedFlags {
            daemon_mode,
            stop_daemon,
            new_session,
            tokens,
            thinking_level,
            model,
            last_lines,
            record_cmd,
            override_pid,
        };
        Self::check(flags, prompt)
    }
}

} // verus!
