//! The command line of the `mobius` client that talks to the daemon: its
//! flags, the values they accept, and the rules on how they combine.
use vstd::prelude::*;
use crate::arguments::{
    argument_list, contains_long, contains_pair, id_option_long, parse_unsigned, parse_usize,
    take_id_option,
};
use crate::cli::{
    action_result_view, all_text, consume_flag, opt_action_view, parse_flag_action,
    take_flag_action, texts, FlagAction, FlagActionSpec,
};
use crate::engine::{parse_level, ThinkingLevel, THINKING_LEVEL_COUNT};
use crate::text::{extend_str, join, join_strings, string_of, string_views};

verus! {

/// The parsed command line of the client.
#[derive(Debug)]
pub struct CliArgs {
    pub help: bool,
    /// Hidden flag: start the background daemon.
    pub start_daemon: bool,
    pub stop_daemon: bool,
    pub new_session: bool,
    pub gui: bool,
    pub session: Option<FlagAction>,
    pub thinking_level: Option<FlagAction>,
    pub model: Option<FlagAction>,
    pub prompt: String,
    /// Hidden flag: the terminal's process id.
    pub override_pid: Option<u32>,
}

pub struct ClientArgsSpec {
    pub help: bool,
    pub start_daemon: bool,
    pub stop_daemon: bool,
    pub new_session: bool,
    pub gui: bool,
    pub session: Option<FlagActionSpec>,
    pub thinking_level: Option<FlagActionSpec>,
    pub model: Option<FlagActionSpec>,
    pub prompt: Seq<char>,
    pub override_pid: Option<u32>,
}

impl View for CliArgs {
    type V = ClientArgsSpec;

    open spec fn view(&self) -> ClientArgsSpec {
        ClientArgsSpec {
            help: self.help,
            start_daemon: self.start_daemon,
            stop_daemon: self.stop_daemon,
            new_session: self.new_session,
            gui: self.gui,
            session: opt_action_view(self.session),
            thinking_level: opt_action_view(self.thinking_level),
            model: opt_action_view(self.model),
            prompt: self.prompt@,
            override_pid: self.override_pid,
        }
    }
}

pub open spec fn client_result_view(r: Result<CliArgs, String>) -> Result<ClientArgsSpec, Seq<char>> {
    match r {
        Ok(a) => Ok(a@),
        Err(e) => Err(e@),
    }
}

/// The flags read from the client's command line, before they are checked together.
pub struct ClientFlags {
    pub help: bool,
    pub start_daemon: bool,
    pub stop_daemon: bool,
    pub new_session: bool,
    pub gui: bool,
    pub session: Option<FlagAction>,
    pub thinking_level: Option<FlagAction>,
    pub model: Option<FlagAction>,
    pub override_pid: Option<u32>,
}

pub struct ClientFlagsSpec {
    pub help: bool,
    pub start_daemon: bool,
    pub stop_daemon: bool,
    pub new_session: bool,
    pub gui: bool,
    pub session: Option<FlagActionSpec>,
    pub thinking_level: Option<FlagActionSpec>,
    pub model: Option<FlagActionSpec>,
    pub override_pid: Option<u32>,
}

impl View for ClientFlags {
    type V = ClientFlagsSpec;

    open spec fn view(&self) -> ClientFlagsSpec {
        ClientFlagsSpec {
            help: self.help,
            start_daemon: self.start_daemon,
            stop_daemon: self.stop_daemon,
            new_session: self.new_session,
            gui: self.gui,
            session: opt_action_view(self.session),
            thinking_level: opt_action_view(self.thinking_level),
            model: opt_action_view(self.model),
            override_pid: self.override_pid,
        }
    }
}

/// What `-h` alone yields.
pub open spec fn help_only() -> ClientArgsSpec {
    ClientArgsSpec {
        help: true,
        start_daemon: false,
        stop_daemon: false,
        new_session: false,
        gui: false,
        session: None,
        thinking_level: None,
        model: None,
        prompt: Seq::empty(),
        override_pid: None,
    }
}

/// The complaint about a model choice that is not a number, if it is not one.
pub open spec fn model_value_error(model: Option<FlagActionSpec>) -> Option<Seq<char>> {
    match model {
        Some(FlagActionSpec::Value(v)) => if parse_unsigned(v, usize::MAX as nat) is None {
            Some(
                "Invalid model selection: '"@ + v
                    + "'. Use `mobius -m` to list available models, then `mobius -m <number>`."@,
            )
        } else {
            None
        },
        _ => None,
    }
}

/// The complaint about a thinking level that is neither a listed number nor a name.
pub open spec fn thinking_value_error(level: Option<FlagActionSpec>) -> Option<Seq<char>> {
    match level {
        Some(FlagActionSpec::Value(v)) => match parse_unsigned(v, usize::MAX as nat) {
            Some(n) => if n >= THINKING_LEVEL_COUNT {
                Some(
                    "Invalid thinking level: '"@ + v
                        + "'. Use `mobius -t` to list available levels, then `mobius -t <number>`."@,
                )
            } else {
                None
            },
            None => if parse_level(v) is None {
                Some(
                    "Invalid thinking level: '"@ + v
                        + "'. Use `mobius -t` to list available levels (off, min, low, med, high, xhigh, max)."@,
                )
            } else {
                None
            },
        },
        _ => None,
    }
}

/// How many of the user-facing flags are present.
pub open spec fn client_flag_count(f: ClientFlagsSpec) -> nat {
    (if f.help { 1nat } else { 0nat }) + (if f.stop_daemon { 1nat } else { 0nat }) + (
    if f.new_session { 1nat } else { 0nat }) + (if f.gui { 1nat } else { 0nat }) + (
    if f.thinking_level is Some { 1nat } else { 0nat }) + (if f.model is Some { 1nat } else { 0nat })
        + (if f.session is Some { 1nat } else { 0nat })
}

/// The rules on how the client's flags and a prompt combine.
pub open spec fn checked_client_args(f: ClientFlagsSpec, prompt: Seq<char>) -> Result<ClientArgsSpec, Seq<char>> {
    let has_prompt = prompt.len() > 0;
    if f.start_daemon {
        Ok(
            ClientArgsSpec {
                help: false,
                start_daemon: true,
                stop_daemon: false,
                new_session: false,
                gui: false,
                session: None,
                thinking_level: None,
                model: None,
                prompt: Seq::empty(),
                override_pid: f.override_pid,
            },
        )
    } else if client_flag_count(f) > 1 {
        Err("Multiple flags provided! Mobius only allows 1 flag per command."@)
    } else if f.gui && has_prompt {
        Err("The `--gui` flag must be used on its own. Do not pass a prompt."@)
    } else if f.stop_daemon && has_prompt {
        Err("The `--stop-daemon` flag must be used on its own. Do not pass a prompt."@)
    } else if f.new_session && has_prompt {
        Err("The `-n` / `--new-s` flag must be used on its own. Do not pass a prompt with it."@)
    } else if f.thinking_level is Some && has_prompt {
        Err(
            "The `-t` / `--thinking` flag is strictly for setting or querying thinking levels. Do not pass a prompt with it."@,
        )
    } else if f.model is Some && has_prompt {
        Err(
            "The model flag (-m / --model) is strictly for querying or switching models. Do not pass a prompt with it."@,
        )
    } else if f.session is Some && has_prompt {
        Err(
            "The `-s` / `--session` flag is strictly for querying or switching sessions. Do not pass a prompt with it."@,
        )
    } else {
        Ok(
            ClientArgsSpec {
                help: f.help,
                start_daemon: false,
                stop_daemon: f.stop_daemon,
                new_session: f.new_session,
                gui: f.gui,
                session: f.session,
                thinking_level: f.thinking_level,
                model: f.model,
                prompt,
                override_pid: f.override_pid,
            },
        )
    }
}

/// Reading the client's flags off the arguments (after a first `-h` check
/// found none), in the order the parser does; the arguments left form the prompt.
pub open spec fn extract_client_flags(a: Seq<Option<Seq<char>>>) -> Result<(ClientFlagsSpec, Seq<Option<Seq<char>>>), Seq<char>> {
    let (start_daemon, a2) = consume_flag(a, "--start-daemon"@, Seq::empty());
    let (stop_daemon, a3) = consume_flag(a2, "--stop-daemon"@, Seq::empty());
    let (gui, a4) = consume_flag(a3, "--gui"@, Seq::empty());
    let (help, a5) = consume_flag(a4, "-h"@, "--help"@);
    let (new_session, a6) = consume_flag(a5, "-n"@, "--new-s"@);
    let (th, a7) = take_flag_action(a6, "-t"@, "--thinking"@);
    let (md, a8) = take_flag_action(a7, "-m"@, "--model"@);
    let (ss, a9) = take_flag_action(a8, "-s"@, "--session"@);
    let (pid, a10) = take_id_option(a9, "--pid"@);
    match th {
        Err(m) => Err(m),
        Ok(thinking_level) => match md {
            Err(m) => Err(m),
            Ok(model) => match ss {
                Err(m) => Err(m),
                Ok(session) => match model_value_error(model) {
                    Some(m) => Err(m),
                    None => match thinking_value_error(thinking_level) {
                        Some(m) => Err(m),
                        None => Ok(
                            (
                                ClientFlagsSpec {
                                    help,
                                    start_daemon,
                                    stop_daemon,
                                    new_session,
                                    gui,
                                    session,
                                    thinking_level,
                                    model,
                                    override_pid: pid,
                                },
                                a10,
                            ),
                        ),
                    },
                },
            },
        },
    }
}

/// Checks a model choice: it must be a number.
pub fn check_model_value(model: &Option<FlagAction>) -> (r: Option<String>)
    ensures
        opt_text(r) == model_value_error(opt_action_view(*model)),
{
    match model {
        Some(FlagAction::Value(val)) => {
            if parse_usize(val.as_str()).is_none() {
                let mut v: Vec<char> = Vec::new();
                extend_str(&mut v, "Invalid model selection: '");
                extend_str(&mut v, val.as_str());
                extend_str(
                    &mut v,
                    "'. Use `mobius -m` to list available models, then `mobius -m <number>`.",
                );
                Some(string_of(&v))
            } else {
                None
            }
        },
        _ => None,
    }
}

pub open spec fn opt_text(r: Option<String>) -> Option<Seq<char>> {
    match r {
        Some(s) => Some(s@),
        None => None,
    }
}

/// Checks a thinking level: a number below the number of levels, or a level name.
pub fn check_thinking_value(level: &Option<FlagAction>) -> (r: Option<String>)
    ensures
        opt_text(r) == thinking_value_error(opt_action_view(*level)),
{
    match level {
        Some(FlagAction::Value(val)) => {
            match parse_usize(val.as_str()) {
                Some(n) => {
                    if n >= THINKING_LEVEL_COUNT {
                        let mut v: Vec<char> = Vec::new();
                        extend_str(&mut v, "Invalid thinking level: '");
                        extend_str(&mut v, val.as_str());
                        extend_str(
                            &mut v,
                            "'. Use `mobius -t` to list available levels, then `mobius -t <number>`.",
                        );
                        Some(string_of(&v))
                    } else {
                        None
                    }
                },
                None => {
                    if ThinkingLevel::from_str(val.as_str()).is_none() {
                        let mut v: Vec<char> = Vec::new();
                        extend_str(&mut v, "Invalid thinking level: '");
                        extend_str(&mut v, val.as_str());
                        extend_str(
                            &mut v,
                            "'. Use `mobius -t` to list available levels (off, min, low, med, high, xhigh, max).",
                        );
                        Some(string_of(&v))
                    } else {
                        None
                    }
                },
            }
        },
        _ => None,
    }
}

impl CliArgs {
    /// Checks the client's flags and prompt against the rules on how they combine.
    pub fn check(flags: ClientFlags, prompt: String) -> (r: Result<CliArgs, String>)
        ensures
            client_result_view(r) == checked_client_args(flags@, prompt@),
    {
        let has_prompt = !prompt.as_str().is_empty();
        if flags.start_daemon {
            return Ok(
                CliArgs {
                    help: false,
                    start_daemon: true,
                    stop_daemon: false,
                    new_session: false,
                    gui: false,
                    session: None,
                    thinking_level: None,
                    model: None,
                    prompt: String::new(),
                    override_pid: flags.override_pid,
                },
            );
        }
        let mut flag_count: usize = 0;
        if flags.help {
            flag_count += 1;
        }
        if flags.stop_daemon {
            flag_count += 1;
        }
        if flags.new_session {
            flag_count += 1;
        }
        if flags.gui {
            flag_count += 1;
        }
        if flags.thinking_level.is_some() {
            flag_count += 1;
        }
        if flags.model.is_some() {
            flag_count += 1;
        }
        if flags.session.is_some() {
            flag_count += 1;
        }
        if flag_count > 1 {
            return Err("Multiple flags provided! Mobius only allows 1 flag per command.".to_string());
        }
        if flags.gui && has_prompt {
            return Err("The `--gui` flag must be used on its own. Do not pass a prompt.".to_string());
        }
        if flags.stop_daemon && has_prompt {
            return Err(
                "The `--stop-daemon` flag must be used on its own. Do not pass a prompt.".to_string(),
            );
        }
        if flags.new_session && has_prompt {
            return Err(
                "The `-n` / `--new-s` flag must be used on its own. Do not pass a prompt with it.".to_string(),
            );
        }
        if flags.thinking_level.is_some() && has_prompt {
            return Err(
                "The `-t` / `--thinking` flag is strictly for setting or querying thinking levels. Do not pass a prompt with it.".to_string(),
            );
        }
        if flags.model.is_some() && has_prompt {
            return Err(
                "The model flag (-m / --model) is strictly for querying or switching models. Do not pass a prompt with it.".to_string(),
            );
        }
        if flags.session.is_some() && has_prompt {
            return Err(
                "The `-s` / `--session` flag is strictly for querying or switching sessions. Do not pass a prompt with it.".to_string(),
            );
        }
        Ok(
            CliArgs {
                help: flags.help,
                start_daemon: false,
                stop_daemon: flags.stop_daemon,
                new_session: flags.new_session,
                gui: flags.gui,
                session: flags.session,
                thinking_level: flags.thinking_level,
                model: flags.model,
                prompt,
                override_pid: flags.override_pid,
            },
        )
    }

    /// Parses the client's command line: `-h` anywhere answers help at once;
    /// otherwise every flag is read, `-m` and `-t` values are checked, the
    /// remaining arguments joined with spaces form the prompt, and the
    /// combination is checked. When a remaining argument is not UTF-8 its text
    /// in the prompt is not stated.
    pub fn parse(args: pico_args::Arguments) -> (r: Result<CliArgs, String>)
        ensures
            ({
                let (help, a1) = consume_flag(argument_list(args), "-h"@, "--help"@);
                if help {
                    client_result_view(r) == Ok::<ClientArgsSpec, Seq<char>>(help_only())
                } else {
                    match extract_client_flags(a1) {
                        Err(m) => r matches Err(e) && e@ == m,
                        Ok((f, rest)) => {
                            &&& all_text(rest) ==> client_result_view(r) == checked_client_args(
                                f,
                                join(texts(rest), " "@),
                            )
                            &&& exists|p: Seq<char>| client_result_view(r) == checked_client_args(f, p)
                        },
                    }
                }
            }),
    {
        let mut par = args;
        proof {
            reveal_strlit("-h");
            reveal_strlit("--help");
            reveal_strlit("--start-daemon");
            reveal_strlit("--stop-daemon");
            reveal_strlit("--gui");
            reveal_strlit("-n");
            reveal_strlit("--new-s");
            reveal_strlit("-t");
            reveal_strlit("--thinking");
            reveal_strlit("-m");
            reveal_strlit("--model");
            reveal_strlit("-s");
            reveal_strlit("--session");
            reveal_strlit("--pid");
            reveal_strlit("--");
            assert("--help"@.subrange(0, 2) =~= "--"@);
            assert("--start-daemon"@.subrange(0, 2) =~= "--"@);
            assert("--stop-daemon"@.subrange(0, 2) =~= "--"@);
            assert("--gui"@.subrange(0, 2) =~= "--"@);
            assert("--new-s"@.subrange(0, 2) =~= "--"@);
            assert("--thinking"@.subrange(0, 2) =~= "--"@);
            assert("--model"@.subrange(0, 2) =~= "--"@);
            assert("--session"@.subrange(0, 2) =~= "--"@);
            assert("--pid"@.subrange(0, 2) =~= "--"@);
        }
        if contains_pair(&mut par, "-h", "--help") {
            return Ok(
                CliArgs {
                    help: true,
                    start_daemon: false,
                    stop_daemon: false,
                    new_session: false,
                    gui: false,
                    thinking_level: None,
                    model: None,
                    session: None,
                    prompt: String::new(),
                    override_pid: None,
                },
            );
        }
        let start_daemon = contains_long(&mut par, "--start-daemon");
        let stop_daemon = contains_long(&mut par, "--stop-daemon");
        let gui = contains_long(&mut par, "--gui");
        let help = contains_pair(&mut par, "-h", "--help");
        let new_session = contains_pair(&mut par, "-n", "--new-s");
        let thinking_level = match parse_flag_action(&mut par, ["-t", "--thinking"]) {
            Ok(v) => v,
            Err(e) => return Err(e),
        };
        let model = match parse_flag_action(&mut par, ["-m", "--model"]) {
            Ok(v) => v,
            Err(e) => return Err(e),
        };
        let session = match parse_flag_action(&mut par, ["-s", "--session"]) {
            Ok(v) => v,
            Err(e) => return Err(e),
        };
        match check_model_value(&model) {
            Some(m) => return Err(m),
            None => {},
        }
        match check_thinking_value(&thinking_level) {
            Some(m) => return Err(m),
            None => {},
        }
        let override_pid = match id_option_long(&mut par, "--pid") {
            Ok(v) => v,
            Err(_) => None,
        };
        let ghost rest = argument_list(par);
        let words = crate::arguments::finish(par);
        let prompt = join_strings(&words, " ");
        proof {
            if all_text(rest) {
                assert(string_views(words@) =~= texts(rest));
            }
        }
        let flags = ClientFlags {
            help,
            start_daemon,
            stop_daemon,
            new_session,
            gui,
            session,
            thinking_level,
            model,
            override_pid,
        };
        Self::check(flags, prompt)
    }
}

} // verus!
